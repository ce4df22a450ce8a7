use yomama::egg_source::{
    easter_egg_entry, effect_code, egg_count_by_hash, insert_easter_egg_entry, is_duplicate,
    parse_easter_egg_line, parse_existing_easter_eggs, phase_from_index, ExistingEgg,
};
use yomama::registry::{
    audio_entries, const_stem, default_overlay_filename, is_animated_file, is_clip_file, largest_clip_number,
    next_filename,
    overlay_entries, parse_include_file_entries, register_overlay_in_segments_rs,
    registered_overlay_const, suggested_overlay_const, try_const_stem, try_overlay_const_name,
    try_suggested_overlay_const, SourceEditError,
};
use yomama::text::chars_of;
use yomama::{Asset, Phase, Segment};

const SEGMENTS_SOURCE: &str = "include!(concat!(env!(\"OUT_DIR\"), \"/segments.rs\"));\n\
\n\
include_file! {\n\
    FAMILYGUY_SPR => \"../assets/overlays/familyguy.jpg\"\n\
    CRACK_SPR => \"../assets/overlays/crack.gif\"\r\n\
    OHCOMEON => \"../assets/OHCOMEON.mp3\"\n\
    not an entry\n\
}\n\
    LATE_SPR => \"../assets/overlays/late.jpg\"\n";

fn eggs_source() -> String {
    let lines = [
        "pub fn register(joke: &YoMamaJoke) {",
        "    easter_eggs!(joke, *center => {",
        "        Reaction.reaction == 0xa418f96c5ece67d8_u64 => overlay(DIMENTIA_SPR);",
        "        // Reaction.reaction == 0x0000000000000001_u64 => crash;",
        "",
        "        Reaction.reaction == 0x69a990e91024452a_u64 [After] => crash;",
        "        Reaction.reaction == 0xca6671f9cd189a00_u64 [After] => audio(OHCOMEON, volume: 5.0);",
        "        Adjective.adjective == 0xfcc84f69b1fd0b0d_u64 => animated_overlay(CRACK_SPR, scale: 3.0);",
        "        Base.base == 0x88c0238a9d5bf1c2_u64 [Before] => overlay(MOTHER1_SPR);;",
        "        Base.base == 0xZZ_u64 => crash;",
        "    })",
        "}",
    ];
    lines.join("\n") + "\n"
}

fn pairs(v: &[(&str, &str)]) -> Vec<(String, String)> {
    v.iter().map(|(a, b)| (a.to_string(), b.to_string())).collect()
}

#[test]
fn include_file_entries_are_read() {
    let entries = parse_include_file_entries(SEGMENTS_SOURCE);
    assert_eq!(
        entries,
        pairs(&[
            ("FAMILYGUY_SPR", "../assets/overlays/familyguy.jpg"),
            ("CRACK_SPR", "../assets/overlays/crack.gif"),
            ("OHCOMEON", "../assets/OHCOMEON.mp3"),
        ])
    );
    assert!(parse_include_file_entries("no table here\n").is_empty());
}

#[test]
fn registering_an_overlay_appends_it_to_the_table() {
    let updated = register_overlay_in_segments_rs(SEGMENTS_SOURCE, "CAT_SPR", "cat.png").unwrap();
    assert!(updated.contains("    CAT_SPR => \"../assets/overlays/cat.png\"\n}\n"));
    let mut expected = parse_include_file_entries(SEGMENTS_SOURCE);
    expected.push(("CAT_SPR".to_string(), "../assets/overlays/cat.png".to_string()));
    assert_eq!(parse_include_file_entries(&updated), expected);
    assert!(updated.ends_with("late.jpg\"\n"));
}

#[test]
fn registering_an_overlay_needs_a_table_end() {
    assert_eq!(
        register_overlay_in_segments_rs("include_file! {\n    A => \"a\"\n", "B", "b.png"),
        Err(SourceEditError::MissingTableEnd)
    );
    assert_eq!(
        register_overlay_in_segments_rs("}\n", "B", "b.png"),
        Err(SourceEditError::MissingTableEnd)
    );
}

#[test]
fn easter_egg_lines_are_read() {
    let eggs = parse_existing_easter_eggs(&eggs_source());
    let got: Vec<(u64, Phase, String)> = eggs.iter().map(|e| (e.hash, e.phase, e.effect.clone())).collect();
    assert_eq!(
        got,
        vec![
            (0xa418f96c5ece67d8, Phase::During, "overlay(DIMENTIA_SPR)".to_string()),
            (0x69a990e91024452a, Phase::After, "crash".to_string()),
            (0xca6671f9cd189a00, Phase::After, "audio(OHCOMEON, volume: 5.0)".to_string()),
            (0xfcc84f69b1fd0b0d, Phase::During, "animated_overlay(CRACK_SPR, scale: 3.0)".to_string()),
            (0x88c0238a9d5bf1c2, Phase::Before, "overlay(MOTHER1_SPR)".to_string()),
        ]
    );
}

#[test]
fn easter_egg_line_details() {
    let line = |s: &str| parse_easter_egg_line(&chars_of(s));
    assert!(line("   ").is_none());
    assert!(line("// X.x == 0x1_u64 => crash;").is_none());
    assert!(line("X.x == 0x1_u64 crash;").is_none());
    assert!(line("X.x == 0x10000000000000000_u64 => crash;").is_none());
    assert!(line("X.x == 0x_u64 => crash;").is_none());
    let e = line("X.x == 0x+Ff_u64 [Before] => crash ;").unwrap();
    assert_eq!((e.hash, e.phase, e.effect.as_str()), (255, Phase::Before, "crash"));
}

#[test]
fn written_easter_egg_lines_read_back() {
    let entry = easter_egg_entry(Segment::Reaction, 0x69a990e91024452a, Phase::After, "crash");
    assert_eq!(entry, "        Reaction.reaction == 0x69a990e91024452a_u64 [After] => crash;");
    let e = parse_easter_egg_line(&chars_of(&entry)).unwrap();
    assert_eq!((e.hash, e.phase, e.effect.as_str()), (0x69a990e91024452a, Phase::After, "crash"));

    let entry = easter_egg_entry(Segment::Adjective, 0xff, Phase::During, "overlay(FAT_SPR, scale: 0.5)");
    assert_eq!(entry, "        Adjective.adjective == 0x00000000000000ff_u64 => overlay(FAT_SPR, scale: 0.5);");
    let e = parse_easter_egg_line(&chars_of(&entry)).unwrap();
    assert_eq!((e.hash, e.phase, e.effect.as_str()), (0xff, Phase::During, "overlay(FAT_SPR, scale: 0.5)"));

    let entry = easter_egg_entry(Segment::Base, 1, Phase::Before, "audio(OHCOMEON, volume: 5.0)");
    let e = parse_easter_egg_line(&chars_of(&entry)).unwrap();
    assert_eq!((e.hash, e.phase), (1, Phase::Before));
}

#[test]
fn inserted_easter_eggs_are_read_back() {
    let entry = easter_egg_entry(Segment::Clause, 42, Phase::After, "crash");
    let updated = insert_easter_egg_entry(&eggs_source(), &entry).unwrap();
    assert!(updated.contains("=> crash;\n\n        Clause.clause == 0x000000000000002a_u64 [After] => crash;\n    })"));
    let eggs = parse_existing_easter_eggs(&updated);
    assert_eq!(eggs.len(), 6);
    assert!(is_duplicate(&eggs, 42, Phase::After, "crash"));
    assert!(!is_duplicate(&parse_existing_easter_eggs(&eggs_source()), 42, Phase::After, "crash"));
    assert_eq!(
        insert_easter_egg_entry("fn nothing() {}\n", &entry),
        Err(SourceEditError::MissingEggTableEnd)
    );
}

#[test]
fn duplicates_compare_hash_phase_and_effect() {
    let eggs = vec![
        ExistingEgg { hash: 1, phase: Phase::During, effect: "crash".to_string() },
        ExistingEgg { hash: 2, phase: Phase::After, effect: "overlay(A)".to_string() },
    ];
    assert!(is_duplicate(&eggs, 2, Phase::After, "overlay(A)"));
    assert!(!is_duplicate(&eggs, 2, Phase::Before, "overlay(A)"));
    assert!(!is_duplicate(&eggs, 1, Phase::During, "crash "));
    assert!(!is_duplicate(&eggs, 3, Phase::During, "crash"));
}

#[test]
fn eggs_are_counted_per_hash() {
    let eggs = vec![
        ExistingEgg { hash: 1, phase: Phase::During, effect: "a".to_string() },
        ExistingEgg { hash: 2, phase: Phase::After, effect: "b".to_string() },
        ExistingEgg { hash: 1, phase: Phase::After, effect: "c".to_string() },
    ];
    let counts = egg_count_by_hash(&eggs);
    assert_eq!(counts.len(), 2);
    assert_eq!(counts.get(&1), Some(&2));
    assert_eq!(counts.get(&2), Some(&1));
    assert_eq!(counts.get(&3), None);
    assert!(egg_count_by_hash(&Vec::new()).is_empty());
}

#[test]
fn menu_choices() {
    assert_eq!(phase_from_index(0), Phase::During);
    assert_eq!(phase_from_index(1), Phase::Before);
    assert_eq!(phase_from_index(2), Phase::After);
    assert_eq!(phase_from_index(7), Phase::After);
    assert_eq!(effect_code(0, "FAT_SPR", ""), "overlay(FAT_SPR)");
    assert_eq!(effect_code(0, "FAT_SPR", "0.5"), "overlay(FAT_SPR, scale: 0.5)");
    assert_eq!(effect_code(1, "CRACK_SPR", "3.0"), "animated_overlay(CRACK_SPR, scale: 3.0)");
    assert_eq!(effect_code(1, "CRACK_SPR", ""), "animated_overlay(CRACK_SPR)");
    assert_eq!(effect_code(2, "OHCOMEON", ""), "audio(OHCOMEON, volume: 5.0)");
    assert_eq!(effect_code(2, "OHCOMEON", "2.5"), "audio(OHCOMEON, volume: 2.5)");
    assert_eq!(effect_code(3, "X", "Y"), "crash");
}

#[test]
fn constant_names_from_file_names() {
    assert_eq!(const_stem("01.mp3"), "01");
    assert_eq!(const_stem("my-clip v2.final.mp3"), "MY_CLIP_V2_FINAL");
    assert_eq!(const_stem("straße.mp3"), "STRASSE");
    assert_eq!(const_stem(".hidden"), "_HIDDEN");
    assert_eq!(const_stem("dir/sub.mp3"), "SUB");
    assert_eq!(try_const_stem(".."), None);
    assert_eq!(try_const_stem(""), None);
    assert_eq!(try_const_stem("a.b.c"), Some("A_B".to_string()));
    assert_eq!(try_overlay_const_name("shes 17-scott.jpg"), Some("SHES_17_SCOTT_SPR".to_string()));
    assert_eq!(suggested_overlay_const("shes 17-scott.jpg"), "SHES 17-SCOTT_SPR");
    assert_eq!(try_suggested_overlay_const("/"), None);
}

#[test]
fn default_overlay_file_names() {
    assert_eq!(default_overlay_filename("https://example.com/img/cat.png?size=2"), "cat.png");
    assert_eq!(default_overlay_filename("https://example.com/img/"), "overlay.jpg");
    assert_eq!(default_overlay_filename("https://example.com/img/cat?x=a.b"), "overlay.jpg");
    assert_eq!(default_overlay_filename("a.gif"), "a.gif");
    assert_eq!(default_overlay_filename("x"), "overlay.jpg");
}

#[test]
fn next_recording_names() {
    let names = |v: &[&str]| v.iter().map(|s| s.to_string()).collect::<Vec<String>>();
    assert_eq!(next_filename(&names(&[])), "01.mp3");
    assert_eq!(next_filename(&names(&["01.mp3", "02.mp3", "readme.txt"])), "03.mp3");
    assert_eq!(next_filename(&names(&["9.mp3"])), "10.mp3");
    assert_eq!(next_filename(&names(&["100.mp3", "7.mp3"])), "101.mp3");
    assert_eq!(next_filename(&names(&["+5.mp3", "x.mp3", "-1.mp3", "12.MP3"])), "06.mp3");
}

#[test]
fn largest_recording_number() {
    let names = |v: &[&str]| v.iter().map(|s| s.to_string()).collect::<Vec<String>>();
    assert_eq!(largest_clip_number(&names(&[])), 0);
    assert_eq!(largest_clip_number(&names(&["03.mp3", "11.mp3", "2.mp3", "notes.txt"])), 11);
    assert_eq!(largest_clip_number(&names(&["4294967295.mp3"])), u32::MAX);
    assert_eq!(largest_clip_number(&names(&["4294967296.mp3", "8.mp3"])), 8);
}

#[test]
fn file_kinds() {
    assert!(is_animated_file("crack.gif"));
    assert!(is_animated_file("x.webp"));
    assert!(!is_animated_file("x.GIF"));
    assert!(!is_animated_file("gif"));
    assert!(is_clip_file("01.mp3"));
    assert!(is_clip_file("Loud.MP3"));
    assert!(!is_clip_file(".mp3"));
    assert!(!is_clip_file("a.mp4"));
    assert!(!is_clip_file("mp3"));
    assert!(!is_clip_file("a.mp3.txt"));
}

#[test]
fn registered_entries_are_looked_up() {
    let entries = parse_include_file_entries(SEGMENTS_SOURCE);
    assert_eq!(registered_overlay_const(&entries, "crack.gif"), Some("CRACK_SPR".to_string()));
    assert_eq!(registered_overlay_const(&entries, "dog.gif"), None);
    assert_eq!(audio_entries(&entries), pairs(&[("OHCOMEON", "../assets/OHCOMEON.mp3")]));
    assert_eq!(
        overlay_entries(&entries),
        pairs(&[
            ("FAMILYGUY_SPR", "../assets/overlays/familyguy.jpg"),
            ("CRACK_SPR", "../assets/overlays/crack.gif"),
        ])
    );
    assert_eq!(Asset::CRACK_SPR.const_name(), "CRACK_SPR");
    assert_eq!(Asset::CRACK_SPR.path(), "../assets/overlays/crack.gif");
    assert_eq!(Asset::OHCOMEON.path(), "../assets/OHCOMEON.mp3");
    assert_eq!(yomama::all_assets().len(), 41);
}
