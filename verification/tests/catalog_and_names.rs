use yomama::catalog::category_from_entries;
use yomama::egg_source::{easter_egg_entry, insert_easter_egg_entry, parse_existing_easter_eggs};
use yomama::fnv::fnv1a;
use yomama::menu::{clip_const_name, try_listing_line};
use yomama::registry::{
    const_stem, overlay_const_name, overlay_option_label, try_overlay_const_name, parse_include_file_entries, register_overlay_in_segments_rs,
    suggested_overlay_const, try_const_stem,
};
use yomama::{Phase, Segment, SegmentCatalog, SegmentClip};

fn entry(name: &str, data: &[u8]) -> (String, Vec<u8>) {
    (name.to_string(), data.to_vec())
}

#[test]
fn categories_keep_clip_files_sorted_and_hashed() {
    let clips = category_from_entries(vec![
        entry("02.mp3", b"two"),
        entry("notes.txt", b"x"),
        entry("01.MP3", b"one"),
        entry("10.mp3", b"ten"),
        entry(".mp3", b"hidden"),
        entry("b.mp3", b"bee"),
    ]);
    let names: Vec<&str> = clips.iter().map(|c| c.name.as_str()).collect();
    assert_eq!(names, vec!["01.MP3", "02.mp3", "10.mp3", "b.mp3"]);
    for c in &clips {
        assert_eq!(c.hash, fnv1a(&c.data));
    }
    assert_eq!(clips[0].data, b"one".to_vec());
    assert!(category_from_entries(vec![]).is_empty());
}

#[test]
fn catalog_from_directory_entries() {
    let c = SegmentCatalog::from_entries(
        vec![entry("b.mp3", b"1"), entry("a.mp3", b"2")],
        vec![entry("fat.mp3", b"3")],
        vec![entry("readme.md", b"4")],
        vec![],
        vec![entry("r.mp3", b"5")],
    );
    let base: Vec<&str> = c.base.iter().map(|c: &SegmentClip| c.name.as_str()).collect();
    assert_eq!(base, vec!["a.mp3", "b.mp3"]);
    assert_eq!(c.adjective.len(), 1);
    assert!(c.clause.is_empty());
    assert!(c.action.is_empty());
    assert_eq!(c.reaction[0].hash, fnv1a(b"5"));
}

#[test]
fn constant_stems_of_ascii_names_are_stable() {
    for name in ["shes 17-scott.jpg", "01.mp3", "a.b.c", "x", ".hidden"] {
        let once = const_stem(name);
        assert_eq!(const_stem(&once), once);
    }
    assert_eq!(const_stem("fat.mp3"), "FAT");
    assert_eq!(suggested_overlay_const("my-cat.png"), "MY-CAT_SPR");
    assert_eq!(clip_const_name(Segment::Adjective, "fat.mp3"), "ADJECTIVE_FAT");
}

#[test]
fn stems_of_paths_come_from_the_platform() {
    assert_eq!(try_const_stem("dir/a.mp3"), Some("A".to_string()));
    let clip = SegmentClip { data: vec![], hash: 1, name: "dir/a.mp3".to_string() };
    assert!(try_listing_line(Segment::Base, &clip).unwrap().starts_with("  BASE_A"));
}

#[test]
fn overlay_menu_labels() {
    assert_eq!(
        overlay_option_label("FAT_SPR", "../assets/overlays/fat.jpg"),
        Some("FAT_SPR (fat.jpg)".to_string())
    );
    assert_eq!(overlay_option_label("X", "x.png"), Some("X (x.png)".to_string()));
    assert_eq!(overlay_option_label("X", "a/.."), None);
}

#[test]
fn overlays_with_unusual_constants_are_listed() {
    let source = ["include_file! {", "    A => \"../assets/overlays/a.jpg\"", "}", ""].join("\n");
    let updated = register_overlay_in_segments_rs(&source, "", "e.png").unwrap();
    let entries = parse_include_file_entries(&updated);
    assert_eq!(entries.len(), 2);
    assert_eq!(entries[1], ("".to_string(), "../assets/overlays/e.png".to_string()));
    let updated = register_overlay_in_segments_rs(&source, "WOW!_SPR", "w.png").unwrap();
    let entries = parse_include_file_entries(&updated);
    assert_eq!(entries[1], ("WOW!_SPR".to_string(), "../assets/overlays/w.png".to_string()));
}

#[test]
fn effects_with_brackets_read_back() {
    let source = ["    easter_eggs!(joke, center => {", "    })", ""].join("\n");
    let entry = easter_egg_entry(Segment::Base, 0xabc, Phase::Before, "overlay(X[0])");
    let updated = insert_easter_egg_entry(&source, &entry).unwrap();
    let eggs = parse_existing_easter_eggs(&updated);
    assert_eq!(eggs.len(), 1);
    assert_eq!(eggs[0].hash, 0xabc);
    assert_eq!(eggs[0].phase, Phase::Before);
    assert_eq!(eggs[0].effect, "overlay(X[0])");
}

#[test]
fn constant_stems_of_slash_paths() {
    assert_eq!(const_stem("a/b.mp3"), "B");
    assert_eq!(const_stem("base/my clip.v2.mp3"), "MY_CLIP_V2");
    assert_eq!(const_stem("a/b.mp3/"), "B");
    assert_eq!(const_stem("a/./b-c.mp3/."), "B_C");
    assert_eq!(const_stem(&const_stem("sub/x-y.gif")), const_stem("sub/x-y.gif"));
    assert_eq!(overlay_const_name("sub/x.gif"), "X_SPR");
    assert_eq!(try_overlay_const_name("sub/.."), None);
    assert_eq!(try_const_stem("/"), None);
    assert_eq!(try_const_stem("./"), None);
    assert_eq!(overlay_option_label("X", "a/b/"), Some("X (b)".to_string()));
}
