use std::collections::HashMap;

use yomama::audio::{encode_mp3, split_stereo, u16_samples_to_i16, Mp3Error};
use yomama::menu::{
    checked_segment_egg_total, clip_const_name, clip_count_label, clip_option_label, clips_by_egg_count, clips_without_eggs_count,
    jokes_to_play, listing_line, segment_egg_total, segment_option_label, segments_by_egg_count,
    try_clip_count_label, try_clip_option_label, try_listing_line, try_segments_by_egg_count,
};
use yomama::numbers::{format_decimal, format_hex16, parse_unsigned_exec, zero_pad_exec};
use yomama::overlay_image::{
    decode_animation_frames, decode_rgba_from_bytes, frames_from_decoded, rgba_to_premul_bgra, OverlayError,
    RawFrame,
};
use yomama::sorting::stable_sort_by_key;
use yomama::text::{chars_of, find_exec, rfind_exec, split_lines, trimmed};
use yomama::{Segment, SegmentCatalog, SegmentClip};

fn s(chars: &[char]) -> String {
    chars.iter().collect()
}

fn clip(name: &str, hash: u64) -> SegmentClip {
    SegmentClip { data: Vec::new(), hash, name: name.to_string() }
}

#[test]
fn number_formatting_and_parsing() {
    assert_eq!(s(&format_hex16(0xff)), "00000000000000ff");
    assert_eq!(s(&format_hex16(u64::MAX)), "ffffffffffffffff");
    assert_eq!(s(&format_decimal(0)), "0");
    assert_eq!(s(&format_decimal(1234567)), "1234567");
    assert_eq!(s(&zero_pad_exec(chars_of("7"), 2)), "07");
    assert_eq!(s(&zero_pad_exec(chars_of("123"), 2)), "123");
    assert_eq!(parse_unsigned_exec(&chars_of("+FF"), 16, u64::MAX), Some(255));
    assert_eq!(parse_unsigned_exec(&chars_of("ffffffffffffffff"), 16, u64::MAX), Some(u64::MAX));
    assert_eq!(parse_unsigned_exec(&chars_of("10000000000000000"), 16, u64::MAX), None);
    assert_eq!(parse_unsigned_exec(&chars_of("4294967295"), 10, u32::MAX as u64), Some(4294967295));
    assert_eq!(parse_unsigned_exec(&chars_of("4294967296"), 10, u32::MAX as u64), None);
    assert_eq!(parse_unsigned_exec(&chars_of(""), 10, 99), None);
    assert_eq!(parse_unsigned_exec(&chars_of("+"), 10, 99), None);
    assert_eq!(parse_unsigned_exec(&chars_of("-1"), 10, 99), None);
    assert_eq!(parse_unsigned_exec(&chars_of("1a"), 10, 99), None);
    assert_eq!(jokes_to_play("12"), 12);
    assert_eq!(jokes_to_play("twelve"), 5);
    assert_eq!(jokes_to_play(""), 5);
    assert_eq!(jokes_to_play(" 3"), 5);
}

#[test]
fn text_tools() {
    assert_eq!(s(&trimmed(&chars_of("\u{3000} a b\t\r\n"))), "a b");
    assert_eq!(s(&trimmed(&chars_of("  "))), "");
    assert_eq!(find_exec(&chars_of("abcabc"), &chars_of("bc")), Some(1));
    assert_eq!(rfind_exec(&chars_of("abcabc"), &chars_of("bc")), Some(4));
    assert_eq!(find_exec(&chars_of("abc"), &chars_of("x")), None);
    let lines: Vec<String> = split_lines(&chars_of("a\r\nb\n\nc\r")).iter().map(|l| s(l)).collect();
    assert_eq!(lines, vec!["a", "b", "", "c\r"]);
    let lines: Vec<String> = split_lines(&chars_of("x\n")).iter().map(|l| s(l)).collect();
    assert_eq!(lines, vec!["x"]);
}

#[test]
fn stable_sort_keeps_ties_in_order() {
    let items = vec![('a', 2), ('b', 0), ('c', 2), ('d', 1), ('e', 0)];
    assert_eq!(stable_sort_by_key(&items), vec![('b', 0), ('e', 0), ('d', 1), ('a', 2), ('c', 2)]);
    assert!(stable_sort_by_key(&Vec::<(u8, usize)>::new()).is_empty());
}

fn catalog() -> SegmentCatalog {
    SegmentCatalog {
        base: vec![clip("b1.mp3", 1), clip("b2.mp3", 2)],
        adjective: vec![clip("fat.mp3", 10), clip("old.mp3", 11), clip("tall.mp3", 12)],
        clause: vec![clip("c.mp3", 20)],
        action: vec![clip("x.mp3", 30)],
        reaction: vec![clip("r.mp3", 40)],
    }
}

#[test]
fn segments_and_clips_ordered_by_easter_eggs() {
    let c = catalog();
    let mut counts: HashMap<u64, usize> = HashMap::new();
    counts.insert(10, 2);
    counts.insert(12, 1);
    counts.insert(1, 3);
    counts.insert(40, 1);
    assert_eq!(segment_egg_total(&c, Segment::Adjective, &counts), 3);
    assert_eq!(segment_egg_total(&c, Segment::Clause, &counts), 0);
    assert_eq!(clips_without_eggs_count(&c, Segment::Adjective, &counts), 1);
    assert_eq!(clips_without_eggs_count(&c, Segment::Base, &counts), 1);
    assert_eq!(
        segments_by_egg_count(&c, &counts),
        vec![
            (Segment::Clause, 0),
            (Segment::Action, 0),
            (Segment::Reaction, 1),
            (Segment::Base, 3),
            (Segment::Adjective, 3),
        ]
    );
    assert_eq!(checked_segment_egg_total(&c, Segment::Adjective, &counts), Some(3));
    assert_eq!(try_segments_by_egg_count(&c, &counts), Some(segments_by_egg_count(&c, &counts)));
    let ordered = clips_by_egg_count(&c, Segment::Adjective, &counts);
    let got: Vec<(usize, &str, usize)> = ordered.iter().map(|((i, cl), n)| (*i, cl.name.as_str(), *n)).collect();
    assert_eq!(got, vec![(1, "old.mp3", 0), (2, "tall.mp3", 1), (0, "fat.mp3", 2)]);
}

#[test]
fn egg_totals_that_overflow_are_refused() {
    let c = catalog();
    let mut counts: HashMap<u64, usize> = HashMap::new();
    counts.insert(10, usize::MAX);
    counts.insert(11, 1);
    assert_eq!(checked_segment_egg_total(&c, Segment::Adjective, &counts), None);
    assert_eq!(checked_segment_egg_total(&c, Segment::Base, &counts), Some(0));
    assert_eq!(try_segments_by_egg_count(&c, &counts), None);
    counts.remove(&11);
    assert_eq!(checked_segment_egg_total(&c, Segment::Adjective, &counts), Some(usize::MAX));
    assert!(try_segments_by_egg_count(&c, &counts).is_some());
}

#[test]
fn menu_labels() {
    assert_eq!(segment_option_label(Segment::Clause, 0, 4), "Clause (no easter eggs)");
    assert_eq!(segment_option_label(Segment::Base, 1, 1), "Base (1 easter egg, 1 clip without)");
    assert_eq!(segment_option_label(Segment::Adjective, 3, 0), "Adjective (3 easter eggs, 0 clips without)");
    let fat = clip("fat-ugly.mp3", 0xafe3de4e2c58e6d0);
    assert_eq!(clip_const_name(Segment::Adjective, &fat.name), "ADJECTIVE_FAT_UGLY");
    assert_eq!(clip_option_label(Segment::Adjective, &fat), "fat-ugly.mp3 (ADJECTIVE_FAT_UGLY) [0xafe3de4e2c58e6d0]");
    assert_eq!(
        clip_count_label(Segment::Adjective, &fat, 0),
        "fat-ugly.mp3 (ADJECTIVE_FAT_UGLY) [0xafe3de4e2c58e6d0] (no easter eggs)"
    );
    assert_eq!(
        clip_count_label(Segment::Adjective, &fat, 2),
        "fat-ugly.mp3 (ADJECTIVE_FAT_UGLY) [0xafe3de4e2c58e6d0] (2 easter eggs)"
    );
    assert_eq!(
        try_clip_count_label(Segment::Adjective, &fat, 1),
        Some("fat-ugly.mp3 (ADJECTIVE_FAT_UGLY) [0xafe3de4e2c58e6d0] (1 easter egg)".to_string())
    );
    assert_eq!(try_clip_option_label(Segment::Base, &clip("..", 0)), None);
    assert_eq!(
        listing_line(Segment::Base, &clip("01.mp3", 0x88c0238a9d5bf1c2)),
        "  BASE_01                      01.mp3                    0x88c0238a9d5bf1c2"
    );
    assert_eq!(try_listing_line(Segment::Base, &clip("", 0)), None);
}

#[test]
fn premultiplied_bgra() {
    let bgra = rgba_to_premul_bgra(&[255, 128, 0, 128, 10, 20, 30, 255, 1, 2]);
    assert_eq!(bgra, vec![0, 64, 128, 128, 30, 20, 10, 255]);
    assert_eq!(rgba_to_premul_bgra(&[9, 9, 9, 0]), vec![0, 0, 0, 0]);
    assert!(rgba_to_premul_bgra(&[]).is_empty());
}

fn png_bytes() -> Vec<u8> {
    let img = image::RgbaImage::from_raw(2, 1, vec![255, 0, 0, 255, 0, 0, 255, 128]).unwrap();
    let mut out = std::io::Cursor::new(Vec::new());
    img.write_to(&mut out, image::ImageFormat::Png).unwrap();
    out.into_inner()
}

fn gif_bytes() -> Vec<u8> {
    let mut out = Vec::new();
    {
        let mut enc = image::codecs::gif::GifEncoder::new(&mut out);
        let f1 = image::Frame::from_parts(
            image::RgbaImage::from_pixel(1, 1, image::Rgba([255, 0, 0, 255])),
            0,
            0,
            image::Delay::from_numer_denom_ms(250, 1),
        );
        let f2 = image::Frame::from_parts(
            image::RgbaImage::from_pixel(1, 1, image::Rgba([0, 255, 0, 255])),
            0,
            0,
            image::Delay::from_numer_denom_ms(0, 1),
        );
        enc.encode_frames(vec![f1, f2]).unwrap();
    }
    out
}

#[test]
fn still_images_decode() {
    let (rgba, w, h) = decode_rgba_from_bytes(&png_bytes()).unwrap();
    assert_eq!((w, h), (2, 1));
    assert_eq!(rgba, vec![255, 0, 0, 255, 0, 0, 255, 128]);
    assert_eq!(decode_rgba_from_bytes(b"not an image").err(), Some(OverlayError::Decode));
    let frames = decode_animation_frames(&png_bytes()).unwrap();
    assert_eq!(frames.len(), 1);
    assert_eq!(frames[0].delay_ms, 100);
    assert_eq!((frames[0].width, frames[0].height), (2, 1));
    assert!(decode_animation_frames(b"garbage").is_err());
}

#[test]
fn animations_decode_with_delays() {
    let frames = decode_animation_frames(&gif_bytes()).unwrap();
    assert_eq!(frames.len(), 2);
    assert_eq!(frames[0].delay_ms, 250);
    assert_eq!(frames[1].delay_ms, 10);
    assert_eq!((frames[0].width, frames[0].height), (1, 1));
    assert_eq!(&frames[0].rgba[0..3], &[255, 0, 0]);
    assert_eq!(&frames[1].rgba[0..3], &[0, 255, 0]);
}

#[test]
fn truncated_gif_ends_its_frames() {
    let full = gif_bytes();
    let cut = &full[..full.len() - 6];
    let frames = decode_animation_frames(cut).unwrap();
    assert!(frames.len() <= 2);
    assert_eq!(&frames[0].rgba[0..3], &[255, 0, 0]);
}

#[test]
fn frame_delays() {
    let raw = vec![
        Some(RawFrame { rgba: vec![1], width: 1, height: 1, delay_numer: 5, delay_denom: 1 }),
        None,
        Some(RawFrame { rgba: vec![2], width: 2, height: 3, delay_numer: 250, delay_denom: 2 }),
        Some(RawFrame { rgba: vec![3], width: 1, height: 1, delay_numer: 40, delay_denom: 0 }),
    ];
    let frames = frames_from_decoded(raw);
    let got: Vec<(Vec<u8>, u32, u32, u64)> = frames.into_iter().map(|f| (f.rgba, f.width, f.height, f.delay_ms)).collect();
    assert_eq!(got, vec![(vec![1], 1, 1, 10), (vec![2], 2, 3, 125), (vec![3], 1, 1, 40)]);
}

#[test]
fn recorded_samples() {
    assert_eq!(u16_samples_to_i16(&[0, 32768, 65535, 1]), vec![-32768, 0, 32767, -32767]);
    assert_eq!(split_stereo(&[1, 2, 3, 4, 5]), (vec![1, 3, 5], vec![2, 4]));
    assert_eq!(split_stereo(&[1, 2]), (vec![1], vec![2]));
    assert_eq!(split_stereo(&[]), (vec![], vec![]));
}

#[test]
fn recordings_encode_to_mp3() {
    let mono: Vec<i16> = (0..44100).map(|i| ((i % 100) as i16 - 50) * 100).collect();
    let bytes = encode_mp3(&mono, 1, 44100).unwrap();
    assert!(bytes.len() > 1000);
    assert_eq!(bytes[0], 0xff);
    let stereo: Vec<i16> = (0..88200).map(|i| ((i % 80) as i16 - 40) * 100).collect();
    let bytes = encode_mp3(&stereo, 2, 44100).unwrap();
    assert!(bytes.len() > 1000);
    assert!(encode_mp3(&mono, 1, 1).is_err());
}

#[test]
fn mp3_parameters_that_lame_refuses() {
    let mono: Vec<i16> = vec![0; 1152];
    assert_eq!(encode_mp3(&mono, 0, 44100), Err(Mp3Error::Channels));
    assert_eq!(encode_mp3(&mono, 3, 44100), Err(Mp3Error::Channels));
    assert_eq!(encode_mp3(&mono, 256 + 3, 44100), Err(Mp3Error::Channels));
    assert_eq!(encode_mp3(&mono, 1, 0), Err(Mp3Error::SampleRate));
    assert!(encode_mp3(&mono, 256 + 1, 44100).is_ok());
}
