//! The library's text functions against the standard library's, on many
//! inputs.

use std::path::Path;

use tern_site::filename::sanitize_filename;
use tern_site::options::{parse_dither, parse_fit, parse_region, DitherMode, FitMode, RegionMode};
use tern_site::release::{firmware_tag_of, is_firmware_file_name};
use tern_site::sizes::parse_sizes;
use tern_site::text::{join_path, same_text};

/// A fixed sequence of numbers that looks random.
struct Numbers(u64);

impl Numbers {
    fn next(&mut self) -> u64 {
        self.0 = self.0.wrapping_mul(6364136223846793005).wrapping_add(1442695040888963407);
        self.0 >> 33
    }

    fn below(&mut self, bound: usize) -> usize {
        (self.next() % bound as u64) as usize
    }

    /// A text of up to `max` pieces drawn from `pieces`.
    fn text(&mut self, pieces: &[&str], max: usize) -> String {
        let count = self.below(max + 1);
        (0..count).map(|_| pieces[self.below(pieces.len())]).collect()
    }
}

#[test]
fn sizes_agree_with_split_trim_and_parse() {
    let pieces = [
        ",", ",", " ", "\t", "\u{a0}", "\u{3000}", "+", "-", "0", "1", "2", "5", "6", "9", "65535",
        "65536", "x", ".", "٣", "_",
    ];
    let mut numbers = Numbers(1);
    for _ in 0..20_000 {
        let text = numbers.text(&pieces, 12);
        let expected: Vec<u16> =
            text.split(',').filter_map(|s| s.trim().parse::<u16>().ok()).collect();
        assert_eq!(parse_sizes(&text), expected, "{:?}", text);
    }
}

#[test]
fn clean_names_agree_with_trim_and_filter() {
    let pieces = [
        " ", " ", "\t", "\n", "\u{a0}", "\u{2003}", "a", "Z", "0", "9", ".", "_", "-", "/", "\\",
        "\"", ";", "é", "日", "\u{0}", "..", "tri",
    ];
    let mut numbers = Numbers(2);
    for _ in 0..20_000 {
        let name = numbers.text(&pieces, 10);
        let trimmed = name.trim();
        let expected = if trimmed.is_empty() {
            "fallback".to_string()
        } else {
            let kept: String = trimmed
                .chars()
                .filter(|c| {
                    c.is_ascii_alphanumeric() || *c == '.' || *c == '_' || *c == '-' || *c == ' '
                })
                .collect();
            let kept = kept.trim();
            if kept.is_empty() {
                "fallback".to_string()
            } else {
                kept.to_string()
            }
        };
        assert_eq!(sanitize_filename(&name, "fallback"), expected, "{:?}", name);
    }
}

#[test]
fn firmware_names_agree_with_starts_with_and_ends_with() {
    let pieces = ["tern-fw-", "tern-fw-", ".bin", ".bin", "tern", "-fw-", ".", "bin", "v1", "é", "-"];
    let mut numbers = Numbers(3);
    for _ in 0..20_000 {
        let name = numbers.text(&pieces, 6);
        let expected = name.starts_with("tern-fw-") && name.ends_with(".bin");
        assert_eq!(is_firmware_file_name(&name), expected, "{:?}", name);
    }
}

#[test]
fn tags_agree_with_strip_prefix_and_strip_suffix() {
    let pieces = ["tern-fw-", "tern-fw-", ".bin", ".bin", "tern", "-fw-", ".", "bin", "v1", "é", "-"];
    let mut numbers = Numbers(4);
    for _ in 0..20_000 {
        let name = numbers.text(&pieces, 7);
        let between = name.strip_prefix("tern-fw-").and_then(|rest| rest.strip_suffix(".bin"));
        let expected = between.unwrap_or(&name);
        assert_eq!(firmware_tag_of(&name), expected, "{:?}", name);
        if is_firmware_file_name(&name) {
            assert_eq!(format!("tern-fw-{}.bin", firmware_tag_of(&name)), name);
        }
    }
}

#[test]
fn paths_agree_with_path_join() {
    let pieces = ["/", "/", "a", "cache", ".", "..", "tern-fw-v1.bin", " ", "é"];
    let mut numbers = Numbers(5);
    for _ in 0..20_000 {
        let dir = numbers.text(&pieces, 4);
        let name = numbers.text(&pieces, 4);
        let expected = Path::new(&dir).join(&name).to_string_lossy().to_string();
        assert_eq!(join_path(&dir, &name), expected, "{:?} {:?}", dir, name);
    }
}

#[test]
fn options_agree_with_lowercase_matching() {
    let words = [
        "contain", "cover", "stretch", "integer", "width", "none", "bayer", "crisp", "barcode",
        "auto", "", "other",
    ];
    let mut numbers = Numbers(6);
    for _ in 0..5_000 {
        let word = words[numbers.below(words.len())];
        let mixed: String = word
            .chars()
            .map(|c| if numbers.below(2) == 0 { c.to_ascii_uppercase() } else { c })
            .collect();
        let fit = match word {
            "contain" => FitMode::Contain,
            "cover" => FitMode::Cover,
            "stretch" => FitMode::Stretch,
            "integer" => FitMode::Integer,
            _ => FitMode::Width,
        };
        let dither = if word == "none" { DitherMode::Off } else { DitherMode::Bayer };
        let region = match word {
            "none" => RegionMode::Off,
            "crisp" => RegionMode::Crisp,
            "barcode" => RegionMode::Barcode,
            _ => RegionMode::Auto,
        };
        assert_eq!(parse_fit(&mixed), fit, "{:?}", mixed);
        assert_eq!(parse_dither(&mixed), dither, "{:?}", mixed);
        assert_eq!(parse_region(&mixed), region, "{:?}", mixed);
    }
}

#[test]
fn same_text_agrees_with_equality() {
    let pieces = ["a", "b", "é", "日", " "];
    let mut numbers = Numbers(7);
    for _ in 0..5_000 {
        let a = numbers.text(&pieces, 3);
        let b = numbers.text(&pieces, 3);
        assert_eq!(same_text(&a, &b), a == b, "{:?} {:?}", a, b);
    }
}
