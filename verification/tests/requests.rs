use tern_site::clock::{epoch_seconds, now_epoch};
use tern_site::conversion::{
    book_failure, image_failure, BookStep, ConversionError, ImageStep,
};
use tern_site::filename::{
    book_output_name, content_disposition, image_output_name, is_kept_char, output_filename,
    sanitize_filename,
};
use tern_site::fonts::{
    font_files, font_files_from_lowercase, resolve_font_paths, select_font_paths, FontFiles,
    FontPaths, FontPresence,
};
use tern_site::info::info;
use tern_site::options::{
    dither_from_lowercase, fit_from_lowercase, image_options, parse_dither, parse_fit,
    parse_region, region_from_lowercase, DitherMode, FitMode, ImageOptions, RegionMode,
};
use tern_site::paths::{
    cache_dir, firmware_cache_path, fonts_dir, onnx_model_path, release_cache_path,
};
use tern_site::sizes::{book_sizes, parse_sizes};
use tern_site::text::{chars_of, is_white_space_char, join_path, same_text, spells};

#[test]
fn fit_is_read_in_any_case() {
    assert_eq!(parse_fit("contain"), FitMode::Contain);
    assert_eq!(parse_fit("CONTAIN"), FitMode::Contain);
    assert_eq!(parse_fit("Cover"), FitMode::Cover);
    assert_eq!(parse_fit("sTrEtCh"), FitMode::Stretch);
    assert_eq!(parse_fit("INTEGER"), FitMode::Integer);
    assert_eq!(parse_fit("width"), FitMode::Width);
}

#[test]
fn unknown_fit_is_width() {
    assert_eq!(parse_fit(""), FitMode::Width);
    assert_eq!(parse_fit("fill"), FitMode::Width);
    assert_eq!(parse_fit(" contain"), FitMode::Width);
    assert_eq!(parse_fit("contain "), FitMode::Width);
}

#[test]
fn dither_is_bayer_unless_none() {
    assert_eq!(parse_dither("none"), DitherMode::Off);
    assert_eq!(parse_dither("NONE"), DitherMode::Off);
    assert_eq!(parse_dither("bayer"), DitherMode::Bayer);
    assert_eq!(parse_dither(""), DitherMode::Bayer);
    assert_eq!(parse_dither("floyd"), DitherMode::Bayer);
}

#[test]
fn region_is_auto_unless_named() {
    assert_eq!(parse_region("none"), RegionMode::Off);
    assert_eq!(parse_region("Crisp"), RegionMode::Crisp);
    assert_eq!(parse_region("BARCODE"), RegionMode::Barcode);
    assert_eq!(parse_region("auto"), RegionMode::Auto);
    assert_eq!(parse_region("qr"), RegionMode::Auto);
}

#[test]
fn image_options_follow_the_form_fields() {
    assert_eq!(
        image_options("Cover", "None", "crisp", true, 2, true),
        ImageOptions {
            fit: FitMode::Cover,
            dither: DitherMode::Off,
            region_mode: RegionMode::Crisp,
            invert: true,
            trimg_version: 2,
            use_detection_model: true,
        }
    );
    assert_eq!(
        image_options("width", "bayer", "auto", false, 1, false),
        ImageOptions {
            fit: FitMode::Width,
            dither: DitherMode::Bayer,
            region_mode: RegionMode::Auto,
            invert: false,
            trimg_version: 1,
            use_detection_model: false,
        }
    );
}

#[test]
fn format_version_is_one_unless_two() {
    for asked in [0u8, 1, 3, 255] {
        assert_eq!(image_options("", "", "", false, asked, false).trimg_version, 1);
    }
    assert_eq!(image_options("", "", "", false, 2, false).trimg_version, 2);
}

#[test]
fn sizes_are_read_between_commas() {
    assert_eq!(parse_sizes("24"), vec![24]);
    assert_eq!(parse_sizes("18,24,30"), vec![18, 24, 30]);
    assert_eq!(parse_sizes(" 18 ,\t24\n, 30 "), vec![18, 24, 30]);
    assert_eq!(parse_sizes("\u{3000}24\u{a0}"), vec![24]);
    assert_eq!(parse_sizes("0,65535"), vec![0, 65535]);
    assert_eq!(parse_sizes("+5,0012,000000000000000000007"), vec![5, 12, 7]);
}

#[test]
fn pieces_that_are_no_size_are_passed_over() {
    assert_eq!(parse_sizes(""), Vec::<u16>::new());
    assert_eq!(parse_sizes(","), Vec::<u16>::new());
    assert_eq!(parse_sizes("abc"), Vec::<u16>::new());
    assert_eq!(parse_sizes("18,,24,"), vec![18, 24]);
    assert_eq!(parse_sizes("18,abc,24"), vec![18, 24]);
    assert_eq!(parse_sizes("65536,70000,99999999999999999999,12"), vec![12]);
    assert_eq!(parse_sizes("-1,+,-,++3,1 2,1.5,0x10,1_0,٣,9"), vec![9]);
}

#[test]
fn book_sizes_default_to_eighteen() {
    assert_eq!(book_sizes(""), vec![18]);
    assert_eq!(book_sizes("big, bigger"), vec![18]);
    assert_eq!(book_sizes("24"), vec![24]);
    assert_eq!(book_sizes("20, 22"), vec![20, 22]);
}

#[test]
fn file_name_keeps_letters_digits_and_a_few_marks() {
    assert_eq!(sanitize_filename("cover.tri", "x"), "cover.tri");
    assert_eq!(sanitize_filename("My Book_v2-final.trbk", "x"), "My Book_v2-final.trbk");
    assert_eq!(sanitize_filename("  cover.tri \n", "x"), "cover.tri");
    assert_eq!(sanitize_filename("../../etc/passwd", "x"), "....etcpasswd");
    assert_eq!(sanitize_filename("a\tb", "x"), "ab");
    assert_eq!(sanitize_filename("résumé.tri", "x"), "rsum.tri");
    assert_eq!(sanitize_filename("a\"; rm -rf /", "x"), "a rm -rf");
}

#[test]
fn file_name_is_trimmed_again_after_cleaning() {
    assert_eq!(sanitize_filename("/ a /", "x"), "a");
    assert_eq!(sanitize_filename("* cover.tri *", "x"), "cover.tri");
}

#[test]
fn file_name_with_nothing_left_is_the_fallback() {
    assert_eq!(sanitize_filename("", "converted.tri"), "converted.tri");
    assert_eq!(sanitize_filename("   \t ", "converted.tri"), "converted.tri");
    assert_eq!(sanitize_filename("日本語", "converted.tri"), "converted.tri");
    assert_eq!(sanitize_filename("/ /", "converted.tri"), "converted.tri");
    assert_eq!(sanitize_filename("///", "not/cleaned"), "not/cleaned");
}

#[test]
fn output_name_is_the_fallback_where_none_is_asked_for() {
    assert_eq!(output_filename(None, "converted.tri"), "converted.tri");
    assert_eq!(output_filename(Some("a b.tri"), "converted.tri"), "a b.tri");
    assert_eq!(output_filename(Some("??"), "converted.tri"), "converted.tri");
    assert_eq!(image_output_name(None), "converted.tri");
    assert_eq!(image_output_name(Some("pic.tri")), "pic.tri");
    assert_eq!(image_output_name(Some("")), "converted.tri");
    assert_eq!(book_output_name(None), "converted.trbk");
    assert_eq!(book_output_name(Some("novel.trbk")), "novel.trbk");
    assert_eq!(book_output_name(Some("<>")), "converted.trbk");
}

#[test]
fn binary_answers_are_attachments() {
    assert_eq!(
        content_disposition("tern-fw-v1.2.0.bin"),
        "attachment; filename=tern-fw-v1.2.0.bin"
    );
    assert_eq!(content_disposition(""), "attachment; filename=");
}

#[test]
fn known_font_is_found_in_any_case() {
    let files = FontFiles {
        regular: "fonts/Bookerly.ttf".to_string(),
        bold: "fonts/Bookerly Bold.ttf".to_string(),
        italic: "fonts/Bookerly Italic.ttf".to_string(),
        bold_italic: "fonts/Bookerly Bold Italic.ttf".to_string(),
    };
    assert_eq!(font_files("bookerly", "fonts"), Some(files));
    assert!(font_files("Bookerly", "fonts").is_some());
    assert!(font_files("BOOKERLY", "fonts").is_some());
    assert!(font_files("boo\u{212A}erly", "fonts").is_some());
    assert_eq!(font_files("helvetica", "fonts"), None);
    assert_eq!(font_files("", "fonts"), None);
}

#[test]
fn font_needs_its_regular_face() {
    let all = FontPresence { regular: true, bold: true, italic: true, bold_italic: true };
    assert_eq!(
        resolve_font_paths("bookerly", "/srv/fonts", all),
        Some(FontPaths {
            regular: Some("/srv/fonts/Bookerly.ttf".to_string()),
            bold: Some("/srv/fonts/Bookerly Bold.ttf".to_string()),
            italic: Some("/srv/fonts/Bookerly Italic.ttf".to_string()),
            bold_italic: Some("/srv/fonts/Bookerly Bold Italic.ttf".to_string()),
        })
    );
    let some = FontPresence { regular: true, bold: false, italic: true, bold_italic: false };
    assert_eq!(
        resolve_font_paths("Bookerly", "/srv/fonts", some),
        Some(FontPaths {
            regular: Some("/srv/fonts/Bookerly.ttf".to_string()),
            bold: None,
            italic: Some("/srv/fonts/Bookerly Italic.ttf".to_string()),
            bold_italic: None,
        })
    );
    let none = FontPresence { regular: false, bold: true, italic: true, bold_italic: true };
    assert_eq!(resolve_font_paths("bookerly", "/srv/fonts", none), None);
    assert_eq!(resolve_font_paths("arial", "/srv/fonts", all), None);
}

#[test]
fn paths_are_joined_with_one_separator() {
    assert_eq!(join_path("/srv/tern", "cache"), "/srv/tern/cache");
    assert_eq!(join_path("/srv/tern/", "cache"), "/srv/tern/cache");
    assert_eq!(join_path("", "cache"), "cache");
    assert_eq!(join_path("/", "cache"), "/cache");
    assert_eq!(join_path("/srv/tern", ""), "/srv/tern/");
    assert_eq!(join_path("/srv/tern", "/etc/passwd"), "/etc/passwd");
    assert_eq!(join_path("rel", "a/b.bin"), "rel/a/b.bin");
}

#[test]
fn service_files_lie_under_the_root() {
    assert_eq!(cache_dir("/srv/tern"), "/srv/tern/cache");
    assert_eq!(fonts_dir("/srv/tern"), "/srv/tern/fonts");
    assert_eq!(
        onnx_model_path("/srv/tern"),
        "/srv/tern/models/YOLOV8s_Barcode_Detection.onnx"
    );
    assert_eq!(release_cache_path("/srv/tern/cache"), "/srv/tern/cache/latest_release.json");
    assert_eq!(firmware_cache_path("/srv/tern/cache"), "/srv/tern/cache/app_firmware.json");
}

#[test]
fn white_space_is_that_of_unicode() {
    for c in [' ', '\t', '\n', '\u{b}', '\u{c}', '\r', '\u{85}', '\u{a0}', '\u{1680}', '\u{2000}',
        '\u{200a}', '\u{2028}', '\u{2029}', '\u{202f}', '\u{205f}', '\u{3000}']
    {
        assert!(is_white_space_char(c));
        assert!(c.is_whitespace());
    }
    for c in ['a', '0', '_', '\u{8}', '\u{e}', '\u{200b}', '\u{feff}', '\u{180e}', '\u{2060}'] {
        assert!(!is_white_space_char(c));
        assert!(!c.is_whitespace());
    }
}

#[test]
fn white_space_agrees_with_the_standard_library_everywhere() {
    for code in 0u32..=0x10FFFF {
        if let Some(c) = char::from_u32(code) {
            assert_eq!(is_white_space_char(c), c.is_whitespace(), "U+{:04X}", code);
        }
    }
}

#[test]
fn texts_are_compared_by_their_characters() {
    assert!(same_text("", ""));
    assert!(same_text("tern", "tern"));
    assert!(!same_text("tern", "Tern"));
    assert!(!same_text("tern", "tern "));
    assert_eq!(chars_of("añ日"), vec!['a', 'ñ', '日']);
}

#[test]
fn info_names_the_service() {
    let about = info();
    assert_eq!(about.name, "TernReader Web Tools");
    assert_eq!(about.version, "0.1.0");
    assert_eq!(about.device, "Xteink X4 (ESP32-C3)");
    assert_eq!(about.firmware_images, vec!["application", "full-merged"]);
}

#[test]
fn clock_shows_a_time_after_2020() {
    assert!(now_epoch() > 1_577_836_800);
}

#[test]
fn lowercase_words_are_read_as_they_stand() {
    assert_eq!(fit_from_lowercase("contain"), FitMode::Contain);
    assert_eq!(fit_from_lowercase("cover"), FitMode::Cover);
    assert_eq!(fit_from_lowercase("stretch"), FitMode::Stretch);
    assert_eq!(fit_from_lowercase("integer"), FitMode::Integer);
    assert_eq!(fit_from_lowercase("Contain"), FitMode::Width);
    assert_eq!(dither_from_lowercase("none"), DitherMode::Off);
    assert_eq!(dither_from_lowercase("None"), DitherMode::Bayer);
    assert_eq!(region_from_lowercase("none"), RegionMode::Off);
    assert_eq!(region_from_lowercase("crisp"), RegionMode::Crisp);
    assert_eq!(region_from_lowercase("barcode"), RegionMode::Barcode);
    assert_eq!(region_from_lowercase("Barcode"), RegionMode::Auto);
}

#[test]
fn font_files_of_a_lowercase_key() {
    let files = font_files_from_lowercase("bookerly", "f").expect("a font");
    assert_eq!(files.regular, "f/Bookerly.ttf");
    assert_eq!(files.bold_italic, "f/Bookerly Bold Italic.ttf");
    assert_eq!(font_files_from_lowercase("Bookerly", "f"), None);
    let present = FontPresence { regular: true, bold: true, italic: false, bold_italic: false };
    let paths = select_font_paths(files, present).expect("faces");
    assert_eq!(paths.regular.as_deref(), Some("f/Bookerly.ttf"));
    assert_eq!(paths.bold.as_deref(), Some("f/Bookerly Bold.ttf"));
    assert_eq!(paths.italic, None);
    assert_eq!(paths.bold_italic, None);
    let files = font_files_from_lowercase("bookerly", "f").expect("a font");
    let absent = FontPresence { regular: false, bold: true, italic: true, bold_italic: true };
    assert_eq!(select_font_paths(files, absent), None);
}

#[test]
fn kept_characters_are_letters_digits_and_four_marks() {
    for c in ['a', 'z', 'A', 'Z', '0', '9', '.', '_', '-', ' '] {
        assert!(is_kept_char(c), "{:?}", c);
    }
    for c in ['/', '\\', ':', '@', '[', '`', '{', '\t', '\u{a0}', 'é', '٣', '\u{0}', ','] {
        assert!(!is_kept_char(c), "{:?}", c);
    }
}

#[test]
fn vector_of_characters_spells_a_text() {
    assert!(spells(&vec!['o', 'k'], "ok"));
    assert!(spells(&vec![], ""));
    assert!(!spells(&vec!['o', 'k'], "ko"));
    assert!(!spells(&vec!['o', 'k'], "okay"));
    assert!(!spells(&vec!['o', 'k'], "o"));
}

#[test]
fn time_before_the_epoch_counts_as_zero() {
    assert_eq!(epoch_seconds(None), 0);
    assert_eq!(epoch_seconds(Some(0)), 0);
    assert_eq!(epoch_seconds(Some(1_700_000_000)), 1_700_000_000);
    assert_eq!(epoch_seconds(Some(u64::MAX)), u64::MAX);
}

#[test]
fn failed_image_conversion_is_answered_with_400_or_500() {
    assert_eq!(image_failure(ImageStep::ReadUpload), ConversionError::BadInput);
    assert_eq!(image_failure(ImageStep::Convert), ConversionError::BadInput);
    assert_eq!(image_failure(ImageStep::WriteResult), ConversionError::Internal);
    assert_eq!(image_failure(ImageStep::ReadResult), ConversionError::Internal);
    assert_eq!(ConversionError::BadInput.http_status(), 400);
    assert_eq!(ConversionError::Internal.http_status(), 500);
}

#[test]
fn failed_book_conversion_is_answered_with_400_or_500() {
    assert_eq!(book_failure(BookStep::ReadUpload), ConversionError::BadInput);
    assert_eq!(book_failure(BookStep::StageUpload), ConversionError::Internal);
    assert_eq!(book_failure(BookStep::ResolveFont), ConversionError::BadInput);
    assert_eq!(book_failure(BookStep::Convert), ConversionError::Internal);
    assert_eq!(book_failure(BookStep::ReadResult), ConversionError::Internal);
    assert_eq!(book_failure(BookStep::ResolveFont).http_status(), 400);
    assert_eq!(book_failure(BookStep::Convert).http_status(), 500);
}
