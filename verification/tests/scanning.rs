use tern_site::release::{
    firmware_tag_of, is_firmware_file_name, is_fresh, select_app_asset, CachedRelease,
    GithubAsset, GithubRelease,
};
use tern_site::scan::{discover_local_firmware, FileMeta, LocalFirmware, ScannedEntry};

fn named(name: &str, size: u64, modified_at: i128) -> ScannedEntry {
    ScannedEntry {
        file_name: name.to_string(),
        file_path: format!("/cache/{}", name),
        meta: Some(FileMeta { size, modified_at }),
    }
}

fn without_meta(name: &str) -> ScannedEntry {
    ScannedEntry { file_name: name.to_string(), file_path: format!("/cache/{}", name), meta: None }
}

fn local(tag: &str, name: &str, size: u64, modified_at: i128) -> LocalFirmware {
    LocalFirmware {
        tag: tag.to_string(),
        asset_name: name.to_string(),
        size,
        file_path: format!("/cache/{}", name),
        modified_at,
    }
}

fn release_of(names: &[&str]) -> GithubRelease {
    GithubRelease {
        tag_name: "v1".to_string(),
        assets: names
            .iter()
            .enumerate()
            .map(|(i, name)| GithubAsset {
                name: name.to_string(),
                browser_download_url: format!("https://host/{}", i),
                size: i as u64,
            })
            .collect(),
    }
}

#[test]
fn firmware_names_have_the_prefix_and_the_suffix() {
    assert!(is_firmware_file_name("tern-fw-v1.2.0.bin"));
    assert!(is_firmware_file_name("tern-fw-.bin"));
    assert!(is_firmware_file_name("tern-fw-a/b.bin"));
    assert!(!is_firmware_file_name("tern-fw-v1.2.0.bin2"));
    assert!(!is_firmware_file_name("xtern-fw-v1.2.0.bin"));
    assert!(!is_firmware_file_name("tern-fw.bin"));
    assert!(!is_firmware_file_name("tern-fw-"));
    assert!(!is_firmware_file_name(".bin"));
    assert!(!is_firmware_file_name(""));
    assert!(!is_firmware_file_name("TERN-FW-v1.bin"));
    assert!(!is_firmware_file_name("tern-fw-v1.BIN"));
    assert!(!is_firmware_file_name("latest_release.json"));
}

#[test]
fn tag_is_the_name_without_prefix_and_suffix() {
    assert_eq!(firmware_tag_of("tern-fw-v1.2.0.bin"), "v1.2.0");
    assert_eq!(firmware_tag_of("tern-fw-v1.3.0-rc.bin"), "v1.3.0-rc");
    assert_eq!(firmware_tag_of("tern-fw-.bin"), "");
    assert_eq!(firmware_tag_of("tern-fw-été.bin"), "été");
}

#[test]
fn tag_loses_the_prefix_and_the_suffix_once() {
    assert_eq!(firmware_tag_of("tern-fw-v2.bin.bin"), "v2.bin");
    assert_eq!(firmware_tag_of("tern-fw-tern-fw-v1.bin"), "tern-fw-v1");
    assert_eq!(firmware_tag_of("tern-fw-tern-fw-.bin.bin"), "tern-fw-.bin");
    assert_eq!(firmware_tag_of("tern-fw-a-tern-fw-b.bin"), "a-tern-fw-b");
    assert_eq!(firmware_tag_of("tern-fw-a.bin.b.bin"), "a.bin.b");
}

#[test]
fn name_that_is_no_firmware_name_has_no_tag_in_it() {
    assert_eq!(firmware_tag_of("notes.txt"), "notes.txt");
    assert_eq!(firmware_tag_of("tern-fw-v1"), "tern-fw-v1");
    assert_eq!(firmware_tag_of("v1.bin"), "v1.bin");
    assert_eq!(firmware_tag_of("tern-fw.bin"), "tern-fw.bin");
    assert_eq!(firmware_tag_of(""), "");
}

#[test]
fn override_with_a_doubled_suffix_keeps_one_in_its_tag() {
    let listing = vec![named("tern-fw-v2.bin.bin", 5, 100)];
    assert_eq!(
        discover_local_firmware(&listing),
        Some(local("v2.bin", "tern-fw-v2.bin.bin", 5, 100))
    );
}

#[test]
fn listing_without_candidates_has_no_override() {
    assert_eq!(discover_local_firmware(&vec![]), None);
    let listing = vec![named("latest_release.json", 1, 5), named("app_firmware.json", 2, 6)];
    assert_eq!(discover_local_firmware(&listing), None);
}

#[test]
fn latest_modified_candidate_is_the_override() {
    let listing = vec![
        named("tern-fw-a.bin", 10, 100),
        named("notes.txt", 11, 999),
        named("tern-fw-b.bin", 12, 300),
        named("tern-fw-c.bin", 13, 200),
    ];
    assert_eq!(discover_local_firmware(&listing), Some(local("b", "tern-fw-b.bin", 12, 300)));
}

#[test]
fn first_listed_of_equally_recent_candidates_is_the_override() {
    let listing = vec![
        named("tern-fw-a.bin", 10, 100),
        named("tern-fw-b.bin", 12, 300),
        named("tern-fw-c.bin", 13, 300),
    ];
    assert_eq!(discover_local_firmware(&listing), Some(local("b", "tern-fw-b.bin", 12, 300)));
}

#[test]
fn candidate_modified_before_the_epoch_can_be_the_override() {
    let listing = vec![named("tern-fw-old.bin", 1, -5), named("tern-fw-older.bin", 2, -9)];
    assert_eq!(discover_local_firmware(&listing), Some(local("old", "tern-fw-old.bin", 1, -5)));
}

#[test]
fn candidate_without_metadata_leaves_no_override() {
    let listing = vec![named("tern-fw-a.bin", 10, 100), without_meta("tern-fw-b.bin")];
    assert_eq!(discover_local_firmware(&listing), None);
    let listing = vec![without_meta("tern-fw-b.bin"), named("tern-fw-a.bin", 10, 100)];
    assert_eq!(discover_local_firmware(&listing), None);
}

#[test]
fn other_file_without_metadata_is_passed_over() {
    let listing = vec![without_meta("lost+found"), named("tern-fw-a.bin", 10, 100)];
    assert_eq!(discover_local_firmware(&listing), Some(local("a", "tern-fw-a.bin", 10, 100)));
}

#[test]
fn first_asset_named_like_firmware_is_selected() {
    let release = release_of(&["notes.md", "tern-fw-v1.bin", "tern-fw-v1-merged.bin"]);
    let selected = select_app_asset(&release).expect("an asset");
    assert_eq!(selected, release.assets[1]);
    assert_eq!(selected.browser_download_url, "https://host/1");
}

#[test]
fn no_asset_is_selected_where_none_is_named_like_firmware() {
    assert_eq!(select_app_asset(&release_of(&[])), None);
    assert_eq!(select_app_asset(&release_of(&["notes.md", "tern-fw-v1.zip", "fw.bin"])), None);
}

#[test]
fn freshness_ends_at_600_seconds() {
    let cached = CachedRelease { tag_name: "v1".to_string(), assets: vec![], fetched_at: 1_000 };
    assert!(is_fresh(&cached, 1_000));
    assert!(is_fresh(&cached, 1_599));
    assert!(!is_fresh(&cached, 1_600));
    assert!(!is_fresh(&cached, u64::MAX));
    assert!(is_fresh(&cached, 0));
    let late = CachedRelease { tag_name: "v1".to_string(), assets: vec![], fetched_at: u64::MAX };
    assert!(is_fresh(&late, u64::MAX));
    assert!(is_fresh(&late, 0));
}
