use ftb2pack::install::{
    descriptor_url, override_fetch, server_file_name, server_url, summarize, work_dir_name,
    FetchOutcome, Platform,
};
use ftb2pack::pack::File;
use ftb2pack::text::{decimal, digits, is_blank};

fn entry(path: &str, name: &str, url: Option<&str>) -> File {
    File {
        version: "1".to_string(),
        path: path.to_string(),
        url: url.map(|u| u.to_string()),
        mirrors: Some(vec!["https://mirror.example.com/x".to_string()]),
        sha1: "0123".to_string(),
        size: 3,
        tags: vec![],
        clientonly: false,
        serveronly: false,
        optional: false,
        id: 7,
        name: name.to_string(),
        kind: "config".to_string(),
        updated: 0,
        curseforge: None,
    }
}

#[test]
fn fetch_without_url_is_skipped() {
    assert!(override_fetch(&entry("config", "a.toml", None)).is_none());
}

#[test]
fn fetch_with_empty_url_is_skipped() {
    assert!(override_fetch(&entry("config", "a.toml", Some(""))).is_none());
}

#[test]
fn fetch_with_blank_url_is_skipped() {
    assert!(override_fetch(&entry("config", "a.toml", Some(" \t\n\u{3000}"))).is_none());
}

#[test]
fn fetch_keeps_path_name_and_url() {
    let f = override_fetch(&entry("config/sub", "a.toml", Some("https://example.com/a.toml"))).unwrap();
    assert_eq!(f.path, "config/sub");
    assert_eq!(f.name, "a.toml");
    assert_eq!(f.url, "https://example.com/a.toml");
}

#[test]
fn distinct_entries_distinct_targets() {
    let a = override_fetch(&entry("config", "a.toml", Some("https://example.com/a"))).unwrap();
    let b = override_fetch(&entry("config", "b.toml", Some("https://example.com/b"))).unwrap();
    assert!(a.path != b.path || a.name != b.name);
}

#[test]
fn one_failed_fetch_of_three() {
    let r = summarize(&vec![FetchOutcome::Written, FetchOutcome::Failed, FetchOutcome::Written]);
    assert_eq!((r.written, r.failed, r.skipped), (2, 1, 0));
}

#[test]
fn three_files_one_override() {
    let outcomes = vec![FetchOutcome::Skipped, FetchOutcome::Skipped, FetchOutcome::Written];
    let r = summarize(&outcomes);
    assert_eq!((r.written, r.failed, r.skipped), (1, 0, 2));
}

#[test]
fn empty_install_report() {
    let r = summarize(&vec![]);
    assert_eq!((r.written, r.failed, r.skipped), (0, 0, 0));
}

#[test]
fn blank_text() {
    assert!(is_blank(""));
    assert!(is_blank("  \r\n"));
    assert!(!is_blank(" a "));
    assert!(!is_blank("https://example.com"));
}

#[test]
fn decimal_rendering() {
    assert_eq!(decimal(0), "0");
    assert_eq!(decimal(7), "7");
    assert_eq!(decimal(1234), "1234");
    assert_eq!(decimal(-42), "-42");
    assert_eq!(decimal(i64::MAX), "9223372036854775807");
    assert_eq!(decimal(i64::MIN), "-9223372036854775808");
    assert_eq!(digits(u64::MAX), "18446744073709551615");
    assert_eq!(digits(100), "100");
}

#[test]
fn descriptor_location() {
    assert_eq!(descriptor_url(101, 2200), "https://api.modpacks.ch/public/modpack/101/2200");
}

#[test]
fn server_locations_per_platform() {
    let base = "https://api.modpacks.ch/public/modpack/5/77/server/";
    assert_eq!(server_url(5, 77, Platform::Windows), format!("{base}windows"));
    assert_eq!(server_url(5, 77, Platform::Linux), format!("{base}linux"));
    assert_eq!(server_url(5, 77, Platform::Mac), format!("{base}mac"));
    assert_eq!(server_url(5, 77, Platform::Other), format!("{base}freebsd"));
}

#[test]
fn server_file_names() {
    assert_eq!(server_file_name(5, 77, Platform::Windows), "serverinstall_5_77.exe");
    assert_eq!(server_file_name(5, 77, Platform::Linux), "serverinstall_5_77");
    assert_eq!(server_file_name(5, 77, Platform::Mac), "serverinstall_5_77");
    assert_eq!(server_file_name(5, 77, Platform::Other), "serverinstall_5_77");
}

#[test]
fn package_directory_name() {
    assert_eq!(work_dir_name("FTB Skies", "1.2.0"), "FTB Skies 1.2.0");
}
