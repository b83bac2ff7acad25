use cryptfs_cli::Platform;
use cryptfs_cli::ops;
use cryptfs_cli::pathutil::{absolute_path, file_name, is_windows_drive_letter, join_path, strip_trailing_sep};
use cryptfs_cli::strutil::{str_is_blank, trim_end_str, trim_str};

#[test]
fn blank_detection() {
    assert!(str_is_blank(""));
    assert!(str_is_blank(" \t\r\n"));
    assert!(!str_is_blank(" x "));
}

#[test]
fn trim_removes_both_ends() {
    assert_eq!(trim_str("  hello world \n"), "hello world");
    assert_eq!(trim_str("no-trim"), "no-trim");
    assert_eq!(trim_str(" \t "), "");
    assert_eq!(trim_str(""), "");
}

#[test]
fn trim_end_keeps_leading_whitespace() {
    assert_eq!(trim_end_str("  pw\n"), "  pw");
    assert_eq!(trim_end_str("pw"), "pw");
    assert_eq!(trim_end_str("\n\n"), "");
}

#[test]
fn join_path_inserts_single_separator() {
    let p = Platform::Posix;
    assert_eq!(join_path("/a", "b", &p), "/a/b");
    assert_eq!(join_path("/a/", "b", &p), "/a/b");
    assert_eq!(join_path("", "b", &p), "b");
    let w = Platform::Windows;
    assert_eq!(join_path("C:\\a", "b", &w), "C:\\a\\b");
}

#[test]
fn absolute_path_resolves_relative_only() {
    let p = Platform::Posix;
    assert_eq!(absolute_path("/r1", "/home", &p), "/r1");
    assert_eq!(absolute_path("r1", "/home", &p), "/home/r1");
}

#[test]
fn drive_letter_tokens() {
    assert!(is_windows_drive_letter("E:"));
    assert!(is_windows_drive_letter("c:"));
    assert!(!is_windows_drive_letter("1:"));
    assert!(!is_windows_drive_letter("E"));
    assert!(!is_windows_drive_letter("E:\\"));
}

#[test]
fn strip_trailing_separators() {
    let w = Platform::Windows;
    assert_eq!(strip_trailing_sep("C:\\repos\\", &w), "C:\\repos");
    assert_eq!(strip_trailing_sep("C:\\repos", &w), "C:\\repos");
    assert_eq!(strip_trailing_sep("\\\\", &w), "");
}

#[test]
fn file_name_takes_last_component() {
    let p = Platform::Posix;
    assert_eq!(file_name("/repos/vault", &p), "vault");
    assert_eq!(file_name("vault", &p), "vault");
    assert_eq!(file_name("/repos/", &p), "");
}

#[test]
fn normalization_is_idempotent_on_examples() {
    let p = Platform::Posix;
    let once = ops::normalize_mount_point("m1", "/home/user", &p);
    let twice = ops::normalize_mount_point(&once, "/home/user", &p);
    assert_eq!(once, twice);

    let w = Platform::Windows;
    let once_w = ops::normalize_mount_point("m1", "C:\\work", &w);
    let twice_w = ops::normalize_mount_point(&once_w, "C:\\work", &w);
    assert_eq!(once_w, twice_w);
}
