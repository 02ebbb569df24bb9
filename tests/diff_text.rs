use atomc_core::diff_text::{diff_files, listed_files, normalize_diff_path, untracked_files};
use atomc_core::git::{join_text, trimmed};
use atomc_core::text::split_text;

#[test]
fn header_paths_prefer_the_post_image() {
    let diff = "diff --git a/old.txt b/new.txt\nsimilarity index 90%\ndiff --git a/src/lib.rs b/src/lib.rs\r\n+diff --git a/not/a/header b/x\n";
    assert_eq!(diff_files(diff), vec!["new.txt".to_string(), "src/lib.rs".to_string()]);
}

#[test]
fn null_device_and_empty_paths_are_skipped() {
    assert_eq!(diff_files("diff --git a//dev/null b//dev/null\n"), Vec::<String>::new());
    assert_eq!(diff_files("diff --git \n"), Vec::<String>::new());
    assert_eq!(diff_files(""), Vec::<String>::new());
}

#[test]
fn normalize_diff_path_cases() {
    assert_eq!(normalize_diff_path(Some("a/x.rs"), Some("b/y.rs")), Some("y.rs".to_string()));
    assert_eq!(normalize_diff_path(Some("a/x.rs"), None), Some("x.rs".to_string()));
    assert_eq!(normalize_diff_path(None, Some("plain")), Some("plain".to_string()));
    assert_eq!(normalize_diff_path(None, Some("b//dev/null")), None);
    assert_eq!(normalize_diff_path(None, Some("b/")), None);
    assert_eq!(normalize_diff_path(None, None), None);
}

#[test]
fn staged_listing_drops_empty_entries() {
    assert_eq!(listed_files("a.txt\0b c.txt\0"), vec!["a.txt".to_string(), "b c.txt".to_string()]);
    assert_eq!(listed_files(""), Vec::<String>::new());
}

#[test]
fn status_scan_keeps_untracked_in_scan_order() {
    let status = " M tracked.txt\0?? z.txt\0A  staged.txt\0?? a dir/b.txt\0";
    assert_eq!(untracked_files(status), vec!["z.txt".to_string(), "a dir/b.txt".to_string()]);
}

#[test]
fn split_and_join_round_trip() {
    let pieces = split_text("a\n\nb\n", '\n');
    assert_eq!(pieces, vec!["a", "", "b", ""]);
    assert_eq!(join_text(&pieces, "\n"), "a\n\nb\n");
    assert_eq!(split_text("", '\0'), vec![""]);
}

#[test]
fn trimming_removes_surrounding_whitespace() {
    assert_eq!(trimmed("  0123abcd\n"), "0123abcd");
    assert_eq!(trimmed("\t \n"), "");
}
