use git_auto_pull::text::{
    count_nonblank_lines, decimal_string, eq_ignore_ascii_case, is_blank, join_nonblank,
    join_strings, trim_str,
};

#[test]
fn trims_unicode_whitespace() {
    assert_eq!(trim_str("\u{3000} a b \t\n"), "a b");
    assert_eq!(trim_str("   "), "");
    assert!(is_blank(" \u{a0}\r\n"));
    assert!(!is_blank(" x "));
}

#[test]
fn compares_ignoring_ascii_case_only() {
    assert!(eq_ignore_ascii_case("Avatars.GitHubUserContent.com", "avatars.githubusercontent.com"));
    assert!(!eq_ignore_ascii_case("Ä", "ä"));
    assert!(!eq_ignore_ascii_case("ab", "abc"));
}

#[test]
fn writes_decimals() {
    assert_eq!(decimal_string(0), "0");
    assert_eq!(decimal_string(7), "7");
    assert_eq!(decimal_string(1024), "1024");
    assert_eq!(decimal_string(usize::MAX), usize::MAX.to_string());
}

#[test]
fn counts_and_joins_lines() {
    assert_eq!(count_nonblank_lines(" M a\n\n?? b\r\n  \n"), 2);
    assert_eq!(count_nonblank_lines(""), 0);
    let parts = vec!["a".to_string(), " ".to_string(), "b".to_string(), String::new()];
    assert_eq!(join_nonblank(&parts), "a\nb");
    assert_eq!(join_strings(&vec!["x".to_string(), "y".to_string()], "、"), "x、y");
    assert_eq!(join_strings(&Vec::new(), "、"), "");
}
