use zellij_worktree::text::{decimal_text, shell_quoted, has_prefix, last_path_piece, same_text, strip_prefix_text};

#[test]
fn decimal_text_writes_integers() {
    assert_eq!(decimal_text(0), "0");
    assert_eq!(decimal_text(7), "7");
    assert_eq!(decimal_text(128), "128");
    assert_eq!(decimal_text(-42), "-42");
    assert_eq!(decimal_text(i32::MIN as i64), "-2147483648");
    assert_eq!(decimal_text(u32::MAX as i64), "4294967295");
    assert_eq!(decimal_text(i64::MIN), "-9223372036854775808");
    assert_eq!(decimal_text(i64::MAX), "9223372036854775807");
}

#[test]
fn last_path_piece_is_after_the_last_slash() {
    assert_eq!(last_path_piece("/a/b/c"), "c");
    assert_eq!(last_path_piece("plain"), "plain");
    assert_eq!(last_path_piece("/a/b/"), "");
    assert_eq!(last_path_piece(""), "");
    assert_eq!(last_path_piece("/ü/ñé"), "ñé");
}

#[test]
fn prefixes_and_equality() {
    assert!(has_prefix("worktree /x", "worktree "));
    assert!(!has_prefix("work", "worktree "));
    assert!(has_prefix("anything", ""));
    assert_eq!(strip_prefix_text("branch refs/heads/é", "branch "), Some("refs/heads/é"));
    assert_eq!(strip_prefix_text("detached", "branch "), None);
    assert!(same_text("rev-parse", "rev-parse"));
    assert!(!same_text("rev-parse", "rev-pars"));
    assert!(!same_text("abc", "abd"));
}

#[test]
fn shell_quoting() {
    assert_eq!(shell_quoted(""), "''");
    assert_eq!(shell_quoted("/a b"), "'/a b'");
    assert_eq!(shell_quoted("it's"), "'it'\\''s'");
    assert_eq!(shell_quoted("$HOME"), "'$HOME'");
}
