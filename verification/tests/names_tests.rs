use orcmate::names::{contains_str, filter_lines};

#[test]
fn test_contains_str_found() {
    assert!(contains_str("/r/.worktrees/fix-1", ".worktrees"));
    assert!(contains_str("abc", "abc"));
    assert!(contains_str("abc", "c"));
}

#[test]
fn test_contains_str_not_found() {
    assert!(!contains_str("/r/checkout", ".worktrees"));
    assert!(!contains_str("ab", "abc"));
    assert!(!contains_str("", "a"));
}

#[test]
fn test_contains_str_empty_pattern() {
    assert!(contains_str("abc", ""));
    assert!(contains_str("", ""));
}

#[test]
fn test_filter_lines_keeps_order() {
    let lines = vec![
        "/r/.worktrees/a".to_string(),
        "/r".to_string(),
        "/r/.worktrees/b".to_string(),
    ];
    let kept = filter_lines(&lines, ".worktrees");
    assert_eq!(
        kept,
        vec!["/r/.worktrees/a".to_string(), "/r/.worktrees/b".to_string()]
    );
}

#[test]
fn test_filter_lines_empty() {
    let lines: Vec<String> = vec![];
    assert!(filter_lines(&lines, ".worktrees").is_empty());
}
