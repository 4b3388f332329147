use git_branch::head::parse_git_head;
use git_branch::head::trimmed_part;
use git_branch::head::has_prefix;

#[test]
fn test_parse_git_head_branch() {
    assert_eq!(
        parse_git_head("ref: refs/heads/main"),
        Some("main".to_string())
    );
    assert_eq!(
        parse_git_head("ref: refs/heads/feature/new-feature"),
        Some("feature/new-feature".to_string())
    );
}

#[test]
fn test_parse_git_head_detached() {
    assert_eq!(
        parse_git_head("abc1234567890abcdef"),
        Some("abc1234...".to_string())
    );
}

#[test]
fn test_parse_git_head_with_newline() {
    assert_eq!(
        parse_git_head("ref: refs/heads/main\n"),
        Some("main".to_string())
    );
}

#[test]
fn test_parse_git_head_remote() {
    assert_eq!(
        parse_git_head("ref: refs/remotes/origin/main"),
        Some("origin/main".to_string())
    );
}

#[test]
fn test_parse_git_head_other_ref_namespace() {
    assert_eq!(
        parse_git_head("ref: refs/tags/v1.0"),
        Some("refs/tags/v1.0".to_string())
    );
}

#[test]
fn test_parse_git_head_invalid() {
    assert_eq!(parse_git_head("not-a-valid-ref"), None);
}

#[test]
fn test_parse_git_head_short_hash_rejected() {
    assert_eq!(parse_git_head("abc123"), None);
}

#[test]
fn test_parse_git_head_exactly_seven_hex() {
    assert_eq!(parse_git_head("abcdef0"), Some("abcdef0...".to_string()));
}

#[test]
fn test_parse_git_head_uppercase_hex() {
    assert_eq!(
        parse_git_head("ABC1234DEF5678"),
        Some("ABC1234...".to_string())
    );
}

#[test]
fn test_parse_git_head_hash_with_trailing_newline() {
    assert_eq!(
        parse_git_head("abc1234567890abcdef\n"),
        Some("abc1234...".to_string())
    );
}

#[test]
fn test_parse_git_head_non_hex_rejected() {
    assert_eq!(parse_git_head("abc1234567890xyz"), None);
}

#[test]
fn test_parse_git_head_empty() {
    assert_eq!(parse_git_head(""), None);
    assert_eq!(parse_git_head("   \n"), None);
}

#[test]
fn test_parse_git_head_bare_ref_prefix() {
    // Trimming eats the trailing space, so no `ref: ` prefix remains.
    assert_eq!(parse_git_head("ref: "), None);
}

#[test]
fn test_parse_git_head_idempotent() {
    let contents = "ref: refs/heads/main\n";
    assert_eq!(parse_git_head(contents), parse_git_head(contents));
    let detached = "abc1234567890abcdef";
    assert_eq!(parse_git_head(detached), parse_git_head(detached));
}

#[test]
fn test_trimmed_part() {
    assert_eq!(trimmed_part("  main \n"), "main");
    assert_eq!(trimmed_part("main"), "main");
    assert_eq!(trimmed_part(" \t\n"), "");
    assert_eq!(trimmed_part(""), "");
}

#[test]
fn test_has_prefix() {
    assert!(has_prefix("refs/heads/main", "refs/heads/"));
    assert!(!has_prefix("refs/tags/v1.0", "refs/heads/"));
    assert!(!has_prefix("ref", "ref: "));
    assert!(has_prefix("anything", ""));
}
