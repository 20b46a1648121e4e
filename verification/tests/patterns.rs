use dionysius::exclude::{
    borg_pattern_from_string, borg_to_gitignore, gitignore_pattern_from_string, gitignore_to_borg,
    replace_possibly_escaped, BorgPattern, GitIgnorePattern,
};

#[test]
fn test_replace_possibly_escaped() {
    let result = replace_possibly_escaped("a*\\*cc*dd".to_string(), "*", "??");
    assert_eq!(result, "a??\\*cc??dd");
}

#[test]
fn test_gitignore_to_borgpattern() {
    let git_pattern = GitIgnorePattern { pattern: "test".to_string() };
    let borg_pattern: BorgPattern = gitignore_to_borg(&git_pattern).unwrap();
    assert_eq!(borg_pattern, BorgPattern::Shell("**/test".to_string()));
}

#[test]
fn test_borgpattern_to_gitignore() {
    let borg_pattern = BorgPattern::Shell("test".to_string());
    let git_pattern: GitIgnorePattern = borg_to_gitignore(&borg_pattern).unwrap();
    assert_eq!(git_pattern.pattern, "/test");
}

#[test]
fn test_gitignore_with_negation() {
    let git_pattern = GitIgnorePattern { pattern: "!test".to_string() };
    let result = gitignore_to_borg(&git_pattern);
    assert!(result.is_err());
}

#[test]
fn test_gitignore_with_trailing_slash() {
    let git_pattern = GitIgnorePattern { pattern: "dir/".to_string() };
    let borg_pattern: BorgPattern = gitignore_to_borg(&git_pattern).unwrap();
    assert_eq!(borg_pattern, BorgPattern::Shell("dir/".to_string()));
}

#[test]
fn test_borgpattern_to_gitignore_with_trailing_slash() {
    let borg_pattern = BorgPattern::PathPrefix("dir/".to_string());
    let git_pattern: GitIgnorePattern = borg_to_gitignore(&borg_pattern).unwrap();
    assert_eq!(git_pattern.pattern, "/dir/");
}

#[test]
fn test_gitignore_with_leading_slash() {
    let git_pattern = GitIgnorePattern { pattern: "/dir/file".to_string() };
    let borg_pattern: BorgPattern = gitignore_to_borg(&git_pattern).unwrap();
    assert_eq!(borg_pattern, BorgPattern::Shell("dir/file".to_string()));
}

#[test]
fn test_borgpattern_to_gitignore_with_leading_slash() {
    let borg_pattern = BorgPattern::PathFullMatch("dir/file".to_string());
    let git_pattern: GitIgnorePattern = borg_to_gitignore(&borg_pattern).unwrap();
    assert_eq!(git_pattern.pattern, "/dir/file");
}

#[test]
fn test_borg_pattern_parse_and_render() {
    let p = borg_pattern_from_string(&"sh:node_modules".to_string()).unwrap();
    assert_eq!(p, BorgPattern::Shell("node_modules".to_string()));
    assert_eq!(p.to_string(), "sh:node_modules");
    let q = borg_pattern_from_string(&"pf:a/b".to_string()).unwrap();
    assert_eq!(q, BorgPattern::PathFullMatch("a/b".to_string()));
    assert_eq!(q.to_string(), "pf:a/b");
    let r = borg_pattern_from_string(&"re:.*\\.log".to_string()).unwrap();
    assert_eq!(r.to_string(), "re:.*\\.log");
    let bad = borg_pattern_from_string(&"node_modules".to_string());
    assert_eq!(bad.unwrap_err(), "Currently you must specify pattern type.");
}

#[test]
fn test_gitignore_pattern_from_prefixed_string() {
    let g = gitignore_pattern_from_string(&"pp:dir".to_string()).unwrap();
    assert_eq!(g.pattern, "/dir/");
    let raw = gitignore_pattern_from_string(&"build/".to_string()).unwrap();
    assert_eq!(raw.pattern, "build/");
    let err = gitignore_pattern_from_string(&"fm:x".to_string());
    assert_eq!(err.unwrap_err(), "Cannot convert fnmatch pattern to gitignore pattern");
}

#[test]
fn test_fnmatch_and_regex_not_convertible() {
    assert!(borg_to_gitignore(&BorgPattern::FnMatch("x".to_string())).is_err());
    assert!(borg_to_gitignore(&BorgPattern::Regex("x".to_string())).is_err());
}

#[test]
fn test_replace_possibly_escaped_trailing_backslash() {
    let result = replace_possibly_escaped("ab\\".to_string(), "b", "_");
    assert_eq!(result, "a_\\");
    let double = replace_possibly_escaped("a\\\\*b*".to_string(), "*", "X");
    assert_eq!(double, "a\\\\XbX");
}

#[test]
fn test_round_trip_normalization() {
    // shell: unchanged but for one leading slash
    let p = BorgPattern::Shell("a/b".to_string());
    let g = borg_to_gitignore(&p).unwrap();
    assert_eq!(gitignore_to_borg(&g).unwrap(), BorgPattern::Shell("a/b".to_string()));
    let p = BorgPattern::Shell("/a/b".to_string());
    let g = borg_to_gitignore(&p).unwrap();
    assert_eq!(gitignore_to_borg(&g).unwrap(), BorgPattern::Shell("a/b".to_string()));
    // path-full-match: comes back as a shell pattern with the same payload
    let p = BorgPattern::PathFullMatch("x/y".to_string());
    let g = borg_to_gitignore(&p).unwrap();
    assert_eq!(gitignore_to_borg(&g).unwrap(), BorgPattern::Shell("x/y".to_string()));
    // path-prefix: comes back as a shell pattern with a trailing slash
    let p = BorgPattern::PathPrefix("d".to_string());
    let g = borg_to_gitignore(&p).unwrap();
    assert_eq!(gitignore_to_borg(&g).unwrap(), BorgPattern::Shell("d/".to_string()));
}

#[test]
fn test_replace_possibly_escaped_multichar() {
    let result = replace_possibly_escaped("abcabd".to_string(), "ab", "x");
    assert_eq!(result, "xcxd");
    let partial = replace_possibly_escaped("aab".to_string(), "ab", "x");
    assert_eq!(partial, "ax");
}
