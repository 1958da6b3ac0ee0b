use libgit::ignore::{ignore_rules, lines_of};

#[test]
fn rules_start_with_the_ignore_file() {
    assert_eq!(ignore_rules(&None), vec![".fignore".to_string()]);
}

#[test]
fn rules_take_each_non_empty_line() {
    let file = Some("foo\nbar\n".to_string());
    assert_eq!(ignore_rules(&file), vec![".fignore", "foo", "bar"]);
    let file = Some("\n\na\r\n\r\nb".to_string());
    assert_eq!(ignore_rules(&file), vec![".fignore", "a", "b"]);
}

#[test]
fn lines_of_edge_cases() {
    assert!(lines_of("").is_empty());
    assert!(lines_of("\n\n").is_empty());
    assert_eq!(lines_of("x"), vec!["x"]);
    assert_eq!(lines_of("*.log\r\ntarget/\n"), vec!["*.log", "target/"]);
}
