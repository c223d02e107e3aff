use superide::text::strip_path_prefix;

fn strip(path: &str, root: &str) -> Option<String> {
    let p: Vec<char> = path.chars().collect();
    let r: Vec<char> = root.chars().collect();
    strip_path_prefix(&p, &r)
}

#[test]
fn strips_whole_components() {
    assert_eq!(strip("/w/a.rs", "/w"), Some("a.rs".to_string()));
    assert_eq!(strip("/w//a.rs", "/w"), Some("a.rs".to_string()));
    assert_eq!(strip("/w/a.rs", "/w/"), Some("a.rs".to_string()));
    assert_eq!(strip("/w/./src//a.rs", "/w"), Some("src//a.rs".to_string()));
    assert_eq!(strip("/w/x/y", "/w//x"), Some("y".to_string()));
    assert_eq!(strip("/w", "/w"), Some(String::new()));
    assert_eq!(strip("/w/a/", "/w"), Some("a".to_string()));
    assert_eq!(strip("a/b/.", "a"), Some("b".to_string()));
}

#[test]
fn refuses_partial_components() {
    assert_eq!(strip("/wx/a", "/w"), None);
    assert_eq!(strip("w/a", "/w"), None);
    assert_eq!(strip("/w/a", "w"), None);
    assert_eq!(strip("/w", "/w/a"), None);
}

#[test]
fn current_dir_and_empty_roots() {
    assert_eq!(strip("./a/b", "."), Some("a/b".to_string()));
    assert_eq!(strip("a/b", "./a"), None);
    assert_eq!(strip("./a/b", "./a"), Some("b".to_string()));
    assert_eq!(strip("/", ""), Some("/".to_string()));
    assert_eq!(strip("./", ""), Some(".".to_string()));
    assert_eq!(strip("a//", ""), Some("a".to_string()));
}
