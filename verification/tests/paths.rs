use commit_policy::path::{chars_of, has_suffix, path_segments, same_text};

fn text(s: &str) -> Vec<char> {
    s.chars().collect()
}

fn segments(path: &str) -> Vec<String> {
    path_segments(&chars_of(path)).iter().map(|s| s.iter().collect()).collect()
}

#[test]
fn chars_of_gives_each_character() {
    assert_eq!(chars_of(""), Vec::<char>::new());
    assert_eq!(chars_of("a/b"), vec!['a', '/', 'b']);
    assert_eq!(chars_of("é/ü"), vec!['é', '/', 'ü']);
}

#[test]
fn segments_of_plain_path() {
    assert_eq!(segments("a/b/vendor/x.go"), vec!["a", "b", "vendor", "x.go"]);
}

#[test]
fn segments_of_single_name() {
    assert_eq!(segments("README.md"), vec!["README.md"]);
}

#[test]
fn segments_of_empty_path_is_one_empty_segment() {
    assert_eq!(segments(""), vec![""]);
}

#[test]
fn segments_keep_empty_pieces() {
    assert_eq!(segments("/a"), vec!["", "a"]);
    assert_eq!(segments("a/"), vec!["a", ""]);
    assert_eq!(segments("a//b"), vec!["a", "", "b"]);
    assert_eq!(segments("/"), vec!["", ""]);
}

#[test]
fn segments_agree_with_split() {
    for path in ["", "/", "a", "a/b", "//", "x/y/z/", "/x/y", "naïve/ü/文件.json"] {
        let expected: Vec<String> = path.split('/').map(|s| s.to_string()).collect();
        assert_eq!(segments(path), expected);
    }
}

#[test]
fn suffix_is_found_at_the_end_only() {
    assert!(has_suffix(&text("config.json"), &text(".json")));
    assert!(has_suffix(&text(".json"), &text(".json")));
    assert!(!has_suffix(&text("json"), &text(".json")));
    assert!(!has_suffix(&text("config.json.bak"), &text(".json")));
    assert!(!has_suffix(&text("config.JSON"), &text(".json")));
    assert!(has_suffix(&text("anything"), &text("")));
    assert!(has_suffix(&text(""), &text("")));
    assert!(!has_suffix(&text(""), &text("a")));
}

#[test]
fn same_text_compares_every_character() {
    assert!(same_text(&text(""), &text("")));
    assert!(same_text(&text("vendor"), &text("vendor")));
    assert!(!same_text(&text("vendor"), &text("vendoR")));
    assert!(!same_text(&text("vendor"), &text("vendors")));
    assert!(!same_text(&text("vendors"), &text("vendor")));
}
