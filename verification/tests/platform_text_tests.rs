use gpui_elements::platform_text::{
    apply_perf_attributes, line_endings, path, perf_argument, replace_str, str_eq, uri, PerfArgument,
};

#[test]
fn path_examples() {
    assert_eq!(path("/Users/user/file.txt", false), "/Users/user/file.txt");
    assert_eq!(path("/Users/user/file.txt", true), "C:\\Users\\user\\file.txt");
    assert_eq!(path("relative/dir", true), "relative\\dir");
    assert_eq!(path("", true), "");
    let once = path("/a/b", true);
    assert_eq!(path(&once, true), once);
}

#[test]
fn uri_examples() {
    assert_eq!(uri("file:///path/to/file", false), "file:///path/to/file");
    assert_eq!(uri("file:///path/to/file", true), "file:///C:/path/to/file");
    assert_eq!(uri("http://example.com", true), "http://example.com");
}

#[test]
fn line_ending_examples() {
    assert_eq!(line_endings("Hello\nWorld", false), "Hello\nWorld");
    assert_eq!(line_endings("Hello\nWorld", true), "Hello\r\nWorld");
    assert_eq!(line_endings("\n\n", true), "\r\n\r\n");
}

#[test]
fn replace_str_is_left_to_right_and_non_overlapping() {
    assert_eq!(replace_str("aaaa", "aa", "b"), "bb");
    assert_eq!(replace_str("aaa", "aa", "b"), "ba");
    assert_eq!(replace_str("héllo wörld", "ö", "o"), "héllo world");
}

#[test]
fn str_eq_compares_characters() {
    assert!(str_eq("fluff", "fluff"));
    assert!(!str_eq("fluff", "flufF"));
    assert!(!str_eq("flu", "fluff"));
}

#[test]
fn perf_arguments() {
    assert_eq!(perf_argument("iterations"), PerfArgument::Valued);
    assert_eq!(perf_argument("weight"), PerfArgument::Valued);
    for level in ["critical", "important", "average", "iffy", "fluff"] {
        assert_eq!(perf_argument(level), PerfArgument::Level);
    }
    assert_eq!(perf_argument("sometimes"), PerfArgument::Unexpected);
}

#[test]
fn perf_attributes() {
    assert_eq!(apply_perf_attributes(vec![], &vec![], "test", "allow"), vec!["test", "allow"]);
    assert_eq!(
        apply_perf_attributes(vec!["inline", "tokio::test"], &vec!["inline".to_string(), "test".to_string()], "test", "allow"),
        vec!["inline", "tokio::test", "allow"]
    );
    assert_eq!(
        apply_perf_attributes(vec!["ignore"], &vec!["ignore".to_string()], "test", "allow"),
        vec!["ignore", "test", "allow"]
    );
}
