use ralph::pathname::{components_of, same_path};
use ralph::pathname::{join_relative, path_file_name};
use ralph::text::{replace_str, split_newlines, str_lines, trimmed};

#[test]
fn file_name_of_paths() {
    assert_eq!(path_file_name("/path/to/file.rs"), Some("file.rs".to_string()));
    assert_eq!(path_file_name("dir/"), Some("dir".to_string()));
    assert_eq!(path_file_name("a/./"), Some("a".to_string()));
    assert_eq!(path_file_name("a/b/."), Some("b".to_string()));
    assert_eq!(path_file_name(""), None);
    assert_eq!(path_file_name("/"), None);
    assert_eq!(path_file_name("."), None);
    assert_eq!(path_file_name("a/.."), None);
    assert_eq!(path_file_name("x.tar.gz"), Some("x.tar.gz".to_string()));
}

#[test]
fn join_relative_paths() {
    assert_eq!(join_relative("/repo", "a/b"), "/repo/a/b");
    assert_eq!(join_relative("/repo/", "a"), "/repo/a");
    assert_eq!(join_relative("", "a"), "a");
}

#[test]
fn text_helpers() {
    assert_eq!(trimmed("  a b \n"), "a b");
    assert_eq!(trimmed("\u{3000}x\u{a0}"), "x");
    assert_eq!(split_newlines("a\nb\n"), vec!["a".to_string(), "b".to_string(), "".to_string()]);
    assert_eq!(str_lines("a\r\nb\n\nc\r"), vec!["a".to_string(), "b".to_string(), "".to_string(), "c\r".to_string()]);
    assert_eq!(str_lines(""), Vec::<String>::new());
    assert_eq!(replace_str("aaa", "aa", "b"), "ba");
    assert_eq!(replace_str("x.json y.json", ".json", ".jsonc"), "x.jsonc y.jsonc");
}

#[test]
fn path_components_follow_pathbuf_equality() {
    assert_eq!(components_of("/a//b.rs"), vec!["/", "a", "b.rs"]);
    assert_eq!(components_of("./a/./b/"), vec![".", "a", "b"]);
    assert!(components_of("").is_empty());
    for (a, b) in [("/a//b.rs", "/a/b.rs"), ("/a/./b.rs", "/a/b.rs"), ("a/b/", "a/b"), ("./a", "a"), ("/a", "a")] {
        assert_eq!(same_path(a, b), std::path::Path::new(a) == std::path::Path::new(b), "{a} vs {b}");
    }
}
