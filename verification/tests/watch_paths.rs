use ralph::watch::paths::{matches_pattern, relevant_paths, should_process_file};
use tempfile::TempDir;

#[test]
fn matches_pattern_basic() {
    assert!(matches_pattern("test.rs", "*.rs"));
    assert!(matches_pattern("test.rs", "test.*"));
    assert!(!matches_pattern("test.py", "*.rs"));
}

#[test]
fn matches_pattern_question() {
    assert!(matches_pattern("test.rs", "t??t.rs"));
    assert!(!matches_pattern("test.rs", "t?t.rs"));
}

#[test]
fn matches_pattern_regex_metacharacters() {
    assert!(matches_pattern("test.r", "*.[rs]"));
    assert!(matches_pattern("test.s", "*.[rs]"));
    assert!(!matches_pattern("test.rs", "*.[rs]"));
    assert!(!matches_pattern("test.py", "*.[rs]"));

    assert!(matches_pattern("file+1.txt", "file+*.txt"));
    assert!(matches_pattern("file+123.txt", "file+*.txt"));

    assert!(matches_pattern("test(1).rs", "test(*).rs"));
    assert!(matches_pattern("test(backup).rs", "test(*).rs"));

    assert!(matches_pattern("test.$$$", "test.*"));
    assert!(matches_pattern("file.$$$.txt", "file.*.txt"));

    assert!(matches_pattern("file^name.txt", "file^name.txt"));
    assert!(matches_pattern("file^name.txt", "file*.txt"));
}

#[test]
fn matches_pattern_character_classes() {
    assert!(matches_pattern("file1.txt", "file[0-9].txt"));
    assert!(matches_pattern("file5.txt", "file[0-9].txt"));
    assert!(matches_pattern("file9.txt", "file[0-9].txt"));
    assert!(!matches_pattern("filea.txt", "file[0-9].txt"));

    assert!(matches_pattern("test_a.rs", "test_[a-z].rs"));
    assert!(matches_pattern("test_z.rs", "test_[a-z].rs"));
    assert!(!matches_pattern("test_1.rs", "test_[a-z].rs"));
}

#[test]
fn matches_pattern_edge_cases() {
    assert!(matches_pattern("", ""));
    assert!(!matches_pattern("test.rs", ""));

    assert!(!matches_pattern("test.rs", "*.[rs"));

    assert!(matches_pattern("anything", "*"));
    assert!(matches_pattern("a", "?"));
    assert!(!matches_pattern("ab", "?"));
}

#[test]
fn should_process_file_skips_directories() {
    let temp_dir = TempDir::new().unwrap();
    let dir_path = temp_dir.path();
    let path_text = dir_path.to_string_lossy().to_string();

    assert!(!should_process_file(
        &path_text,
        dir_path.is_dir(),
        &["*".to_string()],
        &[]
    ));
}

#[test]
fn should_process_file_requires_pattern_match() {
    let path = "file.txt";
    assert!(!should_process_file(path, false, &["*.rs".to_string()], &[]));
    assert!(should_process_file(path, false, &["*.txt".to_string()], &[]));
}

#[test]
fn should_process_file_ignores_take_precedence() {
    let path = "test.rs";
    assert!(should_process_file(path, false, &["*.rs".to_string()], &[]));
    assert!(!should_process_file(
        path,
        false,
        &["*.rs".to_string()],
        &["test.*".to_string()]
    ));
}

#[test]
fn should_process_file_skips_target_dir() {
    let path = "/project/target/debug/main.rs";
    assert!(!should_process_file(path, false, &["*.rs".to_string()], &[]));
}

#[test]
fn should_process_file_skips_node_modules() {
    let path = "/project/node_modules/package/index.js";
    assert!(!should_process_file(path, false, &["*.js".to_string()], &[]));
}

#[test]
fn should_process_file_skips_git_dir() {
    let path = "/project/.git/hooks/pre-commit";
    assert!(!should_process_file(path, false, &["*".to_string()], &[]));
}

#[test]
fn should_process_file_skips_vendor_dir() {
    let path = "/project/vendor/lib/helper.rb";
    assert!(!should_process_file(path, false, &["*.rb".to_string()], &[]));
}

#[test]
fn should_process_file_skips_ralph_dir() {
    let path = "/project/.ralph/cache/data.json";
    assert!(!should_process_file(path, false, &["*.json".to_string()], &[]));
}

#[test]
fn relevant_paths_filters_and_keeps_order() {
    let paths = vec![
        "test.rs".to_string(),
        "other.py".to_string(),
        "exclude.rs".to_string(),
        "lib.rs".to_string(),
    ];
    let kept = relevant_paths(
        &paths,
        &[false, false, false, false],
        &["*.rs".to_string()],
        &["exclude.*".to_string()],
    )
    .unwrap();
    assert_eq!(kept, vec!["test.rs".to_string(), "lib.rs".to_string()]);
    assert!(relevant_paths(&paths[1..2], &[false], &["*.rs".to_string()], &[]).is_none());
}
