use ralph::watch::comments::{
    build_comment_regex, comment_pattern, detect_comments, determine_comment_type, extract_context,
};
use ralph::watch::types::CommentType;

#[test]
fn determine_comment_type_detection() {
    assert_eq!(
        determine_comment_type("// TODO: fix this"),
        CommentType::Todo
    );
    assert_eq!(
        determine_comment_type("// FIXME: broken"),
        CommentType::Fixme
    );
    assert_eq!(
        determine_comment_type("// HACK: workaround"),
        CommentType::Hack
    );
    assert_eq!(
        determine_comment_type("// XXX: review needed"),
        CommentType::Xxx
    );
}

#[test]
fn extract_context_format() {
    let ctx = extract_context("test content", 42, "/path/to/file.rs");
    assert!(ctx.contains("file.rs"));
    assert!(ctx.contains("42"));
    assert!(ctx.contains("test content"));
}

#[test]
fn detect_comments_finds_todos() {
    let content = "// TODO: fix this bug\nfn main() {}\n// FIXME: handle error\n";
    let regex = build_comment_regex(&[CommentType::All]).unwrap();
    let comments = detect_comments(content, "/tmp/sample.rs", &regex);

    assert_eq!(comments.len(), 2);
    assert!(comments[0].content.contains("fix this bug"));
    assert_eq!(comments[0].comment_type, CommentType::Todo);
    assert!(comments[1].content.contains("handle error"));
    assert_eq!(comments[1].comment_type, CommentType::Fixme);
}

#[test]
fn build_comment_regex_empty_types_defaults_to_all() {
    let regex = build_comment_regex(&[]).unwrap();
    assert!(regex.as_regex().is_match("// TODO: fix this"));
    assert!(regex.as_regex().is_match("// FIXME: fix this"));
    assert!(regex.as_regex().is_match("// HACK: workaround"));
    assert!(regex.as_regex().is_match("// XXX: review"));
}

#[test]
fn build_comment_regex_single_type_only() {
    let regex = build_comment_regex(&[CommentType::Todo]).unwrap();
    assert!(regex.as_regex().is_match("// TODO: fix this"));
    assert!(!regex.as_regex().is_match("// FIXME: fix this"));
    assert!(!regex.as_regex().is_match("// HACK: workaround"));
    assert!(!regex.as_regex().is_match("// XXX: review"));
}

#[test]
fn build_comment_regex_multiple_types() {
    let regex = build_comment_regex(&[CommentType::Todo, CommentType::Fixme]).unwrap();
    assert!(regex.as_regex().is_match("// TODO: fix this"));
    assert!(regex.as_regex().is_match("// FIXME: fix this"));
    assert!(!regex.as_regex().is_match("// HACK: workaround"));
}

#[test]
fn build_comment_regex_case_insensitive() {
    let regex = build_comment_regex(&[CommentType::Todo]).unwrap();
    assert!(regex.as_regex().is_match("// todo: fix this"));
    assert!(regex.as_regex().is_match("// Todo: fix this"));
    assert!(regex.as_regex().is_match("// TODO: fix this"));
    assert!(regex.as_regex().is_match("// ToDo: fix this"));
}

#[test]
fn build_comment_regex_various_separators() {
    let regex = build_comment_regex(&[CommentType::All]).unwrap();
    assert!(regex.as_regex().is_match("// TODO: fix this"));
    assert!(regex.as_regex().is_match("// TODO; fix this"));
    assert!(regex.as_regex().is_match("// TODO- fix this"));
    assert!(regex.as_regex().is_match("// TODO fix this"));
}

#[test]
fn detect_comments_extracts_content_correctly() {
    let regex = build_comment_regex(&[CommentType::Todo]).unwrap();
    let comments = detect_comments("// TODO: implement feature X\n", "/tmp/a.rs", &regex);

    assert_eq!(comments.len(), 1);
    assert!(comments[0].content.contains("implement feature X"));
}

#[test]
fn detect_comments_handles_all_comment_types() {
    let content = "// FIXME: fix this\n// TODO: do that\n// HACK: workaround\n// XXX: review needed\n";
    let regex = build_comment_regex(&[CommentType::All]).unwrap();
    let comments = detect_comments(content, "/tmp/a.rs", &regex);

    assert_eq!(comments.len(), 4, "All comment types should be detected");
    assert_eq!(comments[0].comment_type, CommentType::Fixme);
    assert_eq!(comments[1].comment_type, CommentType::Todo);
    assert_eq!(comments[2].comment_type, CommentType::Hack);
    assert_eq!(comments[3].comment_type, CommentType::Xxx);
}

#[test]
fn determine_comment_type_prefers_first_match() {
    assert_eq!(
        determine_comment_type("// TODO and FIXME here"),
        CommentType::Todo
    );
    assert_eq!(
        determine_comment_type("// FIXME and HACK here"),
        CommentType::Fixme
    );
    assert_eq!(
        determine_comment_type("// HACK and XXX here"),
        CommentType::Hack
    );
}

#[test]
fn determine_comment_type_in_code_context() {
    assert_eq!(
        determine_comment_type("let x = 1; // TODO: optimize"),
        CommentType::Todo
    );
    assert_eq!(
        determine_comment_type("/* FIXME: broken */"),
        CommentType::Fixme
    );
    assert_eq!(
        determine_comment_type("/// HACK: workaround for bug"),
        CommentType::Hack
    );
}

#[test]
fn determine_comment_type_returns_all_when_no_match() {
    assert_eq!(
        determine_comment_type("// Some regular comment"),
        CommentType::All
    );
    assert_eq!(
        determine_comment_type("Just code without comments"),
        CommentType::All
    );
    assert_eq!(determine_comment_type(""), CommentType::All);
}

#[test]
fn extract_context_truncates_long_content() {
    let long_content = "a".repeat(200);
    let ctx = extract_context(&long_content, 1, "/test/file.rs");

    let content_part = ctx.split(" - ").last().unwrap();
    assert_eq!(content_part.len(), 100);
}

#[test]
fn extract_context_handles_special_chars_in_filename() {
    let ctx = extract_context("content", 42, "/path/to/file-name_v2.rs");
    assert!(ctx.contains("file-name_v2.rs"));
}

#[test]
fn extract_context_line_number_one() {
    let ctx = extract_context("first line", 1, "/test/file.rs");
    assert!(ctx.contains(":1 -"));
}

#[test]
fn detect_comments_handles_multiline_content() {
    let content = "// TODO: line 1\n// TODO: line 2\n// TODO: line 3\n";
    let regex = build_comment_regex(&[CommentType::All]).unwrap();
    let comments = detect_comments(content, "/tmp/a.rs", &regex);

    assert_eq!(comments.len(), 3);
    assert_eq!(comments[0].line_number, 1);
    assert_eq!(comments[1].line_number, 2);
    assert_eq!(comments[2].line_number, 3);
}

#[test]
fn detect_comments_preserves_file_path() {
    let regex = build_comment_regex(&[CommentType::Todo]).unwrap();
    let comments = detect_comments("// TODO: test\n", "/tmp/some/file.rs", &regex);

    assert_eq!(comments[0].file_path, "/tmp/some/file.rs");
}

#[test]
fn detect_comments_with_fixme_type_only() {
    let content = "// TODO: ignored\n// FIXME: found\n// HACK: ignored\n";
    let regex = build_comment_regex(&[CommentType::Fixme]).unwrap();
    let comments = detect_comments(content, "/tmp/a.rs", &regex);

    assert_eq!(comments.len(), 1);
    assert_eq!(comments[0].comment_type, CommentType::Fixme);
    assert!(comments[0].content.contains("found"));
}

#[test]
fn detect_comments_preserves_content_case() {
    let regex = build_comment_regex(&[CommentType::Todo]).unwrap();
    let comments = detect_comments("// TODO: Fix The BUG in ModuleA\n", "/tmp/a.rs", &regex);

    assert_eq!(comments.len(), 1);
    assert!(comments[0].content.contains("Fix The BUG in ModuleA"));
}

#[test]
fn extract_context_with_unknown_file() {
    let ctx = extract_context("content", 5, "");
    assert!(ctx.contains("unknown"));
    assert!(ctx.contains(":5 -"));
}

#[test]
fn build_comment_regex_all_type_matches_everything() {
    let regex = build_comment_regex(&[CommentType::All]).unwrap();
    assert!(regex.as_regex().is_match("TODO: something"));
    assert!(regex.as_regex().is_match("FIXME: something"));
    assert!(regex.as_regex().is_match("HACK: something"));
    assert!(regex.as_regex().is_match("XXX: something"));
}

#[test]
fn determine_comment_type_xxx_variations() {
    assert_eq!(determine_comment_type("// XXX: review"), CommentType::Xxx);
    assert_eq!(determine_comment_type("// xxx: review"), CommentType::Xxx);
    assert_eq!(determine_comment_type("// XxX: review"), CommentType::Xxx);
}

#[test]
fn comment_pattern_text_per_types() {
    assert_eq!(
        comment_pattern(&[CommentType::Todo]),
        "(?i)(TODO\\s*[:;-]?\\s*(.+)$)"
    );
    assert_eq!(
        comment_pattern(&[]),
        "(?i)((?:TODO|FIXME|HACK|XXX)\\s*[:;-]?\\s*(.+)$)"
    );
    assert_eq!(
        comment_pattern(&[CommentType::Hack, CommentType::Fixme]),
        "(?i)(FIXME\\s*[:;-]?\\s*(.+)$|HACK\\s*[:;-]?\\s*(.+)$)"
    );
}

#[test]
fn extract_context_exact_text() {
    assert_eq!(
        extract_context("fix it", 7, "src/lib.rs"),
        "lib.rs:7 - fix it"
    );
    assert_eq!(extract_context("x", 3, "dir/.."), "unknown:3 - x");
}

#[test]
fn detect_comments_skips_lines_without_text() {
    let regex = build_comment_regex(&[CommentType::Todo]).unwrap();
    let comments = detect_comments("plain\r\n// TODO: a\r\n// nothing\n", "f.rs", &regex);
    assert_eq!(comments.len(), 1);
    assert_eq!(comments[0].line_number, 2);
    assert_eq!(comments[0].context, format!("f.rs:2 - {}", comments[0].content));
}
