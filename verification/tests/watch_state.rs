use ralph::watch::comments::build_comment_regex;
use ralph::watch::state::{debounce_elapsed, WatchState};
use ralph::watch::types::CommentType;
use std::time::Duration;

#[test]
fn watch_state_new_initializes_empty() {
    let state = WatchState::new(100);
    assert!(state.pending_files.is_empty());
    assert_eq!(state.debounce_duration(), Duration::from_millis(100));
}

#[test]
fn add_file_inserts_new_path() {
    let mut state = WatchState::new(100);
    let path = "/test/file.rs".to_string();

    state.add_file(path.clone());

    assert!(state.pending_files.contains(&path));
    assert_eq!(state.pending_files.len(), 1);
}

#[test]
fn add_file_deduplicates_paths() {
    let mut state = WatchState::new(100);
    let path = "/test/file.rs".to_string();

    state.add_file(path.clone());
    state.add_file(path.clone());

    assert_eq!(state.pending_files.len(), 1);
}

#[test]
fn add_file_returns_true_when_debounce_elapsed() {
    let mut state = WatchState::new(0);
    let path = "/test/file.rs".to_string();

    let should_process = state.add_file(path);

    assert!(should_process);
}

#[test]
fn add_file_returns_false_within_debounce() {
    let mut state = WatchState::new(10000);
    let path1 = "/test/file1.rs".to_string();
    let path2 = "/test/file2.rs".to_string();

    let _ = state.add_file(path1);

    let should_process = state.add_file(path2);

    assert!(!should_process);
}

#[test]
fn take_pending_removes_all_files() {
    let mut state = WatchState::new(100);
    state.add_file("/test/file1.rs".to_string());
    state.add_file("/test/file2.rs".to_string());

    let pending = state.take_pending();

    assert_eq!(pending.len(), 2);
    assert!(state.pending_files.is_empty());
}

#[test]
fn take_pending_returns_empty_when_no_files() {
    let mut state = WatchState::new(100);

    let pending = state.take_pending();

    assert!(pending.is_empty());
}

#[test]
fn take_pending_resets_last_event() {
    let mut state = WatchState::new(100);
    state.add_file("/test/file.rs".to_string());
    let before = state.last_event;

    state.take_pending();

    assert_ne!(
        state.last_event, before,
        "last_event should be updated when taking pending files"
    );
}

#[test]
fn take_pending_preserves_all_files() {
    let mut state = WatchState::new(100);
    state.add_file("/test/a.rs".to_string());
    state.add_file("/test/b.rs".to_string());
    state.add_file("/test/c.rs".to_string());

    let pending = state.take_pending();

    assert_eq!(pending.len(), 3);
    assert!(pending.iter().any(|p| p.ends_with("a.rs")));
    assert!(pending.iter().any(|p| p.ends_with("b.rs")));
    assert!(pending.iter().any(|p| p.ends_with("c.rs")));
}

#[test]
fn add_file_multiple_paths_tracked() {
    let mut state = WatchState::new(100);
    let path1 = "/test/file1.rs".to_string();
    let path2 = "/test/file2.rs".to_string();
    let path3 = "/test/file3.rs".to_string();

    state.add_file(path1.clone());
    state.add_file(path2.clone());
    state.add_file(path3.clone());

    assert_eq!(state.pending_files.len(), 3);
    assert!(state.pending_files.contains(&path1));
    assert!(state.pending_files.contains(&path2));
    assert!(state.pending_files.contains(&path3));
}

#[test]
fn add_file_updates_last_event_when_debounce_elapsed() {
    let mut state = WatchState::new(0);
    let before = state.last_event;

    state.add_file("/test/file.rs".to_string());

    assert_ne!(
        state.last_event, before,
        "last_event should be updated when debounce has elapsed"
    );
}

#[test]
fn take_pending_empty_then_add_new_files() {
    let mut state = WatchState::new(100);

    let pending = state.take_pending();
    assert!(pending.is_empty());

    state.add_file("/test/file.rs".to_string());
    assert_eq!(state.pending_files.len(), 1);
}

#[test]
fn debounce_duration_zero_always_elapsed() {
    let mut state = WatchState::new(0);
    let path1 = "/test/file1.rs".to_string();
    let path2 = "/test/file2.rs".to_string();

    assert!(state.add_file(path1));
    assert!(state.add_file(path2));
}

#[test]
fn watch_state_creation() {
    let state = WatchState::new(100);
    assert!(state.pending_files.is_empty());
    assert_eq!(state.debounce_duration(), Duration::from_millis(100));
}

#[test]
fn build_comment_regex_integration() {
    let regex = build_comment_regex(&[CommentType::Todo]).unwrap();

    assert!(regex.as_regex().is_match("// TODO: test"));
    assert!(regex.as_regex().is_match("// todo: test"));
    assert!(!regex.as_regex().is_match("// FIXME: test"));
}

#[test]
fn all_comment_type_variants_compile_regex() {
    let all_types = vec![
        CommentType::Todo,
        CommentType::Fixme,
        CommentType::Hack,
        CommentType::Xxx,
        CommentType::All,
    ];

    for ct in all_types {
        let regex = build_comment_regex(&[ct]).unwrap();
        assert!(!regex.as_regex().as_str().is_empty());
    }
}

#[test]
fn pending_files_ready_needs_pending_files() {
    let mut state = WatchState::new(0);
    let now = std::time::Instant::now();
    assert!(!state.pending_files_ready_at(&now));
    state.add_file("/x.rs".to_string());
    let later = std::time::Instant::now();
    assert!(state.pending_files_ready_at(&later));
}

#[test]
fn debounce_elapsed_compares_nanoseconds_with_window() {
    assert!(debounce_elapsed(100_000_000, 100));
    assert!(!debounce_elapsed(99_999_999, 100));
    assert!(debounce_elapsed(0, 0));
}

#[test]
fn add_file_at_moves_event_time_only_when_window_elapsed() {
    let mut state = WatchState::new(100);
    let before = state.last_event;
    let later = before + Duration::from_millis(500);
    assert!(!state.add_file_at("/a.rs".to_string(), later, 50_000_000));
    assert_eq!(state.last_event, before);
    assert!(state.add_file_at("/b.rs".to_string(), later, 100_000_000));
    assert_eq!(state.last_event, later);
    assert_eq!(state.pending_files.len(), 2);
}

#[test]
fn pending_files_ready_after_needs_files_and_elapsed_window() {
    let mut state = WatchState::new(100);
    assert!(!state.pending_files_ready_after(1_000_000_000));
    let now = state.last_event;
    state.add_file_at("/a.rs".to_string(), now, 0);
    assert!(!state.pending_files_ready_after(99_999_999));
    assert!(state.pending_files_ready_after(100_000_000));
}

#[test]
fn add_file_treats_equal_paths_as_one() {
    let mut state = WatchState::new(100);
    state.add_file("/a//b.rs".to_string());
    state.add_file("/a/./b.rs".to_string());
    state.add_file("/a/b.rs".to_string());
    state.add_file("/a/b.rs/".to_string());
    assert_eq!(state.pending_files, vec!["/a//b.rs".to_string()]);
    state.add_file("./a/b.rs".to_string());
    state.add_file("a/b.rs".to_string());
    assert_eq!(state.pending_files.len(), 3);
}

#[test]
fn take_pending_at_restarts_the_clock_at_now() {
    let start = std::time::Instant::now();
    let mut state = WatchState::new_at(100, start);
    assert_eq!(state.last_event, start);
    state.add_file_at("/a.rs".to_string(), start, 0);
    let later = start + Duration::from_millis(5);
    assert_eq!(state.take_pending_at(later), vec!["/a.rs".to_string()]);
    assert!(state.pending_files.is_empty());
    assert_eq!(state.last_event, later);
}
