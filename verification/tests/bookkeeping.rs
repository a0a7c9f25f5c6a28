use ralph::bookkeeping::{
    bookkeeping_check, collect_bookkeeping_status_lines, generated_artifact_paths,
    restored_file_paths, BookkeepingCheck,
};

#[test]
fn collects_bookkeeping_lines_from_status() {
    let status = " M .ralph/queue.jsonc\n M src/lib.rs\n?? .ralph/logs/run.log\r\n M README.md";
    assert_eq!(
        collect_bookkeeping_status_lines(status),
        vec![" M .ralph/queue.jsonc".to_string(), "?? .ralph/logs/run.log".to_string()]
    );
    assert!(collect_bookkeeping_status_lines("").is_empty());
}

#[test]
fn restore_check_retries_once_then_fails() {
    assert!(matches!(bookkeeping_check(0, &[]), BookkeepingCheck::Clean));
    let dirty = vec!["a".to_string(), "b".to_string()];
    assert!(matches!(
        bookkeeping_check(0, &dirty),
        BookkeepingCheck::RestoreAgain
    ));
    match bookkeeping_check(1, &dirty) {
        BookkeepingCheck::Dirty(message) => assert_eq!(
            message,
            "parallel bookkeeping files remained dirty after restore: a, b"
        ),
        other => panic!("unexpected {:?}", other),
    }
}

#[test]
fn bookkeeping_paths_join_repo_root() {
    assert_eq!(
        restored_file_paths("/repo"),
        vec![
            "/repo/.ralph/queue.jsonc".to_string(),
            "/repo/.ralph/done.jsonc".to_string(),
            "/repo/.ralph/cache/productivity.json".to_string(),
            "/repo/.ralph/cache/productivity.jsonc".to_string(),
        ]
    );
    assert_eq!(generated_artifact_paths("/repo/").len(), 5);
    assert_eq!(generated_artifact_paths("/repo/")[4], "/repo/.ralph/logs");
}
