use ralph::cli::{browse_only_runner, browse_only_scan_runner, handle_tui, TuiArgs, TuiMode};

#[test]
fn browse_only_runner_rejects_execution() {
    let runner = browse_only_runner("RQ-0001".to_string());
    let err = runner.run().expect_err("expected browse-only error");
    assert!(err.contains("Task execution is disabled in read-only mode"));
}

#[test]
fn browse_only_scan_runner_rejects_scan() {
    let runner = browse_only_scan_runner("".to_string());
    let err = runner.run().expect_err("expected browse-only scan error");
    assert!(err.contains("Scan is disabled in read-only mode"));
}

#[test]
fn handle_tui_picks_browse_only_for_read_only() {
    assert_eq!(handle_tui(&TuiArgs { read_only: true }), TuiMode::BrowseOnly);
    assert_eq!(handle_tui(&TuiArgs { read_only: false }), TuiMode::Execute);
}
