use ralph::parallel_state::{
    reconcile_pr_records, state_file_path, ParallelFinishedWithoutPrRecord, ParallelMergeMethod,
    ParallelMergeWhen, ParallelNoPrReason, ParallelPrLifecycle, ParallelPrRecord,
    ParallelStateFile, ParallelTaskRecord, PendingMergeJob, PendingMergeLifecycle,
    PrLifecycleLookup,
};

fn unix_nanos(rfc3339: &str) -> i128 {
    time::OffsetDateTime::parse(rfc3339, &time::format_description::well_known::Rfc3339)
        .unwrap()
        .unix_timestamp_nanos()
}

fn new_state() -> ParallelStateFile {
    ParallelStateFile::new(
        "2026-02-17T00:00:00Z".into(),
        "main".into(),
        ParallelMergeMethod::Squash,
        ParallelMergeWhen::AsCreated,
    )
}

fn job(task_id: &str, pr_number: u32, lifecycle: PendingMergeLifecycle, attempts: u8) -> PendingMergeJob {
    PendingMergeJob {
        task_id: task_id.into(),
        pr_number,
        workspace_path: None,
        lifecycle,
        attempts,
        queued_at: "2026-02-17T00:00:00Z".into(),
        last_error: None,
    }
}

fn pr(task_id: &str, pr_number: u32, merged: bool, lifecycle: ParallelPrLifecycle) -> ParallelPrRecord {
    ParallelPrRecord {
        task_id: task_id.to_string(),
        pr_number,
        pr_url: format!("https://example.com/pr/{}", pr_number),
        head: None,
        base: None,
        workspace_path: None,
        merged,
        lifecycle,
        merge_blocker: None,
    }
}

#[test]
fn pr_record_uses_fallbacks_when_missing() {
    let record = ParallelPrRecord {
        task_id: "RQ-0002".to_string(),
        pr_number: 9,
        pr_url: "https://example.com/pr/9".to_string(),
        head: None,
        base: None,
        workspace_path: None,
        merged: false,
        lifecycle: ParallelPrLifecycle::Open,
        merge_blocker: None,
    };
    let info = record.pr_info("ralph/RQ-0002", "main");
    assert_eq!(info.head, "ralph/RQ-0002");
    assert_eq!(info.base, "main");
}

#[test]
fn pr_record_prefers_trimmed_stored_names() {
    let mut record = pr("RQ-0003", 3, false, ParallelPrLifecycle::Open);
    record.head = Some("  feature/x  ".to_string());
    record.base = Some("   ".to_string());
    let info = record.pr_info("fallback-head", "main");
    assert_eq!(info.head, "feature/x");
    assert_eq!(info.base, "main");
}

#[test]
fn finished_without_pr_never_blocks_when_workspace_missing() {
    let now = unix_nanos("2026-02-03T00:00:00Z");
    let record = ParallelFinishedWithoutPrRecord {
        task_id: "RQ-MISSING".to_string(),
        workspace_path: "/nonexistent/path".to_string(),
        branch: "ralph/RQ-MISSING".to_string(),
        success: true,
        finished_at: "2026-02-02T23:30:00Z".to_string(),
        reason: ParallelNoPrReason::AutoPrDisabled,
        message: None,
    };
    let exists = std::path::Path::new(record.workspace_path.trim()).exists();
    assert!(!record.is_blocking(now, exists, false, false, 86_400));
}

#[test]
fn prune_drops_non_blocking_and_expired_records() {
    let now = unix_nanos("2026-02-03T00:00:00Z");
    let mut state = new_state();
    state.upsert_finished_without_pr(ParallelFinishedWithoutPrRecord {
        task_id: "RQ-AUTO".to_string(),
        workspace_path: "/ws/drop".to_string(),
        branch: "ralph/RQ-AUTO".to_string(),
        success: true,
        finished_at: "2026-02-02T00:00:00Z".to_string(),
        reason: ParallelNoPrReason::AutoPrDisabled,
        message: None,
    });
    state.upsert_finished_without_pr(ParallelFinishedWithoutPrRecord {
        task_id: "RQ-KEEP".to_string(),
        workspace_path: "/ws/keep".to_string(),
        branch: "ralph/RQ-KEEP".to_string(),
        success: true,
        finished_at: "2026-02-02T23:30:00Z".to_string(),
        reason: ParallelNoPrReason::PrCreateFailed,
        message: Some("rate limited".to_string()),
    });
    state.upsert_finished_without_pr(ParallelFinishedWithoutPrRecord {
        task_id: "RQ-OLD".to_string(),
        workspace_path: "/ws/drop".to_string(),
        branch: "ralph/RQ-OLD".to_string(),
        success: true,
        finished_at: "2020-01-01T00:00:00Z".to_string(),
        reason: ParallelNoPrReason::PrCreateFailed,
        message: None,
    });

    let dropped = state.prune_finished_without_pr(now, &[true, true, true], true, true, 86_400);

    assert_eq!(dropped, vec!["RQ-AUTO".to_string(), "RQ-OLD".to_string()]);
    assert_eq!(state.finished_without_pr.len(), 1);
    assert_eq!(state.finished_without_pr[0].task_id, "RQ-KEEP");
}

#[test]
fn blocking_policy_by_reason() {
    let now = unix_nanos("2026-02-03T00:00:00Z");
    let mut record = ParallelFinishedWithoutPrRecord::new(
        "RQ-1",
        "/ws".to_string(),
        "b".to_string(),
        false,
        "not a timestamp".to_string(),
        ParallelNoPrReason::DraftPrDisabled,
        None,
    );
    assert!(record.is_blocking(now, true, true, false, 60));
    assert!(!record.is_blocking(now, true, true, true, 60));
    record.reason = ParallelNoPrReason::Unknown;
    assert!(!record.is_blocking(now, true, false, false, 60));
    assert_eq!(record.reason.as_str(), "unknown");
    assert_eq!(ParallelNoPrReason::DraftPrSkippedNoChanges.as_str(), "draft_pr_skipped_no_changes");
}

#[test]
fn state_file_enqueue_merge() {
    let mut state = new_state();
    state.enqueue_merge(job("RQ-0001", 1, PendingMergeLifecycle::Queued, 0));
    assert_eq!(state.pending_merges.len(), 1);
    assert!(state.next_queued_merge().is_some());
}

#[test]
fn state_file_enqueue_replaces_existing() {
    let mut state = new_state();

    state.enqueue_merge(PendingMergeJob {
        task_id: "RQ-0001".into(),
        pr_number: 1,
        workspace_path: None,
        lifecycle: PendingMergeLifecycle::Queued,
        attempts: 0,
        queued_at: "2026-02-17T00:00:00Z".into(),
        last_error: None,
    });

    state.enqueue_merge(PendingMergeJob {
        task_id: "RQ-0001".into(),
        pr_number: 2,
        workspace_path: Some("/tmp/ws".to_string()),
        lifecycle: PendingMergeLifecycle::Queued,
        attempts: 1,
        queued_at: "2026-02-17T01:00:00Z".into(),
        last_error: Some("previous error".into()),
    });

    assert_eq!(state.pending_merges.len(), 1);
    let job = state.next_queued_merge().unwrap();
    assert_eq!(job.pr_number, 2);
    assert_eq!(job.attempts, 1);
}

#[test]
fn state_file_merge_lifecycle_transitions() {
    let mut state = new_state();
    state.enqueue_merge(job("RQ-0001", 1, PendingMergeLifecycle::Queued, 0));

    state.mark_merge_in_progress("RQ-0001");
    assert_eq!(
        state.pending_merges[0].lifecycle,
        PendingMergeLifecycle::InProgress
    );

    state.update_merge_result("RQ-0001", false, Some("conflict".into()), true);
    assert_eq!(
        state.pending_merges[0].lifecycle,
        PendingMergeLifecycle::RetryableFailed
    );
    assert_eq!(state.pending_merges[0].attempts, 1);
    assert_eq!(state.pending_merges[0].last_error, Some("conflict".into()));

    state.requeue_merge("RQ-0001");
    assert_eq!(
        state.pending_merges[0].lifecycle,
        PendingMergeLifecycle::Queued
    );

    state.remove_pending_merge("RQ-0001");
    assert!(state.pending_merges.is_empty());
}

#[test]
fn state_file_update_merge_result_success() {
    let mut state = new_state();
    state.enqueue_merge(PendingMergeJob {
        task_id: "RQ-0001".into(),
        pr_number: 1,
        workspace_path: None,
        lifecycle: PendingMergeLifecycle::InProgress,
        attempts: 2,
        queued_at: "2026-02-17T00:00:00Z".into(),
        last_error: Some("previous error".into()),
    });

    state.update_merge_result("RQ-0001", true, None, false);

    let job = state.get_pending_merge("RQ-0001").unwrap();
    assert_eq!(job.lifecycle, PendingMergeLifecycle::Queued);
}

#[test]
fn state_file_update_merge_result_terminal_failure() {
    let mut state = new_state();
    state.enqueue_merge(job("RQ-0001", 1, PendingMergeLifecycle::InProgress, 0));

    state.update_merge_result("RQ-0001", false, Some("PR closed".into()), false);

    let job = state.get_pending_merge("RQ-0001").unwrap();
    assert_eq!(job.lifecycle, PendingMergeLifecycle::TerminalFailed);
    assert_eq!(job.last_error, Some("PR closed".into()));
}

#[test]
fn state_file_pending_merge_count() {
    let mut state = new_state();
    assert_eq!(state.pending_merge_count(), 0);
    state.enqueue_merge(job("RQ-0001", 1, PendingMergeLifecycle::Queued, 0));
    assert_eq!(state.pending_merge_count(), 1);
    state.enqueue_merge(job("RQ-0002", 2, PendingMergeLifecycle::Queued, 0));
    assert_eq!(state.pending_merge_count(), 2);
}

#[test]
fn state_file_has_queued_merges() {
    let mut state = new_state();
    assert!(!state.has_queued_merges());
    state.enqueue_merge(job("RQ-0001", 1, PendingMergeLifecycle::InProgress, 0));
    assert!(!state.has_queued_merges());
    state.requeue_merge("RQ-0001");
    assert!(state.has_queued_merges());
}

#[test]
fn next_queued_merge_is_fifo() {
    let mut state = new_state();
    state.enqueue_merge(job("RQ-0001", 1, PendingMergeLifecycle::InProgress, 0));
    state.enqueue_merge(job("RQ-0002", 2, PendingMergeLifecycle::Queued, 0));
    state.enqueue_merge(job("RQ-0003", 3, PendingMergeLifecycle::Queued, 0));
    assert_eq!(state.next_queued_merge().unwrap().task_id, "RQ-0002");
    state.enqueue_merge(job("RQ-0002", 4, PendingMergeLifecycle::Queued, 0));
    assert_eq!(state.next_queued_merge().unwrap().task_id, "RQ-0003");
    if let Some(j) = state.next_queued_merge_mut() {
        j.lifecycle = PendingMergeLifecycle::InProgress;
    }
    assert_eq!(state.next_queued_merge().unwrap().pr_number, 4);
}

#[test]
fn upsert_pr_clears_finished_without_pr_record() {
    let mut state = new_state();
    state.upsert_finished_without_pr(ParallelFinishedWithoutPrRecord::new(
        "RQ-0009",
        "/tmp/ws".to_string(),
        "ralph/RQ-0009".to_string(),
        true,
        "2026-02-01T01:00:00Z".to_string(),
        ParallelNoPrReason::AutoPrDisabled,
        None,
    ));
    assert!(!state.remove_finished_without_pr("RQ-0001"));
    state.upsert_pr(pr("RQ-0009", 5, false, ParallelPrLifecycle::Open));
    assert!(state.finished_without_pr.is_empty());
    assert!(state.has_pr_record("RQ-0009"));
    state.upsert_pr(pr("RQ-0009", 6, false, ParallelPrLifecycle::Open));
    assert_eq!(state.prs.len(), 1);
    assert_eq!(state.prs[0].pr_number, 6);
    state.mark_pr_merged("RQ-0009");
    assert!(state.prs[0].merged);
    assert_eq!(state.prs[0].lifecycle, ParallelPrLifecycle::Merged);
    assert!(!state.prs[0].is_open_unmerged());
}

#[test]
fn tasks_in_flight_upsert_and_remove() {
    let mut state = new_state();
    state.upsert_task(ParallelTaskRecord::new(
        "RQ-1",
        "/ws/1".to_string(),
        "b1".to_string(),
        10,
        None,
        "2026-02-17T00:00:00Z".to_string(),
    ));
    state.upsert_task(ParallelTaskRecord::new(
        "RQ-1",
        "/ws/1b".to_string(),
        "b1".to_string(),
        11,
        Some("2026-02-17T02:00:00Z".to_string()),
        "2026-02-17T03:00:00Z".to_string(),
    ));
    assert_eq!(state.tasks_in_flight.len(), 1);
    assert_eq!(state.tasks_in_flight[0].pid, Some(11));
    assert_eq!(state.tasks_in_flight[0].started_at, "2026-02-17T02:00:00Z");
    state.remove_task("RQ-1");
    assert!(state.tasks_in_flight.is_empty());
}

#[test]
fn reconcile_updates_open_records_only() {
    let mut state = new_state();
    state.upsert_pr(pr("RQ-1", 1, false, ParallelPrLifecycle::Open));
    state.upsert_pr(pr("RQ-2", 2, false, ParallelPrLifecycle::Open));
    state.upsert_pr(pr("RQ-3", 3, false, ParallelPrLifecycle::Open));
    state.upsert_pr(pr("RQ-4", 4, true, ParallelPrLifecycle::Merged));
    state.upsert_pr(pr("RQ-5", 5, false, ParallelPrLifecycle::Open));
    state.upsert_pr(pr("RQ-6", 6, false, ParallelPrLifecycle::Open));
    let lookups = vec![
        PrLifecycleLookup::Open,
        PrLifecycleLookup::Closed,
        PrLifecycleLookup::Merged,
        PrLifecycleLookup::Closed,
        PrLifecycleLookup::Unknown("DRAFT".to_string()),
        PrLifecycleLookup::Failed("gh failed".to_string()),
    ];
    let summary = reconcile_pr_records(&mut state, &lookups);
    assert_eq!(summary.open_count, 1);
    assert_eq!(summary.closed_count, 1);
    assert_eq!(summary.merged_count, 2);
    assert_eq!(summary.unknown_count, 1);
    assert_eq!(summary.error_count, 1);
    assert_eq!(summary.affected_task_ids, vec!["RQ-2".to_string(), "RQ-3".to_string()]);
    assert!(summary.has_changes());
    assert_eq!(state.prs[1].lifecycle, ParallelPrLifecycle::Closed);
    assert!(state.prs[2].merged);
    assert_eq!(state.prs[3].lifecycle, ParallelPrLifecycle::Merged);
    assert_eq!(state.prs[4].lifecycle, ParallelPrLifecycle::Open);
}

#[test]
fn state_file_lives_under_cache() {
    assert_eq!(state_file_path("/repo"), "/repo/.ralph/cache/parallel/state.json");
    assert_eq!(state_file_path("/repo/"), "/repo/.ralph/cache/parallel/state.json");
}
