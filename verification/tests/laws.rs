use ralph::gitignore::{ensure_local_queue_gitignore_entries, ensure_ralph_gitignore_entries};
use ralph::parallel_state::{
    reconcile_pr_records, ParallelMergeMethod, ParallelMergeWhen, ParallelPrLifecycle,
    ParallelPrRecord, ParallelStateFile, ParallelTaskRecord, PendingMergeJob,
    PendingMergeLifecycle, PrLifecycleLookup,
};

fn empty_state() -> ParallelStateFile {
    ParallelStateFile::new(
        "t0".to_string(),
        "main".to_string(),
        ParallelMergeMethod::Squash,
        ParallelMergeWhen::AsCreated,
    )
}

fn record(task_id: &str, pid: u32) -> ParallelTaskRecord {
    ParallelTaskRecord::new(
        task_id,
        "/ws".to_string(),
        "b".to_string(),
        pid,
        Some("t1".to_string()),
        "t2".to_string(),
    )
}

#[test]
fn upserting_twice_equals_upserting_once() {
    let mut once = empty_state();
    once.upsert_task(record("RQ-1", 1));
    once.upsert_task(record("RQ-2", 2));
    let mut twice = empty_state();
    twice.upsert_task(record("RQ-1", 1));
    twice.upsert_task(record("RQ-2", 2));
    twice.upsert_task(record("RQ-2", 2));
    assert_eq!(once.tasks_in_flight.len(), twice.tasks_in_flight.len());
    assert_eq!(twice.tasks_in_flight[1].pid, Some(2));
}

#[test]
fn enqueue_leaves_one_job_at_the_back() {
    let mut state = empty_state();
    for (id, pr) in [("RQ-1", 1u32), ("RQ-2", 2), ("RQ-1", 3)] {
        state.enqueue_merge(PendingMergeJob {
            task_id: id.to_string(),
            pr_number: pr,
            workspace_path: None,
            lifecycle: PendingMergeLifecycle::Queued,
            attempts: 0,
            queued_at: "t".to_string(),
            last_error: None,
        });
    }
    assert_eq!(state.pending_merges.len(), 2);
    assert_eq!(state.pending_merges[1].task_id, "RQ-1");
    assert_eq!(state.get_pending_merge("RQ-1").unwrap().pr_number, 3);
    state.remove_pending_merge("RQ-1");
    assert!(state.get_pending_merge("RQ-1").is_none());
}

#[test]
fn reconcile_never_unmerges() {
    let mut state = empty_state();
    state.upsert_pr(ParallelPrRecord {
        task_id: "RQ-1".to_string(),
        pr_number: 1,
        pr_url: "u".to_string(),
        head: None,
        base: None,
        workspace_path: None,
        merged: true,
        lifecycle: ParallelPrLifecycle::Open,
        merge_blocker: None,
    });
    let summary = reconcile_pr_records(&mut state, &[PrLifecycleLookup::Closed]);
    assert!(state.prs[0].merged);
    assert!(!summary.has_changes());
    assert_eq!(summary.open_count, 1);
}

#[test]
fn gitignore_updates_only_append_and_settle() {
    let existing = "node_modules/\n.cueloop/logs\n";
    let updated = ensure_ralph_gitignore_entries(existing, ".cueloop").unwrap();
    assert!(updated.starts_with(existing));
    assert!(ensure_ralph_gitignore_entries(&updated, ".cueloop").is_none());
    let local = ensure_local_queue_gitignore_entries(&updated, ".cueloop").unwrap();
    assert!(local.starts_with(&updated));
    assert!(ensure_local_queue_gitignore_entries(&local, ".cueloop").is_none());
}
