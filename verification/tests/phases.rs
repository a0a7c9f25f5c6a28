use ralph::phases::{execute_phase1_planning, Phase1Step, RevertOutcome};
use ralph::contracts::TaskStatus;
use ralph::phases::{
    done_task_allowed_paths, ensure_phase3_completion, phase1_allowed_paths,
    refresh_after_update, refresh_find_task, refresh_task_before_phase1, should_finalize_phase3,
    Phase3CleanCheck, Phase3Error, PostRunMode, RefreshStep, TaskLocation,
};

#[test]
fn phase3_requires_archived_terminal_status() {
    let done = TaskLocation {
        status: TaskStatus::Done,
        in_done: true,
    };
    assert!(matches!(
        ensure_phase3_completion("RQ-1", Some(done), true),
        Ok(Phase3CleanCheck::DoneTask)
    ));
    assert!(matches!(
        ensure_phase3_completion("RQ-1", Some(done), false),
        Ok(Phase3CleanCheck::Skip)
    ));
    let rejected = TaskLocation {
        status: TaskStatus::Rejected,
        in_done: true,
    };
    assert!(matches!(
        ensure_phase3_completion("RQ-1", Some(rejected), true),
        Ok(Phase3CleanCheck::RejectedTask)
    ));
    assert!(matches!(
        ensure_phase3_completion("RQ-1", None, true),
        Err(Phase3Error::TaskNotFound)
    ));
    let active = TaskLocation {
        status: TaskStatus::Done,
        in_done: false,
    };
    match ensure_phase3_completion("RQ-1", Some(active), true) {
        Err(Phase3Error::Incomplete(message)) => assert_eq!(
            message,
            "Phase 3 incomplete: task RQ-1 is not archived with a terminal status. Run `ralph task done` in Phase 3 before finishing."
        ),
        other => panic!("unexpected {:?}", other),
    }
}

#[test]
fn phase3_finalizes_only_done_archived_tasks() {
    assert!(should_finalize_phase3(Some(TaskLocation {
        status: TaskStatus::Done,
        in_done: true
    })));
    assert!(!should_finalize_phase3(Some(TaskLocation {
        status: TaskStatus::Rejected,
        in_done: true
    })));
    assert!(!should_finalize_phase3(None));
    assert_eq!(
        done_task_allowed_paths(),
        vec![
            ".ralph/config.jsonc",
            ".ralph/cache/productivity.json",
            ".ralph/cache/productivity.jsonc"
        ]
    );
}

#[test]
fn phase1_refresh_steps() {
    assert!(matches!(
        refresh_task_before_phase1(PostRunMode::ParallelWorker),
        RefreshStep::Skip
    ));
    match refresh_task_before_phase1(PostRunMode::Normal) {
        RefreshStep::UpdateTask { fields } => {
            assert_eq!(fields, "scope,evidence,plan,notes,tags,depends_on")
        }
        other => panic!("unexpected {:?}", other),
    }
    assert!(matches!(
        refresh_after_update(true, false, false),
        RefreshStep::Abort
    ));
    assert!(matches!(
        refresh_after_update(false, false, false),
        RefreshStep::ReloadQueue { use_done: false }
    ));
    assert!(matches!(
        refresh_after_update(false, false, true),
        RefreshStep::ReloadQueue { use_done: true }
    ));
    let ids = vec!["RQ-1".to_string(), " RQ-2 ".to_string(), "RQ-2".to_string()];
    assert!(matches!(
        refresh_find_task(&ids, "RQ-2  "),
        RefreshStep::Refreshed(1)
    ));
    assert!(matches!(
        refresh_find_task(&ids, "RQ-9"),
        RefreshStep::Missing
    ));
}

#[test]
fn phase1_allowed_paths_list() {
    let allowed = phase1_allowed_paths("RQ-5", &["notes.txt".to_string()]);
    assert_eq!(
        allowed,
        vec![
            ".ralph/queue.json".to_string(),
            ".ralph/done.json".to_string(),
            ".ralph/cache/plans/RQ-5.md".to_string(),
            ".ralph/cache/plans/".to_string(),
            "notes.txt".to_string(),
        ]
    );
}

fn strings(v: &[&str]) -> Vec<String> {
    v.iter().map(|s| s.to_string()).collect()
}

#[test]
fn phase1_plan_ready_when_only_allowed_paths_changed() {
    let allowed = phase1_allowed_paths("RQ-5", &[]);
    let changed = strings(&[".ralph/queue.json", ".ralph/cache/plans/RQ-5.md", ".ralph/cache/plans/x"]);
    assert!(matches!(
        execute_phase1_planning(&changed, &allowed, true, None, ""),
        Phase1Step::PlanReady
    ));
}

#[test]
fn phase1_violation_goes_through_revert_outcome() {
    let allowed = phase1_allowed_paths("RQ-5", &[]);
    let changed = strings(&["src/main.rs"]);
    assert!(matches!(
        execute_phase1_planning(&changed, &allowed, true, None, "dirty"),
        Phase1Step::AskRevert
    ));
    let cont = RevertOutcome::Continue { message: "undo it".to_string() };
    match execute_phase1_planning(&changed, &allowed, true, Some(&cont), "dirty") {
        Phase1Step::Resume(m) => assert_eq!(m, "undo it"),
        _ => panic!("expected resume"),
    }
    let proceed = RevertOutcome::Proceed { reason: "ok".to_string() };
    assert!(matches!(
        execute_phase1_planning(&changed, &allowed, true, Some(&proceed), "dirty"),
        Phase1Step::ProceedAnyway
    ));
    let halt = RevertOutcome::Halt { detail: "Changes reverted.".to_string() };
    match execute_phase1_planning(&[], &allowed, false, Some(&halt), "baseline dirty path changed") {
        Phase1Step::Fail(m) => {
            assert!(m.contains("Phase 1 violated plan-only contract"));
            assert!(m.ends_with("Changes reverted. Error: baseline dirty path changed"));
        }
        _ => panic!("expected failure"),
    }
}
