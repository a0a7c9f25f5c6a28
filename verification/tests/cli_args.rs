use ralph::cli::{readme_check_outcome, ReadmeCheckResult};
use ralph::cli::{
    use_done_queue, QueueListFormat, QueueSearchArgs, QueueSortArgs, QueueSortBy, QueueSortOrder,
    SearchSources, StatusArg, UndoArgs,
};
use ralph::contracts::TaskStatus;

fn search_args(include_done: bool, only_done: bool) -> QueueSearchArgs {
    QueueSearchArgs {
        query: "fix".to_string(),
        regex: false,
        match_case: false,
        status: vec![StatusArg::Todo],
        tag: vec![],
        scope: vec![],
        include_done,
        only_done,
        format: QueueListFormat::Compact,
        limit: 50,
        all: false,
    }
}

#[test]
fn search_flags_conflict() {
    let err = search_args(true, true).sources().unwrap_err();
    assert!(err.starts_with("Conflicting flags: --include-done and --only-done are mutually exclusive."));
    assert_eq!(
        search_args(false, false).sources().unwrap(),
        SearchSources { active: true, done: false }
    );
    assert_eq!(
        search_args(true, false).sources().unwrap(),
        SearchSources { active: true, done: true }
    );
    assert_eq!(
        search_args(false, true).sources().unwrap(),
        SearchSources { active: false, done: true }
    );
}

#[test]
fn sort_defaults_and_names() {
    let args = QueueSortArgs::default();
    assert_eq!(args.sort_by, QueueSortBy::Priority);
    assert_eq!(args.order, QueueSortOrder::Descending);
    assert!(args.order.is_descending());
    assert!(!QueueSortOrder::Ascending.is_descending());
    assert_eq!(QueueSortBy::Priority.as_str(), "priority");
    assert_eq!(QueueSortOrder::Ascending.as_str(), "ascending");
    assert_eq!(QueueSortOrder::Descending.as_str(), "descending");
}

#[test]
fn status_args_map_to_task_status() {
    assert_eq!(StatusArg::Draft.task_status(), TaskStatus::Draft);
    assert_eq!(StatusArg::Todo.task_status(), TaskStatus::Todo);
    assert_eq!(StatusArg::Doing.task_status(), TaskStatus::Doing);
    assert_eq!(StatusArg::Done.task_status(), TaskStatus::Done);
    assert_eq!(StatusArg::Rejected.task_status(), TaskStatus::Rejected);
}

#[test]
fn done_queue_used_when_present() {
    assert!(use_done_queue(true, false));
    assert!(use_done_queue(false, true));
    assert!(!use_done_queue(false, false));
}

#[test]
fn undo_output_choices() {
    let args = UndoArgs {
        id: None,
        list: false,
        dry_run: true,
        verbose: true,
    };
    assert_eq!(args.restore_heading(), "Dry run - would restore from snapshot:");
    assert!(!args.shows_list_hint());
    let args = UndoArgs {
        dry_run: false,
        ..args
    };
    assert_eq!(args.restore_heading(), "Restored from snapshot:");
    assert!(args.shows_list_hint());
}

#[test]
fn readme_check_reports_and_exit_codes() {
    assert_eq!(
        readme_check_outcome(ReadmeCheckResult::Current(3)),
        ("readme: current (version 3)".to_string(), 0)
    );
    assert_eq!(
        readme_check_outcome(ReadmeCheckResult::Outdated { current_version: 1, embedded_version: 2 }),
        ("readme: outdated (current version 1, embedded version 2)".to_string(), 1)
    );
    assert_eq!(readme_check_outcome(ReadmeCheckResult::Missing).1, 1);
    assert_eq!(readme_check_outcome(ReadmeCheckResult::NotApplicable).1, 0);
}
