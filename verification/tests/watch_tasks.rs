use ralph::contracts::TaskStatus;
use ralph::contracts::TaskPriority;
use ralph::watch::tasks::{
    create_task_from_comment, is_active_watch_task, removed_comment_note, upgraded_metadata_note,
    watch_task_title, find_matching_active_watch_task, plan_new_watch_tasks,
    reconcile_watch_tasks_in_queue, task_exists_for_comment, WatchIdentity, WatchTask, WATCH_FIELD_COMMENT_TYPE, WATCH_FIELD_CONTENT_HASH,
    WATCH_FIELD_FILE, WATCH_FIELD_FINGERPRINT, WATCH_FIELD_IDENTITY_KEY, WATCH_FIELD_LINE,
    WATCH_FIELD_LOCATION_KEY, WATCH_FIELD_VERSION, WATCH_VERSION_V2,
};
use ralph::watch::types::{CommentType, DetectedComment};

fn detected_comment(path: &str, line: usize, comment_type: CommentType, content: &str) -> DetectedComment {
    DetectedComment {
        file_path: path.to_string(),
        line_number: line,
        comment_type,
        content: content.to_string(),
        context: format!("{path}:{line} - {content}"),
    }
}

fn identity_of(c: &DetectedComment) -> WatchIdentity {
    WatchIdentity {
        file: c.file_path.clone(),
        line: c.line_number,
        comment_type: format!("{:?}", c.comment_type).to_lowercase(),
        content_hash: "h1".to_string(),
        location_key: format!("{}:{}", c.file_path, c.line_number),
        identity_key: "k1".to_string(),
    }
}

fn field<'a>(fields: &'a [(String, String)], key: &str) -> Option<&'a str> {
    fields.iter().find(|(k, _)| k == key).map(|(_, v)| v.as_str())
}

#[test]
fn task_fields_from_comment() {
    let c = detected_comment("/src/a.rs", 10, CommentType::Todo, "fix this");
    let task = create_task_from_comment(&c, "RQ-0001", "2026-01-01T00:00:00Z", &identity_of(&c));
    assert_eq!(task.title, "TODO: fix this in a.rs");
    assert_eq!(task.tags, vec!["watch".to_string(), "todo".to_string()]);
    assert_eq!(
        task.notes,
        vec![
            "Detected in: /src/a.rs:10".to_string(),
            "Full content: fix this".to_string(),
            "Context: /src/a.rs:10 - fix this".to_string(),
        ]
    );
    assert_eq!(task.request, Some("Address TODO comment".to_string()));
    assert_eq!(task.priority, TaskPriority::Medium);
}

#[test]
fn task_title_cuts_long_content() {
    let long = "x".repeat(80);
    let c = detected_comment("", 1, CommentType::Xxx, &long);
    assert_eq!(watch_task_title(&c), format!("XXX: {} in unknown", "x".repeat(50)));
    let task = create_task_from_comment(&c, "RQ-0002", "t", &identity_of(&c));
    assert_eq!(task.title, format!("XXX: {} in unknown", "x".repeat(50)));
    assert_eq!(task.tags[1], "xxx");
}

#[test]
fn new_watch_task_is_todo_with_scope_and_timestamps() {
    let c = detected_comment("/src/a.rs", 10, CommentType::Fixme, &"x".repeat(60));
    let t = create_task_from_comment(&c, "RQ-0001", "2026-03-07T00:00:00Z", &identity_of(&c));
    assert_eq!(t.id, "RQ-0001");
    assert_eq!(t.title, format!("FIXME: {} in a.rs", "x".repeat(50)));
    assert_eq!(t.tags, vec!["watch".to_string(), "fixme".to_string()]);
    assert_eq!(t.status, TaskStatus::Todo);
    assert_eq!(t.request, Some("Address FIXME comment".to_string()));
    assert_eq!(t.scope, vec!["/src/a.rs".to_string()]);
    assert_eq!(t.notes[0], "Detected in: /src/a.rs:10");
    assert_eq!(t.created_at, Some("2026-03-07T00:00:00Z".to_string()));
    assert_eq!(t.created_at, t.updated_at);
    assert!(t.completed_at.is_none());
}

#[test]
fn create_task_from_comment_populates_v2_custom_fields() {
    let c = detected_comment("/test/file.rs", 42, CommentType::Todo, "Fix the error handling");
    let t = create_task_from_comment(&c, "RQ-0001", "t", &identity_of(&c));
    let f = &t.custom_fields;
    assert_eq!(field(f, WATCH_FIELD_VERSION), Some(WATCH_VERSION_V2));
    assert_eq!(field(f, WATCH_FIELD_FILE), Some("/test/file.rs"));
    assert_eq!(field(f, WATCH_FIELD_LINE), Some("42"));
    assert_eq!(field(f, WATCH_FIELD_COMMENT_TYPE), Some("todo"));
    assert!(field(f, WATCH_FIELD_CONTENT_HASH).is_some());
    assert!(field(f, WATCH_FIELD_LOCATION_KEY).is_some());
    assert!(field(f, WATCH_FIELD_IDENTITY_KEY).is_some());
    assert_eq!(field(f, WATCH_FIELD_FINGERPRINT), field(f, WATCH_FIELD_CONTENT_HASH));
    assert_eq!(f.len(), 8);
}

#[test]
fn active_watch_tasks() {
    let tags = vec!["watch".to_string(), "todo".to_string()];
    assert!(is_active_watch_task(&tags, TaskStatus::Todo));
    assert!(is_active_watch_task(&tags, TaskStatus::Doing));
    assert!(!is_active_watch_task(&tags, TaskStatus::Done));
    assert!(!is_active_watch_task(&tags, TaskStatus::Rejected));
    assert!(!is_active_watch_task(&vec!["todo".to_string()], TaskStatus::Todo));
}

#[test]
fn watch_notes_text() {
    assert_eq!(
        removed_comment_note("2026-01-01T00:00:00Z"),
        "[watch] Automatically marked done: originating comment was removed at 2026-01-01T00:00:00Z"
    );
    assert_eq!(
        upgraded_metadata_note("t"),
        "[watch] Automatically upgraded metadata to watch.version=2 at t"
    );
}

fn task_for(path: &str, line: usize, id: &str, key: &str) -> WatchTask {
    let c = detected_comment(path, line, CommentType::Todo, "fix this");
    let mut identity = identity_of(&c);
    identity.identity_key = key.to_string();
    create_task_from_comment(&c, id, "t0", &identity)
}

#[test]
fn task_exists_for_comment_ignores_done_and_rejected_watch_tasks() {
    let c = detected_comment("/src/a.rs", 10, CommentType::Todo, "fix this");
    let identity = identity_of(&c);
    let mut done = create_task_from_comment(&c, "RQ-0001", "t", &identity);
    done.status = TaskStatus::Done;
    let mut rejected = create_task_from_comment(&c, "RQ-0002", "t", &identity);
    rejected.status = TaskStatus::Rejected;
    let tasks = vec![done, rejected];
    assert!(!task_exists_for_comment(&tasks, &identity));
    let active = create_task_from_comment(&c, "RQ-0003", "t", &identity);
    let tasks = vec![tasks[0].clone(), active];
    assert!(task_exists_for_comment(&tasks, &identity));
    assert_eq!(find_matching_active_watch_task(&tasks, "k1"), Some(1));
    assert_eq!(find_matching_active_watch_task(&tasks, "other"), None);
}

#[test]
fn plan_new_watch_tasks_skips_tracked_and_repeated_keys() {
    let tasks = vec![task_for("/src/a.rs", 1, "RQ-0001", "ka")];
    let keys = vec!["ka".to_string(), "kb".to_string(), "kb".to_string(), "kc".to_string()];
    assert_eq!(plan_new_watch_tasks(&tasks, &keys, true), vec![1, 3]);
    assert_eq!(plan_new_watch_tasks(&tasks, &keys, false), vec![1, 2, 3]);
}

#[test]
fn reconcile_only_closes_tasks_for_processed_files() {
    let mut tasks = vec![
        task_for("/src/a.rs", 10, "RQ-0001", "ka"),
        task_for("/src/b.rs", 20, "RQ-0002", "kb"),
        task_for("/src/a.rs", 30, "RQ-0003", "kc"),
    ];
    let before_b = tasks[1].clone();
    let closed = reconcile_watch_tasks_in_queue(
        &mut tasks,
        &["kc".to_string()],
        &["/src/a.rs".to_string()],
        "2026-01-02T00:00:00Z",
    );
    assert_eq!(closed, vec!["RQ-0001".to_string()]);
    assert_eq!(tasks[0].status, TaskStatus::Done);
    assert_eq!(tasks[0].completed_at, Some("2026-01-02T00:00:00Z".to_string()));
    assert_eq!(tasks[0].updated_at, Some("2026-01-02T00:00:00Z".to_string()));
    assert_eq!(
        tasks[0].notes.last().unwrap(),
        "[watch] Automatically marked done: originating comment was removed at 2026-01-02T00:00:00Z"
    );
    assert_eq!(tasks[1].status, before_b.status);
    assert_eq!(tasks[1].notes, before_b.notes);
    assert_eq!(tasks[2].status, TaskStatus::Todo);
}
