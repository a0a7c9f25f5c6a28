use ralph::cli::{readme_status_line, status_line, InitArgs};
use ralph::contracts::{Runner, TaskPriority};
use ralph::init::{
    format_task_id, wizard_model_names, wizard_phases, wizard_priority, wizard_runner,
    FileInitStatus, WizardAnswers,
};

#[test]
fn wizard_answers_default() {
    let answers = WizardAnswers::default();
    assert_eq!(answers.runner, Runner::Claude);
    assert_eq!(answers.model, "sonnet");
    assert_eq!(answers.phases, 3);
    assert!(!answers.create_first_task);
    assert!(answers.first_task_title.is_none());
    assert!(answers.first_task_description.is_none());
    assert_eq!(answers.first_task_priority, TaskPriority::Medium);
}

#[test]
fn wizard_menus_map_indices() {
    assert_eq!(wizard_runner(0), Runner::Claude);
    assert_eq!(wizard_runner(1), Runner::Codex);
    assert_eq!(wizard_runner(2), Runner::Opencode);
    assert_eq!(wizard_runner(3), Runner::Gemini);
    assert_eq!(wizard_runner(4), Runner::Cursor);
    assert_eq!(wizard_runner(9), Runner::Claude);
    assert_eq!(wizard_phases(0), 3);
    assert_eq!(wizard_phases(1), 2);
    assert_eq!(wizard_phases(2), 1);
    assert_eq!(wizard_phases(7), 3);
    assert_eq!(wizard_priority(0), TaskPriority::Low);
    assert_eq!(wizard_priority(1), TaskPriority::Medium);
    assert_eq!(wizard_priority(2), TaskPriority::High);
    assert_eq!(wizard_priority(3), TaskPriority::Critical);
    assert_eq!(wizard_priority(4), TaskPriority::Medium);
}

#[test]
fn wizard_model_menu_per_runner() {
    assert_eq!(
        wizard_model_names(Runner::Claude),
        vec!["sonnet", "opus", "haiku", "custom"]
    );
    assert_eq!(
        wizard_model_names(Runner::Codex),
        vec!["gpt-5.2-codex", "gpt-5.2", "custom"]
    );
    assert_eq!(
        wizard_model_names(Runner::Gemini),
        vec!["zai-coding-plan/glm-4.7", "custom"]
    );
    assert_eq!(wizard_model_names(Runner::Kimi), vec!["default", "custom"]);
}

#[test]
fn first_task_id_is_zero_padded() {
    assert_eq!(format_task_id("RQ", 1, 4), "RQ-0001");
    assert_eq!(format_task_id("RQ", 12345, 4), "RQ-12345");
    assert_eq!(format_task_id("T", 7, 0), "T-7");
}

#[test]
fn init_interactive_mode_follows_flags_then_tty() {
    let base = InitArgs {
        force: false,
        interactive: false,
        non_interactive: false,
        update_readme: false,
        check: false,
    };
    assert!(base.interactive_mode(true));
    assert!(!base.interactive_mode(false));
    let explicit = InitArgs {
        interactive: true,
        non_interactive: true,
        ..base
    };
    assert!(explicit.interactive_mode(false));
    let quiet = InitArgs {
        non_interactive: true,
        ..base
    };
    assert!(!quiet.interactive_mode(true));
}

#[test]
fn init_report_lines() {
    assert_eq!(
        status_line("queue", FileInitStatus::Created, ".ralph/queue.jsonc"),
        "queue: created (.ralph/queue.jsonc)"
    );
    assert_eq!(
        status_line("done", FileInitStatus::Valid, "d"),
        "done: exists (valid) (d)"
    );
    assert_eq!(
        readme_status_line(FileInitStatus::Created, Some(6), "r.md"),
        "readme: created (version 6) (r.md)"
    );
    assert_eq!(
        readme_status_line(FileInitStatus::Valid, None, "r.md"),
        "readme: exists (valid) (r.md)"
    );
    assert_eq!(
        readme_status_line(FileInitStatus::Updated, None, "r.md"),
        "readme: updated (r.md)"
    );
}

#[test]
fn existing_files_are_kept_unless_forced() {
    assert_eq!(ralph::init::init_file_status(true, false), ralph::init::FileInitStatus::Valid);
    assert_eq!(ralph::init::init_file_status(true, true), ralph::init::FileInitStatus::Created);
    assert_eq!(ralph::init::init_file_status(false, false), ralph::init::FileInitStatus::Created);
}
