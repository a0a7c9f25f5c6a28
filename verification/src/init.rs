//! Initialization: options and report of `init`, the onboarding wizard's
//! answers and choices, and the id of the first task it creates.
use vstd::prelude::*;
use crate::contracts::{Runner, TaskPriority};
use crate::text::{push_str, push_char, push_decimal, decimal};

verus! {

/// Options for initializing the runtime files.
#[derive(Debug, Clone, Copy)]
pub struct InitOptions {
    /// Overwrite existing files if they already exist.
    pub force: bool,
    /// Force remove stale locks.
    pub force_lock: bool,
    /// Run interactive onboarding wizard.
    pub interactive: bool,
    /// Update README if it exists (force overwrite with latest template).
    pub update_readme: bool,
}

/// What initialization did to one file.
#[derive(Debug, Clone, Copy, PartialEq, Eq, Structural)]
pub enum FileInitStatus {
    Created,
    Valid,
    Updated,
}

/// What initialization does with one runtime file: an existing file is
/// kept and only validated (`Valid`) unless `force` is set; otherwise the
/// file is written afresh (`Created`).
pub fn init_file_status(exists: bool, force: bool) -> (r: FileInitStatus)
    ensures
        r == (if exists && !force {
            FileInitStatus::Valid
        } else {
            FileInitStatus::Created
        }),
{
    if exists && !force {
        FileInitStatus::Valid
    } else {
        FileInitStatus::Created
    }
}

/// Outcome of initialization.
#[derive(Debug, Clone)]
pub struct InitReport {
    pub queue_status: FileInitStatus,
    pub done_status: FileInitStatus,
    pub config_status: FileInitStatus,
    /// README status and, when the README was read or created, its version.
    pub readme_status: Option<(FileInitStatus, Option<u32>)>,
    /// Paths actually used for the files.
    pub queue_path: String,
    pub done_path: String,
    pub config_path: String,
}

/// Answers collected from the interactive wizard.
#[derive(Debug, Clone)]
pub struct WizardAnswers {
    /// Selected AI runner.
    pub runner: Runner,
    /// Selected model.
    pub model: String,
    /// Number of phases (1, 2, or 3).
    pub phases: u8,
    /// Whether to create a first task.
    pub create_first_task: bool,
    /// Title for the first task (if created).
    pub first_task_title: Option<String>,
    /// Description/request for the first task (if created).
    pub first_task_description: Option<String>,
    /// Priority for the first task.
    pub first_task_priority: TaskPriority,
}

impl Default for WizardAnswers {
    /// The recommended runner with `sonnet`, three phases, no first task
    /// (medium priority).
    fn default() -> (r: Self)
        ensures
            r.runner == Runner::Claude,
            r.model@ == "sonnet"@,
            r.phases == 3,
            !r.create_first_task,
            r.first_task_title is None,
            r.first_task_description is None,
            r.first_task_priority == TaskPriority::Medium,
    {
        WizardAnswers {
            runner: Runner::Claude,
            model: String::from_str("sonnet"),
            phases: 3,
            create_first_task: false,
            first_task_title: None,
            first_task_description: None,
            first_task_priority: TaskPriority::Medium,
        }
    }
}

/// The runner offered at each position of the wizard's runner menu
/// (in menu order); the first runner past the end.
pub open spec fn runner_choice(index: nat) -> Runner {
    if index == 1 {
        Runner::Codex
    } else if index == 2 {
        Runner::Opencode
    } else if index == 3 {
        Runner::Gemini
    } else if index == 4 {
        Runner::Cursor
    } else {
        Runner::Claude
    }
}

/// The runner picked at `index` of the wizard's runner menu.
pub fn wizard_runner(index: usize) -> (r: Runner)
    ensures
        r == runner_choice(index as nat),
{
    match index {
        1 => Runner::Codex,
        2 => Runner::Opencode,
        3 => Runner::Gemini,
        4 => Runner::Cursor,
        _ => Runner::Claude,
    }
}

/// The phase count picked at `index` of the workflow menu (3, 2, 1; 3 past
/// the end).
pub fn wizard_phases(index: usize) -> (r: u8)
    ensures
        r == (if index == 1 {
            2u8
        } else if index == 2 {
            1u8
        } else {
            3u8
        }),
{
    match index {
        1 => 2,
        2 => 1,
        _ => 3,
    }
}

/// The priority picked at `index` of the priority menu (Low, Medium, High,
/// Critical; Medium past the end).
pub fn wizard_priority(index: usize) -> (r: TaskPriority)
    ensures
        r == (if index == 0 {
            TaskPriority::Low
        } else if index == 2 {
            TaskPriority::High
        } else if index == 3 {
            TaskPriority::Critical
        } else {
            TaskPriority::Medium
        }),
{
    match index {
        0 => TaskPriority::Low,
        2 => TaskPriority::High,
        3 => TaskPriority::Critical,
        _ => TaskPriority::Medium,
    }
}

/// The model names the wizard offers for a runner, in menu order; the last
/// one, `custom`, asks for a name.
pub open spec fn model_menu(runner: Runner) -> Seq<Seq<char>> {
    match runner {
        Runner::Claude => seq!["sonnet"@, "opus"@, "haiku"@, "custom"@],
        Runner::Codex => seq!["gpt-5.2-codex"@, "gpt-5.2"@, "custom"@],
        Runner::Gemini => seq!["zai-coding-plan/glm-4.7"@, "custom"@],
        _ => seq!["default"@, "custom"@],
    }
}

/// The model names offered for `runner`.
pub fn wizard_model_names(runner: Runner) -> (r: Vec<&'static str>)
    ensures
        r@.map_values(|s: &'static str| s@) == model_menu(runner),
{
    let r = match runner {
        Runner::Claude => vec!["sonnet", "opus", "haiku", "custom"],
        Runner::Codex => vec!["gpt-5.2-codex", "gpt-5.2", "custom"],
        Runner::Gemini => vec!["zai-coding-plan/glm-4.7", "custom"],
        _ => vec!["default", "custom"],
    };
    assert(r@.map_values(|s: &'static str| s@) =~= model_menu(runner));
    r
}

/// `n` copies of `c`.
pub open spec fn repeat_char(c: char, n: nat) -> Seq<char>
    decreases n,
{
    if n == 0 {
        Seq::empty()
    } else {
        repeat_char(c, (n - 1) as nat).push(c)
    }
}

/// The decimal digits of `n`, left-padded with zeros to `width`.
pub open spec fn zero_padded(n: nat, width: nat) -> Seq<char> {
    let d = decimal(n);
    if d.len() >= width {
        d
    } else {
        repeat_char('0', (width - d.len()) as nat) + d
    }
}

/// A task id: the prefix, a hyphen and the zero-padded number
/// (`RQ-0001` for prefix `RQ`, number 1, width 4).
pub open spec fn task_id_text(prefix: Seq<char>, number: nat, width: nat) -> Seq<char> {
    prefix + "-"@ + zero_padded(number, width)
}

/// Formats a task id (see `task_id_text`).
pub fn format_task_id(prefix: &str, number: u64, width: usize) -> (r: String)
    ensures
        r@ == task_id_text(prefix@, number as nat, width as nat),
{
    let mut digits = String::new();
    push_decimal(&mut digits, number);
    assert(digits@ == decimal(number as nat));
    let len = digits.as_str().unicode_len();
    let mut r = String::from_str(prefix);
    push_str(&mut r, "-");
    let ghost base = r@;
    if len < width {
        let pad = width - len;
        let mut k: usize = 0;
        assert(repeat_char('0', 0) =~= Seq::<char>::empty());
        assert(r@ =~= base + repeat_char('0', 0));
        while k < pad
            invariant
                k <= pad,
                r@ == base + repeat_char('0', k as nat),
            decreases pad - k,
        {
            push_char(&mut r, '0');
            k = k + 1;
            assert(r@ =~= base + repeat_char('0', k as nat));
        }
    }
    push_str(&mut r, digits.as_str());
    r
}

} // verus!
