//! Command-line argument values and the decisions their handlers make from
//! them before any file or process work: flag conflicts, which queues a
//! search reads, interactive mode, browse-only TUI mode, undo actions and
//! the status lines `init` reports.
use vstd::prelude::*;
use crate::contracts::TaskStatus;
use crate::init::FileInitStatus;
use crate::text::{push_str, push_decimal, decimal};

verus! {

/// Task status as given on the command line.
#[derive(Debug, Clone, Copy, PartialEq, Eq, Structural)]
pub enum StatusArg {
    /// Task is a draft and not ready to run.
    Draft,
    /// Task is waiting to be started.
    Todo,
    /// Task is currently being worked on.
    Doing,
    /// Task is complete.
    Done,
    /// Task was rejected (dependents can proceed).
    Rejected,
}

impl StatusArg {
    /// The task status this argument names.
    pub fn task_status(self) -> (r: TaskStatus)
        ensures
            r == match self {
                StatusArg::Draft => TaskStatus::Draft,
                StatusArg::Todo => TaskStatus::Todo,
                StatusArg::Doing => TaskStatus::Doing,
                StatusArg::Done => TaskStatus::Done,
                StatusArg::Rejected => TaskStatus::Rejected,
            },
    {
        match self {
            StatusArg::Draft => TaskStatus::Draft,
            StatusArg::Todo => TaskStatus::Todo,
            StatusArg::Doing => TaskStatus::Doing,
            StatusArg::Done => TaskStatus::Done,
            StatusArg::Rejected => TaskStatus::Rejected,
        }
    }
}

/// Output format of `queue show`.
#[derive(Debug, Clone, Copy, PartialEq, Eq, Structural)]
pub enum QueueShowFormat {
    /// Full JSON representation of the task.
    Json,
    /// Compact tab-separated summary (ID, status, title).
    Compact,
}

/// Output format of `queue list` and `queue search`.
#[derive(Debug, Clone, Copy, PartialEq, Eq, Structural)]
pub enum QueueListFormat {
    /// Compact tab-separated summary (ID, status, title).
    Compact,
    /// Detailed tab-separated format including tags, scope, and timestamps.
    Long,
}

/// Output format of queue reports.
#[derive(Debug, Clone, Copy, PartialEq, Eq, Structural)]
pub enum QueueReportFormat {
    /// Human-readable report output.
    Text,
    /// JSON output for scripting.
    Json,
}

/// Field `queue sort` orders by.
#[derive(Debug, Clone, Copy, PartialEq, Eq, Structural)]
pub enum QueueSortBy {
    /// Sort by priority.
    Priority,
}

impl QueueSortBy {
    /// The name shown for the field.
    pub fn as_str(self) -> (r: &'static str)
        ensures
            r@ == "priority"@,
    {
        match self {
            QueueSortBy::Priority => "priority",
        }
    }
}

/// Sort direction.
#[derive(Debug, Clone, Copy, PartialEq, Eq, Structural)]
pub enum QueueSortOrder {
    Ascending,
    Descending,
}

impl QueueSortOrder {
    pub fn is_descending(self) -> (r: bool)
        ensures
            r == (self == QueueSortOrder::Descending),
    {
        matches!(self, QueueSortOrder::Descending)
    }

    /// The name shown for the order.
    pub fn as_str(self) -> (r: &'static str)
        ensures
            r@ == (if self == QueueSortOrder::Ascending {
                "ascending"@
            } else {
                "descending"@
            }),
    {
        match self {
            QueueSortOrder::Ascending => "ascending",
            QueueSortOrder::Descending => "descending",
        }
    }
}

/// Arguments of `queue sort`.
#[derive(Debug, Clone, Copy, PartialEq, Eq, Structural)]
pub struct QueueSortArgs {
    /// Sort by field (priority only; reorders the queue file).
    pub sort_by: QueueSortBy,
    /// Sort order.
    pub order: QueueSortOrder,
}

impl Default for QueueSortArgs {
    /// Priority, highest first.
    fn default() -> (r: Self)
        ensures
            r.sort_by == QueueSortBy::Priority,
            r.order == QueueSortOrder::Descending,
    {
        QueueSortArgs { sort_by: QueueSortBy::Priority, order: QueueSortOrder::Descending }
    }
}

/// Arguments of `queue stats`.
#[derive(Debug, Clone)]
pub struct QueueStatsArgs {
    /// Filter by tag (repeatable, case-insensitive).
    pub tag: Vec<String>,
    /// Output format.
    pub format: QueueReportFormat,
}

/// Arguments of `queue search`.
#[derive(Debug, Clone)]
pub struct QueueSearchArgs {
    /// Search query (substring or regex pattern).
    pub query: String,
    /// Interpret query as a regular expression.
    pub regex: bool,
    /// Case-sensitive search (default: case-insensitive).
    pub match_case: bool,
    /// Filter by status (repeatable).
    pub status: Vec<StatusArg>,
    /// Filter by tag (repeatable, case-insensitive).
    pub tag: Vec<String>,
    /// Filter by scope token (repeatable, case-insensitive; substring match).
    pub scope: Vec<String>,
    /// Include tasks from the done file in the search.
    pub include_done: bool,
    /// Only search tasks in the done file (ignores the active queue).
    pub only_done: bool,
    /// Output format.
    pub format: QueueListFormat,
    /// Maximum results to show (0 = no limit).
    pub limit: u32,
    /// Show all results (ignores the limit).
    pub all: bool,
}

/// Which queues a search reads.
#[derive(Debug, Clone, Copy, PartialEq, Eq, Structural)]
pub struct SearchSources {
    /// Search the active queue.
    pub active: bool,
    /// Search the done file.
    pub done: bool,
}

pub open spec fn search_conflict_message() -> Seq<char> {
    "Conflicting flags: --include-done and --only-done are mutually exclusive. Choose either to include done tasks or to only search done tasks."@
}

impl QueueSearchArgs {
    /// The queues to search: `--include-done` and `--only-done` exclude each
    /// other; the active queue is searched unless `--only-done`, the done
    /// file when either flag is given.
    pub fn sources(&self) -> (r: Result<SearchSources, String>)
        ensures
            self.include_done && self.only_done <==> r is Err,
            r matches Err(m) ==> m@ == search_conflict_message(),
            r matches Ok(s) ==> s.active == !self.only_done && s.done == (self.include_done || self.only_done),
    {
        if self.include_done && self.only_done {
            return Err(String::from_str(
                "Conflicting flags: --include-done and --only-done are mutually exclusive. Choose either to include done tasks or to only search done tasks.",
            ));
        }
        Ok(SearchSources { active: !self.only_done, done: self.include_done || self.only_done })
    }
}

/// Whether the done file is used: when it holds tasks or exists on disk.
pub fn use_done_queue(done_has_tasks: bool, done_file_exists: bool) -> (r: bool)
    ensures
        r == (done_has_tasks || done_file_exists),
{
    done_has_tasks || done_file_exists
}

/// Arguments of `tui`.
#[derive(Debug, Clone, Copy, PartialEq, Eq, Structural)]
pub struct TuiArgs {
    /// Disable task execution (browse/edit only).
    pub read_only: bool,
}

/// How the TUI is launched.
#[derive(Debug, Clone, Copy, PartialEq, Eq, Structural)]
pub enum TuiMode {
    /// Runs and scans are refused.
    BrowseOnly,
    /// Runs and scans use the resolved agent settings.
    Execute,
}

/// The TUI launch mode: browse-only with `--read-only`, else executing.
pub fn handle_tui(args: &TuiArgs) -> (r: TuiMode)
    ensures
        r == (if args.read_only {
            TuiMode::BrowseOnly
        } else {
            TuiMode::Execute
        }),
{
    if args.read_only {
        TuiMode::BrowseOnly
    } else {
        TuiMode::Execute
    }
}

pub open spec fn browse_only_run_message() -> Seq<char> {
    "Task execution is disabled in read-only mode. Re-run without `--read-only`."@
}

pub open spec fn browse_only_scan_message() -> Seq<char> {
    "Scan is disabled in read-only mode. Re-run without `--read-only`."@
}

/// A deferred action that always fails with its message.
#[derive(Debug, Clone)]
pub struct RefusedAction {
    pub message: String,
}

impl RefusedAction {
    /// Runs the action: it fails with the stored message.
    pub fn run(self) -> (r: Result<(), String>)
        ensures
            r matches Err(m) && m == self.message,
    {
        Err(self.message)
    }
}

/// The task runner of a read-only TUI: running any task fails.
pub fn browse_only_runner(task_id: String) -> (r: RefusedAction)
    ensures
        r.message@ == browse_only_run_message(),
{
    RefusedAction {
        message: String::from_str(
            "Task execution is disabled in read-only mode. Re-run without `--read-only`.",
        ),
    }
}

/// The scan runner of a read-only TUI: any scan fails.
pub fn browse_only_scan_runner(focus: String) -> (r: RefusedAction)
    ensures
        r.message@ == browse_only_scan_message(),
{
    RefusedAction {
        message: String::from_str("Scan is disabled in read-only mode. Re-run without `--read-only`."),
    }
}

/// Arguments of `undo`.
#[derive(Debug, Clone)]
pub struct UndoArgs {
    /// Snapshot ID to restore (defaults to most recent).
    pub id: Option<String>,
    /// List available snapshots instead of restoring.
    pub list: bool,
    /// Preview restore without modifying files.
    pub dry_run: bool,
    /// Show verbose output.
    pub verbose: bool,
}

impl UndoArgs {
    /// The heading printed before the restored snapshot's details.
    pub fn restore_heading(&self) -> (r: &'static str)
        ensures
            r@ == (if self.dry_run {
                "Dry run - would restore from snapshot:"@
            } else {
                "Restored from snapshot:"@
            }),
    {
        if self.dry_run {
            "Dry run - would restore from snapshot:"
        } else {
            "Restored from snapshot:"
        }
    }

    /// Whether to print the hint to list the restored queue: verbose, and
    /// not a dry run.
    pub fn shows_list_hint(&self) -> (r: bool)
        ensures
            r == (self.verbose && !self.dry_run),
    {
        self.verbose && !self.dry_run
    }
}

/// Arguments of `init`.
#[derive(Debug, Clone, Copy, PartialEq, Eq, Structural)]
pub struct InitArgs {
    /// Overwrite existing files if they already exist.
    pub force: bool,
    /// Run interactive onboarding wizard (auto-detected if TTY).
    pub interactive: bool,
    /// Skip interactive prompts even if running in a TTY.
    pub non_interactive: bool,
    /// Update README if it exists (force overwrite with latest template).
    pub update_readme: bool,
    /// Check if README is current and exit.
    pub check: bool,
}

impl InitArgs {
    /// Whether `init` runs the wizard: `--interactive` wins, then
    /// `--non-interactive`, else whether stdout is a terminal.
    pub fn interactive_mode(&self, stdout_is_tty: bool) -> (r: bool)
        ensures
            r == (if self.interactive {
                true
            } else if self.non_interactive {
                false
            } else {
                stdout_is_tty
            }),
    {
        if self.interactive {
            true
        } else if self.non_interactive {
            false
        } else {
            stdout_is_tty
        }
    }
}

/// How a file status reads in the `init` report.
pub open spec fn status_word(status: FileInitStatus) -> Seq<char> {
    match status {
        FileInitStatus::Created => "created"@,
        FileInitStatus::Valid => "exists (valid)"@,
        FileInitStatus::Updated => "updated"@,
    }
}

/// `label: <status> (path)`.
pub open spec fn status_line_text(label: Seq<char>, status: FileInitStatus, path: Seq<char>) -> Seq<char> {
    label + ": "@ + status_word(status) + " ("@ + path + ")"@
}

/// The report line for one initialized file.
pub fn status_line(label: &str, status: FileInitStatus, path: &str) -> (r: String)
    ensures
        r@ == status_line_text(label@, status, path@),
{
    let mut r = String::from_str(label);
    push_str(&mut r, ": ");
    push_str(
        &mut r,
        match status {
            FileInitStatus::Created => "created",
            FileInitStatus::Valid => "exists (valid)",
            FileInitStatus::Updated => "updated",
        },
    );
    push_str(&mut r, " (");
    push_str(&mut r, path);
    push_str(&mut r, ")");
    r
}

/// How a README status reads, with its version when known.
pub open spec fn readme_status_text(status: FileInitStatus, version: Option<u32>, path: Seq<char>) -> Seq<char> {
    let word = match status {
        FileInitStatus::Created => "created"@,
        FileInitStatus::Valid => "exists"@,
        FileInitStatus::Updated => "updated"@,
    };
    match version {
        Some(v) => "readme: "@ + word + " (version "@ + decimal(v as nat) + ") ("@ + path + ")"@,
        None => "readme: "@ + (if status == FileInitStatus::Valid {
            "exists (valid)"@
        } else {
            word
        }) + " ("@ + path + ")"@,
    }
}

/// The report line for the README.
pub fn readme_status_line(status: FileInitStatus, version: Option<u32>, path: &str) -> (r: String)
    ensures
        r@ == readme_status_text(status, version, path@),
{
    let word = match status {
        FileInitStatus::Created => "created",
        FileInitStatus::Valid => "exists",
        FileInitStatus::Updated => "updated",
    };
    let mut r = String::from_str("readme: ");
    match version {
        Some(v) => {
            push_str(&mut r, word);
            push_str(&mut r, " (version ");
            push_decimal(&mut r, v as u64);
            push_str(&mut r, ") (");
        },
        None => {
            if status == FileInitStatus::Valid {
                push_str(&mut r, "exists (valid)");
            } else {
                push_str(&mut r, word);
            }
            push_str(&mut r, " (");
        },
    }
    push_str(&mut r, path);
    push_str(&mut r, ")");
    r
}

/// What `init --check` found of the runtime README.
#[derive(Debug, Clone, Copy, PartialEq, Eq, Structural)]
pub enum ReadmeCheckResult {
    /// Up to date, at this version.
    Current(u32),
    /// Older than the template embedded in this build.
    Outdated { current_version: u32, embedded_version: u32 },
    /// Not there (a normal init would create it).
    Missing,
    /// The prompts do not reference a README.
    NotApplicable,
}

/// The line `init --check` reports and its exit code: 0 when the README is
/// current or not applicable, 1 when it is outdated or missing.
pub open spec fn readme_check_report(c: ReadmeCheckResult) -> (Seq<char>, i32) {
    match c {
        ReadmeCheckResult::Current(v) => ("readme: current (version "@ + decimal(v as nat) + ")"@, 0),
        ReadmeCheckResult::Outdated { current_version, embedded_version } => (
            "readme: outdated (current version "@ + decimal(current_version as nat)
                + ", embedded version "@ + decimal(embedded_version as nat) + ")"@,
            1,
        ),
        ReadmeCheckResult::Missing => ("readme: missing (would be created on normal init)"@, 1),
        ReadmeCheckResult::NotApplicable => (
            "readme: not applicable (prompts don't reference README)"@,
            0,
        ),
    }
}

/// What `init --check` reports for a README check, and the exit code.
pub fn readme_check_outcome(c: ReadmeCheckResult) -> (r: (String, i32))
    ensures
        r.0@ == readme_check_report(c).0,
        r.1 == readme_check_report(c).1,
{
    match c {
        ReadmeCheckResult::Current(v) => {
            let mut m = String::from_str("readme: current (version ");
            push_decimal(&mut m, v as u64);
            push_str(&mut m, ")");
            (m, 0)
        },
        ReadmeCheckResult::Outdated { current_version, embedded_version } => {
            let mut m = String::from_str("readme: outdated (current version ");
            push_decimal(&mut m, current_version as u64);
            push_str(&mut m, ", embedded version ");
            push_decimal(&mut m, embedded_version as u64);
            push_str(&mut m, ")");
            (m, 1)
        },
        ReadmeCheckResult::Missing => (String::from_str("readme: missing (would be created on normal init)"), 1),
        ReadmeCheckResult::NotApplicable => (
            String::from_str("readme: not applicable (prompts don't reference README)"),
            0,
        ),
    }
}

} // verus!
