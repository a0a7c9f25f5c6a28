//! The sequential run loop as a state machine: which step comes next after
//! the loop starts, after each task run and after each wait for work. The
//! caller performs the steps (run a task, wait, persist progress, notify).
//!
//! Failures that cannot resolve themselves (interrupt, user revert, queue
//! lock contention, dirty repository, invalid queue) end the loop at once;
//! other failures are counted, and the loop gives up after
//! `MAX_CONSECUTIVE_FAILURES` of them in a row.
use vstd::prelude::*;
use crate::text::{push_str, push_decimal, decimal};
use crate::contracts::TaskStatus;

verus! {

/// Consecutive task failures after which the loop gives up.
pub const MAX_CONSECUTIVE_FAILURES: u32 = 50;

/// Options of a run loop.
#[derive(Debug, Clone, Copy, PartialEq, Eq, Structural)]
pub struct RunLoopOptions {
    /// 0 means "no limit".
    pub max_tasks: u32,
    /// Take the queue lock even when it is held.
    pub force: bool,
    /// Auto-resume without prompting (for --resume).
    pub auto_resume: bool,
    /// Starting completed count (for resumed sessions).
    pub starting_completed: u32,
    /// Skip interactive prompts (for CI/non-interactive runs).
    pub non_interactive: bool,
    /// Number of parallel workers to use when parallel mode is enabled.
    pub parallel_workers: Option<u8>,
    /// Wait when blocked by dependencies/schedule instead of exiting.
    pub wait_when_blocked: bool,
    /// Poll interval in milliseconds while waiting.
    pub wait_poll_ms: u64,
    /// Timeout in seconds for waiting (0 = no timeout).
    pub wait_timeout_seconds: u64,
    /// Notify when queue becomes unblocked.
    pub notify_when_unblocked: bool,
    /// Wait when queue is empty instead of exiting (continuous mode).
    pub wait_when_empty: bool,
    /// Poll interval in milliseconds while waiting on an empty queue.
    pub empty_poll_ms: u64,
    /// Also run draft tasks (from the agent overrides).
    pub include_draft: Option<bool>,
}

/// Counts of a blocked queue.
#[derive(Debug, Clone, Copy, PartialEq, Eq, Structural)]
pub struct QueueSummary {
    pub runnable_candidates: u32,
    pub blocked_by_dependencies: u32,
    pub blocked_by_schedule: u32,
}

/// Why a task run failed, as far as the loop cares.
#[derive(Debug, Clone, Copy, PartialEq, Eq, Structural)]
pub enum FailureKind {
    /// The run was interrupted.
    Interrupted,
    /// The user asked to revert.
    UserRevert,
    /// The queue lock is held by another process.
    LockHeld,
    /// The repository is dirty.
    DirtyRepo,
    /// The queue does not validate.
    QueueValidation,
    /// Anything else; worth retrying with the next task.
    Other,
}

/// What one task run reported.
#[derive(Debug, Clone, Copy, PartialEq, Eq, Structural)]
pub enum RunOutcome {
    NoCandidates,
    Blocked(QueueSummary),
    Ran,
    Failed(FailureKind),
}

/// What a wait for work waits for.
#[derive(Debug, Clone, Copy, PartialEq, Eq, Structural)]
pub enum WaitMode {
    /// Also wait while the queue is empty.
    EmptyAllowed,
    /// Only wait while tasks are blocked.
    BlockedOnly,
}

/// How a wait for work ended.
#[derive(Debug, Clone, Copy, PartialEq, Eq, Structural)]
pub enum WaitExit {
    RunnableAvailable(QueueSummary),
    NoCandidates,
    TimedOut,
    StopRequested,
}

/// Why the loop ended normally.
#[derive(Debug, Clone, Copy, PartialEq, Eq, Structural)]
pub enum LoopEnd {
    /// The task limit was reached.
    ReachedMaxTasks,
    /// A stop signal was found before a task (the caller clears it).
    StopSignal,
    /// No todo tasks remain.
    NoMoreTasks,
    /// Every remaining task is blocked and waiting was not asked for.
    Blocked(QueueSummary),
    /// A wait timed out.
    WaitTimedOut,
    /// The queue became empty while waiting on blocked tasks.
    QueueEmptied,
    /// A stop was requested while waiting.
    StopRequested,
}

/// The next step of the loop.
#[derive(Debug, Clone, Copy, PartialEq, Eq, Structural)]
pub enum LoopAction {
    /// Run the next task.
    RunTask,
    /// Go back to the top of the loop.
    Continue,
    /// Wait for work, then report how the wait ended.
    Wait { mode: WaitMode, timeout_seconds: u64 },
    /// Stop normally.
    End(LoopEnd),
    /// Stop with the failure of the last run.
    Abort(FailureKind),
    /// Stop after too many consecutive failures.
    AbortAfterFailures,
}

/// Counters of a running loop.
#[derive(Debug, Clone, Copy, PartialEq, Eq, Structural)]
pub struct RunLoopState {
    /// Tasks completed (or failed) in this session, including resumed ones.
    pub completed: u32,
    /// Todo tasks when the loop started.
    pub initial_todo_count: u32,
    pub tasks_attempted: u32,
    pub tasks_succeeded: u32,
    pub tasks_failed: u32,
    pub consecutive_failures: u32,
}

/// How a run starts.
#[derive(Debug, Clone, Copy, PartialEq, Eq, Structural)]
pub enum LoopStart {
    /// Hand over to the parallel loop; the flags say which sequential
    /// options it ignores (and warns about).
    Parallel { workers: u8, ignores_resume: bool, ignores_starting_completed: bool },
    /// Nothing to run and no waiting asked for.
    NothingToDo,
    /// Run the sequential loop from this state.
    Sequential(RunLoopState),
}

/// The worker count in effect: the option, else the configured one.
pub open spec fn effective_workers(opts: RunLoopOptions, configured: Option<u8>) -> Option<u8> {
    match opts.parallel_workers {
        Some(w) => Some(w),
        None => configured,
    }
}

/// How the loop starts: parallel with two or more workers; otherwise
/// nothing to do when no task is todo and no session resumes (unless
/// waiting on an empty queue), else sequential with the given counters.
pub open spec fn loop_start(
    opts: RunLoopOptions,
    configured_workers: Option<u8>,
    todo_count: u32,
    resuming: bool,
    completed: u32,
) -> LoopStart {
    match effective_workers(opts, configured_workers) {
        Some(w) if w >= 2 => LoopStart::Parallel {
            workers: w,
            ignores_resume: opts.auto_resume,
            ignores_starting_completed: opts.starting_completed != 0,
        },
        _ => if todo_count == 0 && !resuming && !opts.wait_when_empty {
            LoopStart::NothingToDo
        } else {
            LoopStart::Sequential(RunLoopState {
                completed,
                initial_todo_count: todo_count,
                tasks_attempted: 0,
                tasks_succeeded: 0,
                tasks_failed: 0,
                consecutive_failures: 0,
            })
        },
    }
}

/// Starts a run: `todo_count` counts the todo tasks (and drafts when asked
/// for), `resuming` tells whether a session resumes, and `completed` is the
/// count kept by it (else the starting count).
pub fn run_loop(
    opts: &RunLoopOptions,
    configured_workers: Option<u8>,
    todo_count: u32,
    resuming: bool,
    completed: u32,
) -> (r: LoopStart)
    ensures
        r == loop_start(*opts, configured_workers, todo_count, resuming, completed),
{
    let workers = match opts.parallel_workers {
        Some(w) => Some(w),
        None => configured_workers,
    };
    if let Some(w) = workers {
        if w >= 2 {
            return LoopStart::Parallel {
                workers: w,
                ignores_resume: opts.auto_resume,
                ignores_starting_completed: opts.starting_completed != 0,
            };
        }
    }
    if todo_count == 0 && !resuming && !opts.wait_when_empty {
        return LoopStart::NothingToDo;
    }
    LoopStart::Sequential(RunLoopState {
        completed,
        initial_todo_count: todo_count,
        tasks_attempted: 0,
        tasks_succeeded: 0,
        tasks_failed: 0,
        consecutive_failures: 0,
    })
}

/// The step at the top of the loop: stop at the task limit, then on a stop
/// signal, else run a task.
pub open spec fn loop_top(s: RunLoopState, opts: RunLoopOptions, stop_signal: bool) -> LoopAction {
    if opts.max_tasks != 0 && s.completed >= opts.max_tasks {
        LoopAction::End(LoopEnd::ReachedMaxTasks)
    } else if stop_signal {
        LoopAction::End(LoopEnd::StopSignal)
    } else {
        LoopAction::RunTask
    }
}

/// Failures that end the loop at once.
pub open spec fn non_retriable(kind: FailureKind) -> bool {
    kind != FailureKind::Other
}

/// The counters after a task run.
pub open spec fn state_after_run(s: RunLoopState, outcome: RunOutcome) -> RunLoopState {
    match outcome {
        RunOutcome::Ran => RunLoopState {
            completed: (s.completed + 1) as u32,
            tasks_attempted: (s.tasks_attempted + 1) as u32,
            tasks_succeeded: (s.tasks_succeeded + 1) as u32,
            consecutive_failures: 0,
            ..s
        },
        RunOutcome::Failed(FailureKind::Other) => RunLoopState {
            completed: (s.completed + 1) as u32,
            tasks_attempted: (s.tasks_attempted + 1) as u32,
            tasks_failed: (s.tasks_failed + 1) as u32,
            consecutive_failures: (s.consecutive_failures + 1) as u32,
            ..s
        },
        _ => s,
    }
}

/// The step after a task run.
pub open spec fn action_after_run(s: RunLoopState, opts: RunLoopOptions, outcome: RunOutcome) -> LoopAction {
    match outcome {
        RunOutcome::NoCandidates => if opts.wait_when_empty {
            LoopAction::Wait { mode: WaitMode::EmptyAllowed, timeout_seconds: 0 }
        } else {
            LoopAction::End(LoopEnd::NoMoreTasks)
        },
        RunOutcome::Blocked(summary) => if opts.wait_when_blocked || opts.wait_when_empty {
            LoopAction::Wait {
                mode: if opts.wait_when_empty {
                    WaitMode::EmptyAllowed
                } else {
                    WaitMode::BlockedOnly
                },
                timeout_seconds: opts.wait_timeout_seconds,
            }
        } else {
            LoopAction::End(LoopEnd::Blocked(summary))
        },
        RunOutcome::Ran => LoopAction::Continue,
        RunOutcome::Failed(kind) => if non_retriable(kind) {
            LoopAction::Abort(kind)
        } else if s.consecutive_failures + 1 >= MAX_CONSECUTIVE_FAILURES {
            LoopAction::AbortAfterFailures
        } else {
            LoopAction::Continue
        },
    }
}

/// The step after a wait for work; `waited_on_empty` tells whether the wait
/// followed an empty queue (rather than blocked tasks).
pub open spec fn action_after_wait(waited_on_empty: bool, exit: WaitExit) -> LoopAction {
    match exit {
        WaitExit::RunnableAvailable(_) => LoopAction::Continue,
        WaitExit::NoCandidates => if waited_on_empty {
            LoopAction::Continue
        } else {
            LoopAction::End(LoopEnd::QueueEmptied)
        },
        WaitExit::TimedOut => LoopAction::End(LoopEnd::WaitTimedOut),
        WaitExit::StopRequested => LoopAction::End(LoopEnd::StopRequested),
    }
}

/// The counters leave room for one more run.
pub open spec fn room_for_run(s: RunLoopState) -> bool {
    &&& s.completed < u32::MAX
    &&& s.tasks_attempted < u32::MAX
    &&& s.tasks_succeeded < u32::MAX
    &&& s.tasks_failed < u32::MAX
    &&& s.consecutive_failures < u32::MAX
}

impl RunLoopState {
    /// The step at the top of the loop (see `loop_top`).
    pub fn next_step(&self, opts: &RunLoopOptions, stop_signal: bool) -> (r: LoopAction)
        ensures
            r == loop_top(*self, *opts, stop_signal),
    {
        if opts.max_tasks != 0 && self.completed >= opts.max_tasks {
            LoopAction::End(LoopEnd::ReachedMaxTasks)
        } else if stop_signal {
            LoopAction::End(LoopEnd::StopSignal)
        } else {
            LoopAction::RunTask
        }
    }

    /// Records a task run and returns the next step (see `state_after_run`
    /// and `action_after_run`). A run that counts (success or retriable
    /// failure) is also the caller's cue to persist session progress.
    pub fn record_run(&mut self, opts: &RunLoopOptions, outcome: RunOutcome) -> (r: LoopAction)
        requires
            room_for_run(*old(self)),
        ensures
            *final(self) == state_after_run(*old(self), outcome),
            r == action_after_run(*old(self), *opts, outcome),
    {
        match outcome {
            RunOutcome::NoCandidates => {
                if opts.wait_when_empty {
                    LoopAction::Wait { mode: WaitMode::EmptyAllowed, timeout_seconds: 0 }
                } else {
                    LoopAction::End(LoopEnd::NoMoreTasks)
                }
            },
            RunOutcome::Blocked(summary) => {
                if opts.wait_when_blocked || opts.wait_when_empty {
                    let mode = if opts.wait_when_empty {
                        WaitMode::EmptyAllowed
                    } else {
                        WaitMode::BlockedOnly
                    };
                    LoopAction::Wait { mode, timeout_seconds: opts.wait_timeout_seconds }
                } else {
                    LoopAction::End(LoopEnd::Blocked(summary))
                }
            },
            RunOutcome::Ran => {
                self.completed = self.completed + 1;
                self.tasks_attempted = self.tasks_attempted + 1;
                self.tasks_succeeded = self.tasks_succeeded + 1;
                self.consecutive_failures = 0;
                LoopAction::Continue
            },
            RunOutcome::Failed(kind) => {
                if kind != FailureKind::Other {
                    return LoopAction::Abort(kind);
                }
                self.completed = self.completed + 1;
                self.tasks_attempted = self.tasks_attempted + 1;
                self.tasks_failed = self.tasks_failed + 1;
                self.consecutive_failures = self.consecutive_failures + 1;
                if self.consecutive_failures >= MAX_CONSECUTIVE_FAILURES {
                    LoopAction::AbortAfterFailures
                } else {
                    LoopAction::Continue
                }
            },
        }
    }

    /// The step after a wait for work (see `action_after_wait`).
    pub fn after_wait(&self, waited_on_empty: bool, exit: WaitExit) -> (r: LoopAction)
        ensures
            r == action_after_wait(waited_on_empty, exit),
    {
        match exit {
            WaitExit::RunnableAvailable(_) => LoopAction::Continue,
            WaitExit::NoCandidates => {
                if waited_on_empty {
                    LoopAction::Continue
                } else {
                    LoopAction::End(LoopEnd::QueueEmptied)
                }
            },
            WaitExit::TimedOut => LoopAction::End(LoopEnd::WaitTimedOut),
            WaitExit::StopRequested => LoopAction::End(LoopEnd::StopRequested),
        }
    }

    /// Whether the completion notification is sent: some task was attempted.
    pub fn notifies_completion(&self) -> (r: bool)
        ensures
            r == (self.tasks_attempted > 0),
    {
        self.tasks_attempted > 0
    }
}

/// `Completed: <succeeded>/<attempted> succeeded`.
pub open spec fn completion_note_text(s: RunLoopState) -> Seq<char> {
    "Completed: "@ + decimal(s.tasks_succeeded as nat) + "/"@ + decimal(s.tasks_attempted as nat)
        + " succeeded"@
}

/// The note attached to the loop-stopped notification of a loop that ended
/// without error.
pub fn completion_note(s: &RunLoopState) -> (r: String)
    ensures
        r@ == completion_note_text(*s),
{
    let mut r = String::from_str("Completed: ");
    push_decimal(&mut r, s.tasks_succeeded as u64);
    push_str(&mut r, "/");
    push_decimal(&mut r, s.tasks_attempted as u64);
    push_str(&mut r, " succeeded");
    r
}

/// The error a loop ends with when it gives up after
/// `MAX_CONSECUTIVE_FAILURES` failed tasks in a row.
pub open spec fn abort_message_text() -> Seq<char> {
    "Run loop aborted after "@ + decimal(MAX_CONSECUTIVE_FAILURES as nat)
        + " consecutive task failures. This usually indicates a systemic issue (e.g., repo dirty, runner misconfiguration, or interrupt flag stuck). Check logs above for root cause."@
}

/// The error message for `LoopAction::AbortAfterFailures`.
pub fn abort_after_failures_message() -> (r: String)
    ensures
        r@ == abort_message_text(),
{
    let mut r = String::from_str("Run loop aborted after ");
    push_decimal(&mut r, MAX_CONSECUTIVE_FAILURES as u64);
    push_str(
        &mut r,
        " consecutive task failures. This usually indicates a systemic issue (e.g., repo dirty, runner misconfiguration, or interrupt flag stuck). Check logs above for root cause.",
    );
    r
}

/// What a session check found.
#[derive(Debug, Clone)]
pub enum SessionCheck {
    NoSession,
    /// A resumable session of a task, with the tasks completed in its loop.
    Valid { task_id: String, tasks_completed: u32 },
    /// A session that no longer matches the queue.
    Stale,
    /// A session older than the timeout.
    Timeout { task_id: String, tasks_completed: u32 },
}

/// How the loop resumes.
#[derive(Debug, Clone)]
pub enum ResumeDecision {
    /// Take up `task_id` again, counting from `completed`.
    Resume { task_id: String, completed: u32 },
    /// Start fresh from the starting count; `clear_session` asks the caller
    /// to clear the stored session first.
    Fresh { completed: u32, clear_session: bool },
    /// Ask the user whether to resume (timed out unless `timed_out` is false),
    /// then call `resume_after_prompt`.
    Ask { timed_out: bool },
}

/// The resume decision for a session check: no session starts fresh; a
/// valid one resumes at once under `--resume`, else asks; a stale one is
/// cleared; a timed-out one asks.
pub fn resolve_resume_state(check: &SessionCheck, opts: &RunLoopOptions) -> (r: ResumeDecision)
    ensures
        match *check {
            SessionCheck::NoSession => r matches ResumeDecision::Fresh { completed, clear_session }
                && completed == opts.starting_completed && !clear_session,
            SessionCheck::Valid { task_id, tasks_completed } => if opts.auto_resume {
                r matches ResumeDecision::Resume { task_id: t, completed } && t == task_id
                    && completed == tasks_completed
            } else {
                r matches ResumeDecision::Ask { timed_out } && !timed_out
            },
            SessionCheck::Stale => r matches ResumeDecision::Fresh { completed, clear_session }
                && completed == opts.starting_completed && clear_session,
            SessionCheck::Timeout { .. } => r matches ResumeDecision::Ask { timed_out } && timed_out,
        },
{
    match check {
        SessionCheck::NoSession => ResumeDecision::Fresh {
            completed: opts.starting_completed,
            clear_session: false,
        },
        SessionCheck::Valid { task_id, tasks_completed } => {
            if opts.auto_resume {
                ResumeDecision::Resume { task_id: task_id.clone(), completed: *tasks_completed }
            } else {
                ResumeDecision::Ask { timed_out: false }
            }
        },
        SessionCheck::Stale => ResumeDecision::Fresh {
            completed: opts.starting_completed,
            clear_session: true,
        },
        SessionCheck::Timeout { .. } => ResumeDecision::Ask { timed_out: true },
    }
}

/// The decision once the user answered the recovery prompt: resume the
/// session's task, or clear it and start fresh.
pub fn resume_after_prompt(check: &SessionCheck, opts: &RunLoopOptions, accepted: bool) -> (r: ResumeDecision)
    ensures
        match *check {
            SessionCheck::Valid { task_id, tasks_completed } | SessionCheck::Timeout {
                task_id,
                tasks_completed,
            } => if accepted {
                r matches ResumeDecision::Resume { task_id: t, completed } && t == task_id
                    && completed == tasks_completed
            } else {
                r matches ResumeDecision::Fresh { completed, clear_session }
                    && completed == opts.starting_completed && clear_session
            },
            SessionCheck::NoSession => r matches ResumeDecision::Fresh { completed, clear_session }
                && completed == opts.starting_completed && !clear_session,
            SessionCheck::Stale => r matches ResumeDecision::Fresh { completed, clear_session }
                && completed == opts.starting_completed && clear_session,
        },
{
    match check {
        SessionCheck::Valid { task_id, tasks_completed } | SessionCheck::Timeout {
            task_id,
            tasks_completed,
        } => {
            if accepted {
                ResumeDecision::Resume { task_id: task_id.clone(), completed: *tasks_completed }
            } else {
                ResumeDecision::Fresh { completed: opts.starting_completed, clear_session: true }
            }
        },
        SessionCheck::NoSession => ResumeDecision::Fresh {
            completed: opts.starting_completed,
            clear_session: false,
        },
        SessionCheck::Stale => ResumeDecision::Fresh {
            completed: opts.starting_completed,
            clear_session: true,
        },
    }
}

/// The loop never starts a task beyond its limit: when the count starts at
/// or below the limit, a run is only started below it, and the count after
/// the run stays at or below it.
pub proof fn law_run_loop_respects_max_tasks(
    s: RunLoopState,
    opts: RunLoopOptions,
    stop_signal: bool,
    outcome: RunOutcome,
)
    requires
        opts.max_tasks != 0,
        s.completed <= opts.max_tasks,
        room_for_run(s),
    ensures
        loop_top(s, opts, stop_signal) == LoopAction::RunTask ==> s.completed < opts.max_tasks,
        loop_top(s, opts, stop_signal) == LoopAction::RunTask ==> state_after_run(s, outcome).completed
            <= opts.max_tasks,
{
}

/// The counters stay consistent: every attempt is a success or a failure,
/// and every attempt adds one to the completed count.
pub proof fn law_run_loop_counters(s: RunLoopState, outcome: RunOutcome)
    requires
        room_for_run(s),
        s.tasks_attempted == s.tasks_succeeded + s.tasks_failed,
    ensures
        state_after_run(s, outcome).tasks_attempted == state_after_run(s, outcome).tasks_succeeded
            + state_after_run(s, outcome).tasks_failed,
        state_after_run(s, outcome).completed - s.completed == state_after_run(s, outcome).tasks_attempted
            - s.tasks_attempted,
{
}

/// A failure that cannot resolve itself ends the loop at once and is not
/// counted; a success resets the consecutive-failure count.
pub proof fn law_run_loop_failure_handling(s: RunLoopState, opts: RunLoopOptions, kind: FailureKind)
    requires
        room_for_run(s),
    ensures
        non_retriable(kind) ==> action_after_run(s, opts, RunOutcome::Failed(kind)) == LoopAction::Abort(kind),
        non_retriable(kind) ==> state_after_run(s, RunOutcome::Failed(kind)) == s,
        state_after_run(s, RunOutcome::Ran).consecutive_failures == 0,
{
}

/// The loop gives up exactly when a retriable failure brings the run of
/// consecutive failures to `MAX_CONSECUTIVE_FAILURES`.
pub proof fn law_run_loop_gives_up(s: RunLoopState, opts: RunLoopOptions)
    requires
        room_for_run(s),
        s.consecutive_failures < MAX_CONSECUTIVE_FAILURES,
    ensures
        (action_after_run(s, opts, RunOutcome::Failed(FailureKind::Other)) == LoopAction::AbortAfterFailures)
            <==> state_after_run(s, RunOutcome::Failed(FailureKind::Other)).consecutive_failures
            == MAX_CONSECUTIVE_FAILURES,
{
}

/// A run that finds every remaining task blocked waits for work whenever
/// either waiting option is on, with the configured timeout: continuous mode
/// (`wait_when_empty`) waits without ending on an empty queue, and only
/// `wait_when_blocked` waits for the blocked tasks alone. With neither option
/// the loop ends, reporting the blocked summary.
pub proof fn law_blocked_run_waits_when_waiting_enabled(
    s: RunLoopState,
    opts: RunLoopOptions,
    summary: QueueSummary,
)
    ensures
        opts.wait_when_empty ==> action_after_run(s, opts, RunOutcome::Blocked(summary))
            == (LoopAction::Wait {
            mode: WaitMode::EmptyAllowed,
            timeout_seconds: opts.wait_timeout_seconds,
        }),
        !opts.wait_when_empty && opts.wait_when_blocked ==> action_after_run(
            s,
            opts,
            RunOutcome::Blocked(summary),
        ) == (LoopAction::Wait {
            mode: WaitMode::BlockedOnly,
            timeout_seconds: opts.wait_timeout_seconds,
        }),
        !opts.wait_when_empty && !opts.wait_when_blocked ==> action_after_run(
            s,
            opts,
            RunOutcome::Blocked(summary),
        ) == LoopAction::End(LoopEnd::Blocked(summary)),
        state_after_run(s, RunOutcome::Blocked(summary)) == s,
{
}

/// Number of tasks the loop counts as todo: `Todo`, and `Draft` when drafts
/// are included.
pub open spec fn todo_count_of(statuses: Seq<TaskStatus>, include_draft: bool) -> nat
    decreases statuses.len(),
{
    if statuses.len() == 0 {
        0
    } else {
        let st = statuses.last();
        todo_count_of(statuses.drop_last(), include_draft) + if st == TaskStatus::Todo || (include_draft
            && st == TaskStatus::Draft) {
            1nat
        } else {
            0nat
        }
    }
}

proof fn lemma_todo_count_bound(statuses: Seq<TaskStatus>, include_draft: bool)
    ensures
        todo_count_of(statuses, include_draft) <= statuses.len(),
    decreases statuses.len(),
{
    if statuses.len() > 0 {
        lemma_todo_count_bound(statuses.drop_last(), include_draft);
    }
}

/// Counts the tasks the loop starts with, from their statuses.
pub fn initial_todo_count(statuses: &[TaskStatus], include_draft: bool) -> (r: usize)
    ensures
        r == todo_count_of(statuses@, include_draft),
{
    let mut n: usize = 0;
    let mut i: usize = 0;
    assert(statuses@.take(0) =~= Seq::<TaskStatus>::empty());
    while i < statuses.len()
        invariant
            i <= statuses@.len(),
            n == todo_count_of(statuses@.take(i as int), include_draft),
        decreases statuses.len() - i,
    {
        let ghost t = statuses@.take(i + 1);
        assert(t.drop_last() =~= statuses@.take(i as int));
        proof {
            lemma_todo_count_bound(statuses@.take(i as int), include_draft);
        }
        let st = statuses[i];
        if st == TaskStatus::Todo || (include_draft && st == TaskStatus::Draft) {
            n = n + 1;
        }
        i = i + 1;
    }
    assert(statuses@.take(i as int) =~= statuses@);
    n
}

} // verus!
