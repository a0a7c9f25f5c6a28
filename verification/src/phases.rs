//! Decisions of the run phases: whether Phase 1 refreshes the task first,
//! which paths Phase 1 may touch, and when Phase 3 counts as complete.
use vstd::prelude::*;
use crate::contracts::TaskStatus;
use crate::text::{chars_of, starts_with_chars, starts_with, push_str, trim, trimmed, str_eq};

verus! {

/// Where a task was found after a run: its status and whether it sits in
/// the done file.
#[derive(Debug, Clone, Copy, PartialEq, Eq, Structural)]
pub struct TaskLocation {
    pub status: TaskStatus,
    pub in_done: bool,
}

/// The clean-repository check that must pass before Phase 3 finishes.
#[derive(Debug, Clone, Copy, PartialEq, Eq, Structural)]
pub enum Phase3CleanCheck {
    /// Publishing is off: no check.
    Skip,
    /// A rejected task: the run's usual allowed paths may be dirty.
    RejectedTask,
    /// A done task: only the config and productivity cache may be dirty
    /// (see `done_task_allowed_paths`).
    DoneTask,
}

/// Why Phase 3 is not complete.
#[derive(Debug, Clone)]
pub enum Phase3Error {
    /// The task is in neither the queue nor the done file.
    TaskNotFound,
    /// The task is not archived with a terminal status.
    Incomplete(String),
}

/// `Phase 3 incomplete: task <id> is not archived ...`.
pub open spec fn phase3_incomplete_message(task_id: Seq<char>) -> Seq<char> {
    "Phase 3 incomplete: task "@ + task_id
        + " is not archived with a terminal status. Run `ralph task done` in Phase 3 before finishing."@
}

/// Phase 3 is complete when the task is in the done file with status `Done`
/// or `Rejected`; the clean-repository check then depends on the status,
/// unless publishing is off.
pub fn ensure_phase3_completion(
    task_id: &str,
    found: Option<TaskLocation>,
    publish_enabled: bool,
) -> (r: Result<Phase3CleanCheck, Phase3Error>)
    ensures
        match found {
            None => r matches Err(Phase3Error::TaskNotFound),
            Some(loc) => if !loc.in_done || !(loc.status == TaskStatus::Done || loc.status
                == TaskStatus::Rejected) {
                r matches Err(Phase3Error::Incomplete(m)) && m@ == phase3_incomplete_message(task_id@)
            } else if !publish_enabled {
                r == Ok::<Phase3CleanCheck, Phase3Error>(Phase3CleanCheck::Skip)
            } else if loc.status == TaskStatus::Rejected {
                r == Ok::<Phase3CleanCheck, Phase3Error>(Phase3CleanCheck::RejectedTask)
            } else {
                r == Ok::<Phase3CleanCheck, Phase3Error>(Phase3CleanCheck::DoneTask)
            },
        },
{
    let loc = match found {
        None => return Err(Phase3Error::TaskNotFound),
        Some(l) => l,
    };
    if !loc.in_done || !(loc.status == TaskStatus::Done || loc.status == TaskStatus::Rejected) {
        let mut m = String::from_str("Phase 3 incomplete: task ");
        push_str(&mut m, task_id);
        push_str(
            &mut m,
            " is not archived with a terminal status. Run `ralph task done` in Phase 3 before finishing.",
        );
        return Err(Phase3Error::Incomplete(m));
    }
    if !publish_enabled {
        Ok(Phase3CleanCheck::Skip)
    } else if loc.status == TaskStatus::Rejected {
        Ok(Phase3CleanCheck::RejectedTask)
    } else {
        Ok(Phase3CleanCheck::DoneTask)
    }
}

/// Paths that may be dirty when a done task finishes Phase 3.
pub open spec fn done_allowed_paths() -> Seq<Seq<char>> {
    seq![".ralph/config.jsonc"@, ".ralph/cache/productivity.json"@, ".ralph/cache/productivity.jsonc"@]
}

/// The paths that may be dirty when a done task finishes Phase 3.
pub fn done_task_allowed_paths() -> (r: Vec<&'static str>)
    ensures
        r@.map_values(|p: &'static str| p@) == done_allowed_paths(),
{
    let r = vec![".ralph/config.jsonc", ".ralph/cache/productivity.json", ".ralph/cache/productivity.jsonc"];
    assert(r@.map_values(|p: &'static str| p@) =~= done_allowed_paths());
    r
}

/// Whether post-run supervision runs after Phase 3: the task was archived
/// as done.
pub fn should_finalize_phase3(found: Option<TaskLocation>) -> (r: bool)
    ensures
        r == (found matches Some(loc) && loc.in_done && loc.status == TaskStatus::Done),
{
    match found {
        Some(loc) => loc.in_done && loc.status == TaskStatus::Done,
        None => false,
    }
}

/// How the post-run work is done.
#[derive(Debug, Clone, Copy, PartialEq, Eq, Structural)]
pub enum PostRunMode {
    /// The normal, single-process run.
    Normal,
    /// A parallel worker, which must not write the queue.
    ParallelWorker,
}

/// The fields Phase 1 refreshes in the task.
pub open spec fn refresh_fields() -> Seq<char> {
    "scope,evidence,plan,notes,tags,depends_on"@
}

/// The next step of the Phase 1 task refresh.
#[derive(Debug, Clone)]
pub enum RefreshStep {
    /// Skip the refresh (parallel workers never write the queue).
    Skip,
    /// Run the task updater on these fields.
    UpdateTask { fields: String },
    /// Stop with the updater's error (an abort).
    Abort,
    /// Reload and validate the queue, with the done file when `use_done`.
    ReloadQueue { use_done: bool },
    /// The refreshed task is at this index of the reloaded queue.
    Refreshed(usize),
    /// The task is no longer in the reloaded queue.
    Missing,
}

/// The first step of the Phase 1 refresh: none for a parallel worker, else
/// the task update.
pub fn refresh_task_before_phase1(mode: PostRunMode) -> (r: RefreshStep)
    ensures
        mode == PostRunMode::ParallelWorker ==> r matches RefreshStep::Skip,
        mode == PostRunMode::Normal ==> (r matches RefreshStep::UpdateTask { fields } && fields@ == refresh_fields()),
{
    match mode {
        PostRunMode::ParallelWorker => RefreshStep::Skip,
        PostRunMode::Normal => RefreshStep::UpdateTask {
            fields: String::from_str("scope,evidence,plan,notes,tags,depends_on"),
        },
    }
}

/// The step after the task update: an aborted update stops the run; any
/// other failure is tolerated and the queue is reloaded, with the done
/// file when it holds tasks or exists.
pub fn refresh_after_update(update_aborted: bool, done_has_tasks: bool, done_file_exists: bool) -> (r: RefreshStep)
    ensures
        update_aborted ==> r matches RefreshStep::Abort,
        !update_aborted ==> (r matches RefreshStep::ReloadQueue { use_done } && use_done == (done_has_tasks
            || done_file_exists)),
{
    if update_aborted {
        RefreshStep::Abort
    } else {
        RefreshStep::ReloadQueue { use_done: done_has_tasks || done_file_exists }
    }
}

/// The first id of `ids` equal to `task_id` once both are trimmed.
pub open spec fn is_first_trimmed_match(ids: Seq<String>, task_id: Seq<char>, i: int) -> bool {
    &&& 0 <= i < ids.len()
    &&& trim(ids[i]@) == trim(task_id)
    &&& forall|j: int| 0 <= j < i ==> trim(#[trigger] ids[j]@) != trim(task_id)
}

/// The last step: find the task again among the reloaded queue's ids.
pub fn refresh_find_task(ids: &[String], task_id: &str) -> (r: RefreshStep)
    ensures
        match r {
            RefreshStep::Refreshed(i) => is_first_trimmed_match(ids@, task_id@, i as int),
            RefreshStep::Missing => forall|j: int| 0 <= j < ids@.len() ==> trim(#[trigger] ids@[j]@) != trim(task_id@),
            _ => false,
        },
{
    let want = trimmed(task_id);
    let mut i: usize = 0;
    while i < ids.len()
        invariant
            i <= ids@.len(),
            want@ == trim(task_id@),
            forall|j: int| 0 <= j < i ==> trim(#[trigger] ids@[j]@) != trim(task_id@),
        decreases ids.len() - i,
    {
        let t = trimmed(ids[i].as_str());
        if str_eq(t.as_str(), want.as_str()) {
            return RefreshStep::Refreshed(i);
        }
        i = i + 1;
    }
    RefreshStep::Missing
}

/// The paths Phase 1 may modify: the queue and done files, the task's plan
/// cache file and the plan cache directory, plus the paths that were
/// already dirty before it ran.
pub open spec fn phase1_allowed(task_id: Seq<char>, baseline: Seq<String>) -> Seq<Seq<char>> {
    seq![
        ".ralph/queue.json"@,
        ".ralph/done.json"@,
        ".ralph/cache/plans/"@ + task_id + ".md"@,
        ".ralph/cache/plans/"@,
    ] + baseline.map_values(|p: String| p@)
}

/// The paths Phase 1 may modify (see `phase1_allowed`).
pub fn phase1_allowed_paths(task_id: &str, baseline_paths: &[String]) -> (r: Vec<String>)
    ensures
        r@.map_values(|p: String| p@) == phase1_allowed(task_id@, baseline_paths@),
{
    let mut plan = String::from_str(".ralph/cache/plans/");
    push_str(&mut plan, task_id);
    push_str(&mut plan, ".md");
    let mut r: Vec<String> = Vec::new();
    r.push(String::from_str(".ralph/queue.json"));
    r.push(String::from_str(".ralph/done.json"));
    r.push(plan);
    r.push(String::from_str(".ralph/cache/plans/"));
    let ghost head = r@.map_values(|p: String| p@);
    let mut i: usize = 0;
    assert(baseline_paths@.take(0).map_values(|p: String| p@) =~= Seq::<Seq<char>>::empty());
    while i < baseline_paths.len()
        invariant
            i <= baseline_paths@.len(),
            r@.map_values(|p: String| p@) == head + baseline_paths@.take(i as int).map_values(|p: String| p@),
        decreases baseline_paths.len() - i,
    {
        let ghost before = r@;
        let p = baseline_paths[i].clone();
        assert(p@ == baseline_paths@[i as int]@);
        r.push(p);
        assert(r@.map_values(|p: String| p@) =~= before.map_values(|p: String| p@).push(baseline_paths@[i as int]@));
        assert(baseline_paths@.take(i + 1).map_values(|p: String| p@) =~= baseline_paths@.take(i as int).map_values(|p: String| p@).push(baseline_paths@[i as int]@));
        assert(r@.map_values(|p: String| p@) =~= head + baseline_paths@.take(i + 1).map_values(|p: String| p@));
        i = i + 1;
    }
    assert(baseline_paths@.take(i as int) =~= baseline_paths@);
    assert(head =~= seq![
        ".ralph/queue.json"@,
        ".ralph/done.json"@,
        ".ralph/cache/plans/"@ + task_id@ + ".md"@,
        ".ralph/cache/plans/"@,
    ]);
    r
}

/// `p` is one of the allowed paths, or lies under an allowed directory (an
/// entry ending in `/`).
pub open spec fn path_allowed(p: Seq<char>, allowed: Seq<String>) -> bool {
    exists|i: int|
        0 <= i < allowed.len() && (#[trigger] allowed[i]@ == p || (allowed[i]@.len() > 0
            && allowed[i]@.last() == '/' && starts_with(p, allowed[i]@)))
}

/// Phase 1 broke its plan-only contract: a changed path is not allowed, or a
/// path that was dirty before it ran changed its content.
pub open spec fn phase1_violated(changed: Seq<String>, allowed: Seq<String>, baseline_unchanged: bool) -> bool {
    !baseline_unchanged || exists|j: int| 0 <= j < changed.len() && !path_allowed(#[trigger] changed[j]@, allowed)
}

/// What the git-revert handler decided about a violation.
#[derive(Debug, Clone)]
pub enum RevertOutcome {
    /// Resume the agent's session with this message and check again.
    Continue { message: String },
    /// Keep the changes and go on, for this reason.
    Proceed { reason: String },
    /// Anything else (reverted, or left for the user); the text says what.
    Halt { detail: String },
}

/// The next step after the Phase 1 runner pass.
#[derive(Debug, Clone)]
pub enum Phase1Step {
    /// Only allowed paths changed: read the plan from its cache file.
    PlanReady,
    /// A violation was found: ask the revert handler what to do.
    AskRevert,
    /// Resume the session with this message, then check again.
    Resume(String),
    /// Go on without reverting (the override is logged).
    ProceedAnyway,
    /// Phase 1 fails with this message.
    Fail(String),
}

/// The error Phase 1 fails with after a violation the handler did not let pass.
pub open spec fn plan_only_failure(detail: Seq<char>, git_error: Seq<char>) -> Seq<char> {
    "Phase 1 violated plan-only contract: it modified files outside allowed queue bookkeeping, including baseline dirty paths. "@
        + detail + " Error: "@ + git_error
}

fn is_path_allowed(p: &str, allowed: &[String]) -> (r: bool)
    ensures
        r == path_allowed(p@, allowed@),
{
    let v = chars_of(p);
    let mut i: usize = 0;
    while i < allowed.len()
        invariant
            i <= allowed@.len(),
            v@ == p@,
            forall|k: int| 0 <= k < i ==> !(#[trigger] allowed@[k]@ == p@ || (allowed@[k]@.len() > 0
                && allowed@[k]@.last() == '/' && starts_with(p@, allowed@[k]@))),
        decreases allowed.len() - i,
    {
        let a = chars_of(allowed[i].as_str());
        if crate::text::str_eq(allowed[i].as_str(), p) {
            return true;
        }
        if a.len() > 0 && a[a.len() - 1] == '/' && starts_with_chars(&v, &a) {
            return true;
        }
        i = i + 1;
    }
    false
}

/// Decides what follows Phase 1's runner pass: the plan is ready when only
/// allowed paths changed and the baseline dirty paths kept their content;
/// otherwise the revert handler is asked, and its outcome resumes the
/// session, lets the phase proceed, or fails it with the plan-only error
/// (`git_error` is what the git check reported).
pub fn execute_phase1_planning(
    changed_paths: &[String],
    allowed_paths: &[String],
    baseline_unchanged: bool,
    revert: Option<&RevertOutcome>,
    git_error: &str,
) -> (r: Phase1Step)
    ensures
        !phase1_violated(changed_paths@, allowed_paths@, baseline_unchanged) ==> r is PlanReady,
        phase1_violated(changed_paths@, allowed_paths@, baseline_unchanged) ==> match revert {
            None => r is AskRevert,
            Some(RevertOutcome::Continue { message }) => r matches Phase1Step::Resume(m) && m@ == message@,
            Some(RevertOutcome::Proceed { .. }) => r is ProceedAnyway,
            Some(RevertOutcome::Halt { detail }) => r matches Phase1Step::Fail(m) && m@ == plan_only_failure(detail@, git_error@),
        },
{
    let mut violated = !baseline_unchanged;
    let mut j: usize = 0;
    while j < changed_paths.len()
        invariant
            j <= changed_paths@.len(),
            violated == (!baseline_unchanged || exists|k: int| 0 <= k < j && !path_allowed(#[trigger] changed_paths@[k]@, allowed_paths@)),
        decreases changed_paths.len() - j,
    {
        if !is_path_allowed(changed_paths[j].as_str(), allowed_paths) {
            violated = true;
        }
        j = j + 1;
    }
    if !violated {
        return Phase1Step::PlanReady;
    }
    match revert {
        None => Phase1Step::AskRevert,
        Some(RevertOutcome::Continue { message }) => Phase1Step::Resume(message.clone()),
        Some(RevertOutcome::Proceed { .. }) => Phase1Step::ProceedAnyway,
        Some(RevertOutcome::Halt { detail }) => {
            let mut m = String::from_str(
                "Phase 1 violated plan-only contract: it modified files outside allowed queue bookkeeping, including baseline dirty paths. ",
            );
            push_str(&mut m, detail.as_str());
            push_str(&mut m, " Error: ");
            push_str(&mut m, git_error);
            Phase1Step::Fail(m)
        },
    }
}

} // verus!
