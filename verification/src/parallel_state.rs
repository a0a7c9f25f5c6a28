//! Parallel run state kept for crash recovery: tasks in flight, PR records,
//! tasks that finished without a PR, and the merge-job queue.
//!
//! Every collection is a list of records keyed by task id. The operations
//! are stated over the list operations of `crate::keyed`: "replace the first
//! record with this id or append", "drop every record with this id", "change
//! the first record with this id".
use vstd::prelude::*;
use crate::keyed::{Keyed, has_key, first_key_index, without_key, upsert_key, map_first, lookup_key, lemma_first_key_index, find_first, remove_key, upsert};
use crate::text::{str_eq, trim, trimmed};
use crate::pathname::{path_join, join_relative};

verus! {

broadcast use vstd::seq_lib::group_seq_properties;

/// Lifecycle states for a pending merge job.
#[derive(Debug, Clone, Copy, PartialEq, Eq, Structural)]
pub enum PendingMergeLifecycle {
    Queued,
    InProgress,
    RetryableFailed,
    TerminalFailed,
}

impl Default for PendingMergeLifecycle {
    fn default() -> (r: Self)
        ensures
            r == PendingMergeLifecycle::Queued,
    {
        PendingMergeLifecycle::Queued
    }
}

/// How merged PRs are combined into the base branch.
#[derive(Debug, Clone, Copy, PartialEq, Eq, Structural)]
pub enum ParallelMergeMethod {
    Squash,
}

/// When PRs are merged relative to their creation.
#[derive(Debug, Clone, Copy, PartialEq, Eq, Structural)]
pub enum ParallelMergeWhen {
    AsCreated,
}

/// A merge job waiting to be processed or currently in progress.
#[derive(Debug, Clone)]
pub struct PendingMergeJob {
    /// Task ID associated with this merge job.
    pub task_id: String,
    /// PR number to merge.
    pub pr_number: u32,
    /// Optional path to the workspace (for cleanup after merge).
    pub workspace_path: Option<String>,
    /// Current lifecycle state.
    pub lifecycle: PendingMergeLifecycle,
    /// Number of merge attempts (for retry policy).
    pub attempts: u8,
    /// Timestamp when queued (RFC3339).
    pub queued_at: String,
    /// Last error message if failed.
    pub last_error: Option<String>,
}

impl Keyed for PendingMergeJob {
    open spec fn key(&self) -> Seq<char> {
        self.task_id@
    }

    fn key_matches(&self, k: &str) -> (r: bool) {
        str_eq(self.task_id.as_str(), k)
    }
}

/// A task currently being worked on by a parallel worker.
#[derive(Debug, Clone)]
pub struct ParallelTaskRecord {
    pub task_id: String,
    pub workspace_path: String,
    pub branch: String,
    pub pid: Option<u32>,
    /// Timestamp when the task was started (RFC3339); may be empty in legacy files.
    pub started_at: String,
}

impl Keyed for ParallelTaskRecord {
    open spec fn key(&self) -> Seq<char> {
        self.task_id@
    }

    fn key_matches(&self, k: &str) -> (r: bool) {
        str_eq(self.task_id.as_str(), k)
    }
}

impl ParallelTaskRecord {
    /// A record for a freshly spawned worker; `started_at` falls back to `now`.
    pub fn new(
        task_id: &str,
        workspace_path: String,
        branch: String,
        pid: u32,
        started_at: Option<String>,
        now: String,
    ) -> (r: Self)
        ensures
            r.task_id@ == task_id@,
            r.workspace_path == workspace_path,
            r.branch == branch,
            r.pid == Some(pid),
            r.started_at == (match started_at {
                Some(s) => s,
                None => now,
            }),
    {
        ParallelTaskRecord {
            task_id: String::from_str(task_id),
            workspace_path,
            branch,
            pid: Some(pid),
            started_at: match started_at {
                Some(s) => s,
                None => now,
            },
        }
    }
}

/// PR lifecycle state for persisted parallel PR records.
#[derive(Debug, Clone, Copy, PartialEq, Eq, Structural)]
pub enum ParallelPrLifecycle {
    Open,
    Closed,
    Merged,
}

impl Default for ParallelPrLifecycle {
    fn default() -> (r: Self)
        ensures
            r == ParallelPrLifecycle::Open,
    {
        ParallelPrLifecycle::Open
    }
}

/// Reason a parallel task finished without a PR record.
#[derive(Debug, Clone, Copy, PartialEq, Eq, Structural)]
pub enum ParallelNoPrReason {
    Unknown,
    AutoPrDisabled,
    PrCreateFailed,
    DraftPrDisabled,
    DraftPrSkippedNoChanges,
}

impl Default for ParallelNoPrReason {
    fn default() -> (r: Self)
        ensures
            r == ParallelNoPrReason::Unknown,
    {
        ParallelNoPrReason::Unknown
    }
}

/// The persisted name of each reason.
pub open spec fn no_pr_reason_name(r: ParallelNoPrReason) -> Seq<char> {
    match r {
        ParallelNoPrReason::Unknown => "unknown"@,
        ParallelNoPrReason::AutoPrDisabled => "auto_pr_disabled"@,
        ParallelNoPrReason::PrCreateFailed => "pr_create_failed"@,
        ParallelNoPrReason::DraftPrDisabled => "draft_pr_disabled"@,
        ParallelNoPrReason::DraftPrSkippedNoChanges => "draft_pr_skipped_no_changes"@,
    }
}

impl ParallelNoPrReason {
    pub fn as_str(&self) -> (r: &'static str)
        ensures
            r@ == no_pr_reason_name(*self),
    {
        match self {
            ParallelNoPrReason::Unknown => "unknown",
            ParallelNoPrReason::AutoPrDisabled => "auto_pr_disabled",
            ParallelNoPrReason::PrCreateFailed => "pr_create_failed",
            ParallelNoPrReason::DraftPrDisabled => "draft_pr_disabled",
            ParallelNoPrReason::DraftPrSkippedNoChanges => "draft_pr_skipped_no_changes",
        }
    }
}

/// Identity of a pull request as reported by the forge.
#[derive(Debug, Clone)]
pub struct PrInfo {
    pub number: u32,
    pub url: String,
    pub head: String,
    pub base: String,
}

/// A PR created for a task during a parallel run.
#[derive(Debug, Clone)]
pub struct ParallelPrRecord {
    pub task_id: String,
    pub pr_number: u32,
    pub pr_url: String,
    pub head: Option<String>,
    pub base: Option<String>,
    pub workspace_path: Option<String>,
    pub merged: bool,
    pub lifecycle: ParallelPrLifecycle,
    /// Human-readable reason this PR is blocked from auto-merge.
    pub merge_blocker: Option<String>,
}

impl Keyed for ParallelPrRecord {
    open spec fn key(&self) -> Seq<char> {
        self.task_id@
    }

    fn key_matches(&self, k: &str) -> (r: bool) {
        str_eq(self.task_id.as_str(), k)
    }
}

/// The value `pr_info` picks for head/base: the trimmed stored value when it
/// is present and not blank, else the fallback.
pub open spec fn stored_or_fallback(stored: Option<String>, fallback: Seq<char>) -> Seq<char> {
    match stored {
        Some(v) => if trim(v@).len() > 0 {
            trim(v@)
        } else {
            fallback
        },
        None => fallback,
    }
}

fn pick_stored_or_fallback(stored: &Option<String>, fallback: &str) -> (r: String)
    ensures
        r@ == stored_or_fallback(*stored, fallback@),
{
    match stored {
        Some(v) => {
            let t = trimmed(v.as_str());
            if t.as_str().unicode_len() > 0 {
                t
            } else {
                String::from_str(fallback)
            }
        },
        None => String::from_str(fallback),
    }
}

impl ParallelPrRecord {
    /// A fresh, open, unmerged record for a just-created PR.
    pub fn new(task_id: &str, pr: &PrInfo, workspace_path: Option<String>) -> (r: Self)
        ensures
            r.task_id@ == task_id@,
            r.pr_number == pr.number,
            r.pr_url == pr.url,
            r.head == Some(pr.head),
            r.base == Some(pr.base),
            r.workspace_path == workspace_path,
            !r.merged,
            r.lifecycle == ParallelPrLifecycle::Open,
            r.merge_blocker is None,
    {
        ParallelPrRecord {
            task_id: String::from_str(task_id),
            pr_number: pr.number,
            pr_url: pr.url.clone(),
            head: Some(pr.head.clone()),
            base: Some(pr.base.clone()),
            workspace_path,
            merged: false,
            lifecycle: ParallelPrLifecycle::Open,
            merge_blocker: None,
        }
    }

    /// True when the PR is open and not merged: work still in flight from a
    /// prior run that counts toward task limits on resume.
    pub fn is_open_unmerged(&self) -> (r: bool)
        ensures
            r == (self.lifecycle == ParallelPrLifecycle::Open && !self.merged),
    {
        matches!(self.lifecycle, ParallelPrLifecycle::Open) && !self.merged
    }

    /// The PR identity, falling back to the given head/base names when the
    /// stored ones are missing or blank.
    pub fn pr_info(&self, fallback_head: &str, fallback_base: &str) -> (r: PrInfo)
        ensures
            r.number == self.pr_number,
            r.url == self.pr_url,
            r.head@ == stored_or_fallback(self.head, fallback_head@),
            r.base@ == stored_or_fallback(self.base, fallback_base@),
    {
        let head = pick_stored_or_fallback(&self.head, fallback_head);
        let base = pick_stored_or_fallback(&self.base, fallback_base);
        PrInfo { number: self.pr_number, url: self.pr_url.clone(), head, base }
    }

    /// The recorded workspace path, if any.
    pub fn workspace_path(&self) -> (r: Option<String>)
        ensures
            r == self.workspace_path,
    {
        match &self.workspace_path {
            Some(p) => Some(p.clone()),
            None => None,
        }
    }
}


/// Record for a task that finished without a PR record.
#[derive(Debug, Clone)]
pub struct ParallelFinishedWithoutPrRecord {
    pub task_id: String,
    pub workspace_path: String,
    pub branch: String,
    pub success: bool,
    pub finished_at: String,
    pub reason: ParallelNoPrReason,
    pub message: Option<String>,
}

impl Keyed for ParallelFinishedWithoutPrRecord {
    open spec fn key(&self) -> Seq<char> {
        self.task_id@
    }

    fn key_matches(&self, k: &str) -> (r: bool) {
        str_eq(self.task_id.as_str(), k)
    }
}

/// Instant of an RFC 3339 timestamp, in nanoseconds since the Unix epoch,
/// or `None` when the text is not a valid RFC 3339 timestamp.
pub uninterp spec fn rfc3339_unix_nanos(s: Seq<char>) -> Option<int>;

/// A bound on the magnitude of any Unix timestamp in nanoseconds that the
/// `time` crate produces: an `i64` count of seconds times 10^9, plus the
/// sub-second nanoseconds.
pub open spec fn nanos_bound() -> int {
    9_223_372_037_000_000_000_000_000_000
}

/// Parses an RFC 3339 timestamp with the `time` crate
/// (`OffsetDateTime::parse(s, &Rfc3339)`) and returns
/// `unix_timestamp_nanos()`. Claimed: the result is the named function of the
/// text, and lies within `nanos_bound`, since `unix_timestamp_nanos` is
/// `unix_timestamp() as i128 * 10^9 + nanosecond()` with an `i64` timestamp.
#[verifier::external_body]
fn parse_rfc3339_unix_nanos(s: &str) -> (r: Option<i128>)
    ensures
        r is None <==> rfc3339_unix_nanos(s@) is None,
        r matches Some(n) ==> rfc3339_unix_nanos(s@) == Some(n as int),
        r matches Some(n) ==> -nanos_bound() <= n <= nanos_bound(),
{
    match time::OffsetDateTime::parse(s, &time::format_description::well_known::Rfc3339) {
        Ok(t) => Some(t.unix_timestamp_nanos()),
        Err(_) => None,
    }
}

/// Whether a finished-without-PR record still blocks task selection.
///
/// - A record whose workspace no longer exists never blocks.
/// - `AutoPrDisabled` blocks while auto PRs are still disabled.
/// - `DraftPrDisabled` blocks until both auto PRs and draft-on-failure are on.
/// - The other reasons block only within `ttl_seconds` of `finished_at`; a
///   timestamp that does not parse never blocks.
pub open spec fn blocking_spec(
    r: ParallelFinishedWithoutPrRecord,
    now_nanos: int,
    workspace_exists: bool,
    auto_pr_enabled: bool,
    draft_on_failure: bool,
    ttl_seconds: int,
) -> bool {
    if !workspace_exists {
        false
    } else {
        match r.reason {
            ParallelNoPrReason::AutoPrDisabled => !auto_pr_enabled,
            ParallelNoPrReason::DraftPrDisabled => !(auto_pr_enabled && draft_on_failure),
            _ => match rfc3339_unix_nanos(r.finished_at@) {
                Some(finished) => now_nanos - finished < ttl_seconds * 1_000_000_000,
                None => false,
            },
        }
    }
}

impl ParallelFinishedWithoutPrRecord {
    pub fn new(
        task_id: &str,
        workspace_path: String,
        branch: String,
        success: bool,
        finished_at: String,
        reason: ParallelNoPrReason,
        message: Option<String>,
    ) -> (r: Self)
        ensures
            r.task_id@ == task_id@,
            r.workspace_path == workspace_path,
            r.branch == branch,
            r.success == success,
            r.finished_at == finished_at,
            r.reason == reason,
            r.message == message,
    {
        ParallelFinishedWithoutPrRecord {
            task_id: String::from_str(task_id),
            workspace_path,
            branch,
            success,
            finished_at,
            reason,
            message,
        }
    }

    /// Returns true if this record should currently block task selection
    /// (see `blocking_spec`). `workspace_exists` tells whether the recorded
    /// workspace path (trimmed) exists on disk.
    pub fn is_blocking(
        &self,
        now_nanos: i128,
        workspace_exists: bool,
        auto_pr_enabled: bool,
        draft_on_failure: bool,
        ttl_seconds: i64,
    ) -> (r: bool)
        requires
            -nanos_bound() <= now_nanos <= nanos_bound(),
        ensures
            r == blocking_spec(
                *self,
                now_nanos as int,
                workspace_exists,
                auto_pr_enabled,
                draft_on_failure,
                ttl_seconds as int,
            ),
    {
        if !workspace_exists {
            return false;
        }
        let reason = self.reason;
        if reason == ParallelNoPrReason::AutoPrDisabled {
            return !auto_pr_enabled;
        }
        if reason == ParallelNoPrReason::DraftPrDisabled {
            return !(auto_pr_enabled && draft_on_failure);
        }
        match parse_rfc3339_unix_nanos(self.finished_at.as_str()) {
            Some(finished) => {
                let ttl_nanos: i128 = (ttl_seconds as i128) * 1_000_000_000;
                now_nanos - finished < ttl_nanos
            },
            None => false,
        }
    }
}

/// Persisted state of a parallel run.
#[derive(Debug, Clone)]
pub struct ParallelStateFile {
    pub started_at: String,
    pub base_branch: String,
    pub merge_method: ParallelMergeMethod,
    pub merge_when: ParallelMergeWhen,
    pub tasks_in_flight: Vec<ParallelTaskRecord>,
    pub prs: Vec<ParallelPrRecord>,
    pub finished_without_pr: Vec<ParallelFinishedWithoutPrRecord>,
    /// Merge jobs queued or in progress.
    pub pending_merges: Vec<PendingMergeJob>,
}

/// `i` is the first queued job of `s`.
pub open spec fn is_first_queued(s: Seq<PendingMergeJob>, i: int) -> bool {
    &&& 0 <= i < s.len()
    &&& s[i].lifecycle == PendingMergeLifecycle::Queued
    &&& forall|j: int| 0 <= j < i ==> #[trigger] s[j].lifecycle != PendingMergeLifecycle::Queued
}

/// Some job of `s` is queued.
pub open spec fn has_queued(s: Seq<PendingMergeJob>) -> bool {
    exists|i: int| 0 <= i < s.len() && #[trigger] s[i].lifecycle == PendingMergeLifecycle::Queued
}

/// The job after `mark_merge_in_progress`.
pub open spec fn job_in_progress(j: PendingMergeJob) -> PendingMergeJob {
    PendingMergeJob { lifecycle: PendingMergeLifecycle::InProgress, ..j }
}

/// The job after `requeue_merge`.
pub open spec fn job_requeued(j: PendingMergeJob) -> PendingMergeJob {
    PendingMergeJob { lifecycle: PendingMergeLifecycle::Queued, ..j }
}

/// The job after `mark_merge_terminal_failed(error)`.
pub open spec fn job_terminal_failed(j: PendingMergeJob, error: String) -> PendingMergeJob {
    PendingMergeJob { lifecycle: PendingMergeLifecycle::TerminalFailed, last_error: Some(error), ..j }
}

/// The job after `update_merge_result`: success re-marks it `Queued` (the
/// caller then removes it); failure counts an attempt, records the error and
/// picks the retryable or terminal state.
pub open spec fn job_after_result(
    j: PendingMergeJob,
    success: bool,
    error: Option<String>,
    retryable: bool,
) -> PendingMergeJob {
    if success {
        PendingMergeJob { lifecycle: PendingMergeLifecycle::Queued, ..j }
    } else {
        PendingMergeJob {
            attempts: (j.attempts + 1) as u8,
            lifecycle: if retryable {
                PendingMergeLifecycle::RetryableFailed
            } else {
                PendingMergeLifecycle::TerminalFailed
            },
            last_error: error,
            ..j
        }
    }
}

/// The record after `mark_pr_merged`.
pub open spec fn pr_marked_merged(p: ParallelPrRecord) -> ParallelPrRecord {
    ParallelPrRecord { merged: true, lifecycle: ParallelPrLifecycle::Merged, ..p }
}

impl ParallelStateFile {
    /// The four header fields agree.
    pub open spec fn same_header(&self, other: &Self) -> bool {
        &&& self.started_at == other.started_at
        &&& self.base_branch == other.base_branch
        &&& self.merge_method == other.merge_method
        &&& self.merge_when == other.merge_when
    }

    pub fn new(
        started_at: String,
        base_branch: String,
        merge_method: ParallelMergeMethod,
        merge_when: ParallelMergeWhen,
    ) -> (r: Self)
        ensures
            r.started_at == started_at,
            r.base_branch == base_branch,
            r.merge_method == merge_method,
            r.merge_when == merge_when,
            r.tasks_in_flight@.len() == 0,
            r.prs@.len() == 0,
            r.finished_without_pr@.len() == 0,
            r.pending_merges@.len() == 0,
    {
        ParallelStateFile {
            started_at,
            base_branch,
            merge_method,
            merge_when,
            tasks_in_flight: Vec::new(),
            prs: Vec::new(),
            finished_without_pr: Vec::new(),
            pending_merges: Vec::new(),
        }
    }

    /// Replaces the in-flight record with the same task id, or appends it.
    pub fn upsert_task(&mut self, record: ParallelTaskRecord)
        ensures
            final(self).tasks_in_flight@ == upsert_key(old(self).tasks_in_flight@, record),
            final(self).same_header(old(self)),
            final(self).prs == old(self).prs,
            final(self).finished_without_pr == old(self).finished_without_pr,
            final(self).pending_merges == old(self).pending_merges,
    {
        let k = record.task_id.clone();
        upsert(&mut self.tasks_in_flight, record, k.as_str());
    }

    /// Drops every in-flight record for `task_id`.
    pub fn remove_task(&mut self, task_id: &str)
        ensures
            final(self).tasks_in_flight@ == without_key(old(self).tasks_in_flight@, task_id@),
            final(self).same_header(old(self)),
            final(self).prs == old(self).prs,
            final(self).finished_without_pr == old(self).finished_without_pr,
            final(self).pending_merges == old(self).pending_merges,
    {
        remove_key(&mut self.tasks_in_flight, task_id);
    }

    /// Records a PR: drops the task's finished-without-PR records, then
    /// replaces the PR record with the same task id or appends it.
    pub fn upsert_pr(&mut self, record: ParallelPrRecord)
        ensures
            final(self).finished_without_pr@ == without_key(
                old(self).finished_without_pr@,
                record.task_id@,
            ),
            final(self).prs@ == upsert_key(old(self).prs@, record),
            final(self).same_header(old(self)),
            final(self).tasks_in_flight == old(self).tasks_in_flight,
            final(self).pending_merges == old(self).pending_merges,
    {
        let k = record.task_id.clone();
        self.remove_finished_without_pr(k.as_str());
        upsert(&mut self.prs, record, k.as_str());
    }

    /// Marks the first PR record of `task_id` as merged.
    pub fn mark_pr_merged(&mut self, task_id: &str)
        ensures
            final(self).prs@ == map_first(old(self).prs@, task_id@, |p: ParallelPrRecord| pr_marked_merged(p)),
            final(self).same_header(old(self)),
            final(self).tasks_in_flight == old(self).tasks_in_flight,
            final(self).finished_without_pr == old(self).finished_without_pr,
            final(self).pending_merges == old(self).pending_merges,
    {
        match find_first(&self.prs, task_id) {
            Some(i) => {
                proof {
                    lemma_first_key_index(self.prs@, task_id@, i as int);
                }
                self.prs[i].merged = true;
                self.prs[i].lifecycle = ParallelPrLifecycle::Merged;
                assert(self.prs@ =~= map_first(old(self).prs@, task_id@, |p: ParallelPrRecord| pr_marked_merged(p)));
            },
            None => {},
        }
    }

    pub fn has_pr_record(&self, task_id: &str) -> (r: bool)
        ensures
            r == has_key(self.prs@, task_id@),
    {
        find_first(&self.prs, task_id).is_some()
    }

    /// Replaces the finished-without-PR record with the same task id, or appends it.
    pub fn upsert_finished_without_pr(&mut self, record: ParallelFinishedWithoutPrRecord)
        ensures
            final(self).finished_without_pr@ == upsert_key(
                old(self).finished_without_pr@,
                record,
            ),
            final(self).same_header(old(self)),
            final(self).tasks_in_flight == old(self).tasks_in_flight,
            final(self).prs == old(self).prs,
            final(self).pending_merges == old(self).pending_merges,
    {
        let k = record.task_id.clone();
        upsert(&mut self.finished_without_pr, record, k.as_str());
    }

    /// Drops every finished-without-PR record of `task_id`; returns whether
    /// there was one.
    pub fn remove_finished_without_pr(&mut self, task_id: &str) -> (r: bool)
        ensures
            final(self).finished_without_pr@ == without_key(
                old(self).finished_without_pr@,
                task_id@,
            ),
            r == has_key(old(self).finished_without_pr@, task_id@),
            final(self).same_header(old(self)),
            final(self).tasks_in_flight == old(self).tasks_in_flight,
            final(self).prs == old(self).prs,
            final(self).pending_merges == old(self).pending_merges,
    {
        remove_key(&mut self.finished_without_pr, task_id)
    }

    /// Queues a merge job; any job for the same task is replaced, and the new
    /// job goes to the back of the queue.
    pub fn enqueue_merge(&mut self, job: PendingMergeJob)
        ensures
            final(self).pending_merges@ == without_key(
                old(self).pending_merges@,
                job.task_id@,
            ).push(job),
            final(self).same_header(old(self)),
            final(self).tasks_in_flight == old(self).tasks_in_flight,
            final(self).prs == old(self).prs,
            final(self).finished_without_pr == old(self).finished_without_pr,
    {
        let k = job.task_id.clone();
        remove_key(&mut self.pending_merges, k.as_str());
        self.pending_merges.push(job);
    }

    fn first_queued_index(&self) -> (r: Option<usize>)
        ensures
            match r {
                Some(i) => is_first_queued(self.pending_merges@, i as int),
                None => !has_queued(self.pending_merges@),
            },
    {
        let mut i: usize = 0;
        while i < self.pending_merges.len()
            invariant
                i <= self.pending_merges@.len(),
                forall|j: int|
                    0 <= j < i ==> #[trigger] self.pending_merges@[j].lifecycle
                        != PendingMergeLifecycle::Queued,
            decreases self.pending_merges.len() - i,
        {
            if matches!(self.pending_merges[i].lifecycle, PendingMergeLifecycle::Queued) {
                return Some(i);
            }
            i = i + 1;
        }
        None
    }

    /// The first queued merge job (FIFO order).
    pub fn next_queued_merge(&self) -> (r: Option<&PendingMergeJob>)
        ensures
            match r {
                Some(j) => exists|i: int|
                    is_first_queued(self.pending_merges@, i) && *j == self.pending_merges@[i],
                None => !has_queued(self.pending_merges@),
            },
    {
        match self.first_queued_index() {
            Some(i) => Some(&self.pending_merges[i]),
            None => None,
        }
    }

    /// The first queued merge job (FIFO order), for in-place changes.
    pub fn next_queued_merge_mut(&mut self) -> (r: Option<&mut PendingMergeJob>)
        ensures
            match r {
                Some(j) => exists|i: int|
                    is_first_queued(old(self).pending_merges@, i) && *j
                        == old(self).pending_merges@[i] && final(self).pending_merges@ == old(
                        self,
                    ).pending_merges@.update(i, *final(j)),
                None => !has_queued(old(self).pending_merges@) && *final(self) == *old(self),
            },
            final(self).same_header(old(self)),
            final(self).tasks_in_flight == old(self).tasks_in_flight,
            final(self).prs == old(self).prs,
            final(self).finished_without_pr == old(self).finished_without_pr,
    {
        match self.first_queued_index() {
            Some(i) => Some(&mut self.pending_merges[i]),
            None => None,
        }
    }

    /// Marks the first job of `task_id` as in progress.
    pub fn mark_merge_in_progress(&mut self, task_id: &str)
        ensures
            final(self).pending_merges@ == map_first(
                old(self).pending_merges@,
                task_id@,
                |j: PendingMergeJob| job_in_progress(j),
            ),
            final(self).same_header(old(self)),
            final(self).tasks_in_flight == old(self).tasks_in_flight,
            final(self).prs == old(self).prs,
            final(self).finished_without_pr == old(self).finished_without_pr,
    {
        if let Some(i) = find_first(&self.pending_merges, task_id) {
            proof {
                lemma_first_key_index(self.pending_merges@, task_id@, i as int);
            }
            self.pending_merges[i].lifecycle = PendingMergeLifecycle::InProgress;
            assert(self.pending_merges@ =~= map_first(
                old(self).pending_merges@,
                task_id@,
                |j: PendingMergeJob| job_in_progress(j),
            ));
        }
    }

    /// Records the outcome of a merge attempt on the first job of `task_id`
    /// (see `job_after_result`).
    pub fn update_merge_result(
        &mut self,
        task_id: &str,
        success: bool,
        error: Option<String>,
        retryable: bool,
    )
        requires
            !success && has_key(old(self).pending_merges@, task_id@) ==> old(
                self,
            ).pending_merges@[first_key_index(old(self).pending_merges@, task_id@)].attempts
                < 255,
        ensures
            final(self).pending_merges@ == map_first(
                old(self).pending_merges@,
                task_id@,
                |j: PendingMergeJob| job_after_result(j, success, error, retryable),
            ),
            final(self).same_header(old(self)),
            final(self).tasks_in_flight == old(self).tasks_in_flight,
            final(self).prs == old(self).prs,
            final(self).finished_without_pr == old(self).finished_without_pr,
    {
        if let Some(i) = find_first(&self.pending_merges, task_id) {
            proof {
                lemma_first_key_index(self.pending_merges@, task_id@, i as int);
            }
            if success {
                self.pending_merges[i].lifecycle = PendingMergeLifecycle::Queued;
            } else {
                let attempts = self.pending_merges[i].attempts;
                self.pending_merges[i].attempts = attempts + 1;
                self.pending_merges[i].lifecycle = if retryable {
                    PendingMergeLifecycle::RetryableFailed
                } else {
                    PendingMergeLifecycle::TerminalFailed
                };
                self.pending_merges[i].last_error = error;
            }
            assert(self.pending_merges@ =~= map_first(
                old(self).pending_merges@,
                task_id@,
                |j: PendingMergeJob| job_after_result(j, success, error, retryable),
            ));
        }
    }

    /// Puts the first job of `task_id` back in the queue.
    pub fn requeue_merge(&mut self, task_id: &str)
        ensures
            final(self).pending_merges@ == map_first(
                old(self).pending_merges@,
                task_id@,
                |j: PendingMergeJob| job_requeued(j),
            ),
            final(self).same_header(old(self)),
            final(self).tasks_in_flight == old(self).tasks_in_flight,
            final(self).prs == old(self).prs,
            final(self).finished_without_pr == old(self).finished_without_pr,
    {
        if let Some(i) = find_first(&self.pending_merges, task_id) {
            proof {
                lemma_first_key_index(self.pending_merges@, task_id@, i as int);
            }
            self.pending_merges[i].lifecycle = PendingMergeLifecycle::Queued;
            assert(self.pending_merges@ =~= map_first(
                old(self).pending_merges@,
                task_id@,
                |j: PendingMergeJob| job_requeued(j),
            ));
        }
    }

    /// Marks the first job of `task_id` as terminally failed with `error`.
    pub fn mark_merge_terminal_failed(&mut self, task_id: &str, error: String)
        ensures
            final(self).pending_merges@ == map_first(
                old(self).pending_merges@,
                task_id@,
                |j: PendingMergeJob| job_terminal_failed(j, error),
            ),
            final(self).same_header(old(self)),
            final(self).tasks_in_flight == old(self).tasks_in_flight,
            final(self).prs == old(self).prs,
            final(self).finished_without_pr == old(self).finished_without_pr,
    {
        if let Some(i) = find_first(&self.pending_merges, task_id) {
            proof {
                lemma_first_key_index(self.pending_merges@, task_id@, i as int);
            }
            self.pending_merges[i].lifecycle = PendingMergeLifecycle::TerminalFailed;
            self.pending_merges[i].last_error = Some(error);
            assert(self.pending_merges@ =~= map_first(
                old(self).pending_merges@,
                task_id@,
                |j: PendingMergeJob| job_terminal_failed(j, error),
            ));
        }
    }

    /// Drops every merge job of `task_id`.
    pub fn remove_pending_merge(&mut self, task_id: &str)
        ensures
            final(self).pending_merges@ == without_key(old(self).pending_merges@, task_id@),
            final(self).same_header(old(self)),
            final(self).tasks_in_flight == old(self).tasks_in_flight,
            final(self).prs == old(self).prs,
            final(self).finished_without_pr == old(self).finished_without_pr,
    {
        remove_key(&mut self.pending_merges, task_id);
    }

    pub fn pending_merge_count(&self) -> (r: usize)
        ensures
            r == self.pending_merges@.len(),
    {
        self.pending_merges.len()
    }

    pub fn has_queued_merges(&self) -> (r: bool)
        ensures
            r == has_queued(self.pending_merges@),
    {
        self.first_queued_index().is_some()
    }

    /// The first merge job of `task_id`.
    pub fn get_pending_merge(&self, task_id: &str) -> (r: Option<&PendingMergeJob>)
        ensures
            match r {
                Some(j) => lookup_key(self.pending_merges@, task_id@) == Some(*j),
                None => lookup_key(self.pending_merges@, task_id@) is None,
            },
    {
        match find_first(&self.pending_merges, task_id) {
            Some(i) => {
                proof {
                    lemma_first_key_index(self.pending_merges@, task_id@, i as int);
                }
                Some(&self.pending_merges[i])
            },
            None => None,
        }
    }

    /// The first merge job of `task_id`, for in-place changes.
    pub fn get_pending_merge_mut(&mut self, task_id: &str) -> (r: Option<&mut PendingMergeJob>)
        ensures
            match r {
                Some(j) => has_key(old(self).pending_merges@, task_id@) && *j == old(
                    self,
                ).pending_merges@[first_key_index(old(self).pending_merges@, task_id@)]
                    && final(self).pending_merges@ == old(self).pending_merges@.update(
                    first_key_index(old(self).pending_merges@, task_id@),
                    *final(j),
                ),
                None => !has_key(old(self).pending_merges@, task_id@) && *final(self) == *old(
                    self,
                ),
            },
            final(self).same_header(old(self)),
            final(self).tasks_in_flight == old(self).tasks_in_flight,
            final(self).prs == old(self).prs,
            final(self).finished_without_pr == old(self).finished_without_pr,
    {
        match find_first(&self.pending_merges, task_id) {
            Some(i) => {
                proof {
                    lemma_first_key_index(self.pending_merges@, task_id@, i as int);
                }
                Some(&mut self.pending_merges[i])
            },
            None => None,
        }
    }
}


/// Where the parallel state file lives under a repository root.
pub open spec fn state_file_rel() -> Seq<char> {
    ".ralph/cache/parallel/state.json"@
}

/// Path of the parallel state file: `<repo_root>/.ralph/cache/parallel/state.json`.
pub fn state_file_path(repo_root: &str) -> (r: String)
    ensures
        r@ == path_join(repo_root@, state_file_rel()),
{
    join_relative(repo_root, ".ralph/cache/parallel/state.json")
}

/// The records of `records` that still block, in order; `exists[i]` tells
/// whether the workspace of `records[i]` is still on disk.
pub open spec fn still_blocking(
    records: Seq<ParallelFinishedWithoutPrRecord>,
    exists: Seq<bool>,
    now_nanos: int,
    auto_pr_enabled: bool,
    draft_on_failure: bool,
    ttl_seconds: int,
) -> Seq<ParallelFinishedWithoutPrRecord>
    decreases records.len(),
{
    if records.len() == 0 {
        Seq::empty()
    } else {
        let rest = still_blocking(
            records.drop_last(),
            exists.drop_last(),
            now_nanos,
            auto_pr_enabled,
            draft_on_failure,
            ttl_seconds,
        );
        if blocking_spec(records.last(), now_nanos, exists.last(), auto_pr_enabled, draft_on_failure, ttl_seconds) {
            rest.push(records.last())
        } else {
            rest
        }
    }
}

/// Task ids of the records that no longer block, in order.
pub open spec fn no_longer_blocking_ids(
    records: Seq<ParallelFinishedWithoutPrRecord>,
    exists: Seq<bool>,
    now_nanos: int,
    auto_pr_enabled: bool,
    draft_on_failure: bool,
    ttl_seconds: int,
) -> Seq<Seq<char>>
    decreases records.len(),
{
    if records.len() == 0 {
        Seq::empty()
    } else {
        let rest = no_longer_blocking_ids(
            records.drop_last(),
            exists.drop_last(),
            now_nanos,
            auto_pr_enabled,
            draft_on_failure,
            ttl_seconds,
        );
        if blocking_spec(records.last(), now_nanos, exists.last(), auto_pr_enabled, draft_on_failure, ttl_seconds) {
            rest
        } else {
            rest.push(records.last().task_id@)
        }
    }
}

impl ParallelStateFile {
    /// Removes finished-without-PR records that no longer block under the
    /// current policy (see `blocking_spec`) and returns their task ids;
    /// `workspace_exists[i]` tells whether the workspace of the i-th record
    /// is still on disk.
    pub fn prune_finished_without_pr(
        &mut self,
        now_nanos: i128,
        workspace_exists: &[bool],
        auto_pr_enabled: bool,
        draft_on_failure: bool,
        ttl_seconds: i64,
    ) -> (dropped: Vec<String>)
        requires
            -nanos_bound() <= now_nanos <= nanos_bound(),
            workspace_exists@.len() == old(self).finished_without_pr@.len(),
        ensures
            final(self).finished_without_pr@ == still_blocking(
                old(self).finished_without_pr@,
                workspace_exists@,
                now_nanos as int,
                auto_pr_enabled,
                draft_on_failure,
                ttl_seconds as int,
            ),
            dropped@.map_values(|s: String| s@) == no_longer_blocking_ids(
                old(self).finished_without_pr@,
                workspace_exists@,
                now_nanos as int,
                auto_pr_enabled,
                draft_on_failure,
                ttl_seconds as int,
            ),
            final(self).same_header(old(self)),
            final(self).tasks_in_flight == old(self).tasks_in_flight,
            final(self).prs == old(self).prs,
            final(self).pending_merges == old(self).pending_merges,
    {
        let ghost o = self.finished_without_pr@;
        let ghost e = workspace_exists@;
        let mut rest: Vec<ParallelFinishedWithoutPrRecord> = Vec::new();
        std::mem::swap(&mut rest, &mut self.finished_without_pr);
        let mut kept: Vec<ParallelFinishedWithoutPrRecord> = Vec::new();
        let mut dropped: Vec<String> = Vec::new();
        let n = rest.len();
        let mut i: usize = 0;
        assert(o.take(0) =~= Seq::<ParallelFinishedWithoutPrRecord>::empty());
        assert(e.take(0) =~= Seq::<bool>::empty());
        assert(o.skip(0) =~= o);
        while i < n
            invariant
                n == o.len(),
                e.len() == o.len(),
                e == workspace_exists@,
                i <= n,
                rest@ == o.skip(i as int),
                -nanos_bound() <= now_nanos <= nanos_bound(),
                kept@ == still_blocking(
                    o.take(i as int),
                    e.take(i as int),
                    now_nanos as int,
                    auto_pr_enabled,
                    draft_on_failure,
                    ttl_seconds as int,
                ),
                dropped@.map_values(|s: String| s@) == no_longer_blocking_ids(
                    o.take(i as int),
                    e.take(i as int),
                    now_nanos as int,
                    auto_pr_enabled,
                    draft_on_failure,
                    ttl_seconds as int,
                ),
            decreases n - i,
        {
            let ghost oi = o.take(i + 1);
            let ghost ei = e.take(i + 1);
            assert(oi.drop_last() =~= o.take(i as int));
            assert(ei.drop_last() =~= e.take(i as int));
            let record = rest.remove(0);
            assert(record == o[i as int]);
            assert(rest@ =~= o.skip(i + 1));
            if record.is_blocking(
                now_nanos,
                workspace_exists[i],
                auto_pr_enabled,
                draft_on_failure,
                ttl_seconds,
            ) {
                kept.push(record);
            } else {
                let id = record.task_id.clone();
                dropped.push(id);
                assert(dropped@.map_values(|s: String| s@) =~= no_longer_blocking_ids(
                    oi.drop_last(),
                    ei.drop_last(),
                    now_nanos as int,
                    auto_pr_enabled,
                    draft_on_failure,
                    ttl_seconds as int,
                ).push(o[i as int].task_id@));
            }
            i = i + 1;
        }
        assert(o.take(n as int) =~= o);
        assert(e.take(n as int) =~= e);
        self.finished_without_pr = kept;
        dropped
    }
}

/// Summary of PR reconciliation results.
#[derive(Debug, Clone)]
pub struct ReconcileSummary {
    pub open_count: usize,
    pub closed_count: usize,
    pub merged_count: usize,
    pub unknown_count: usize,
    pub error_count: usize,
    pub affected_task_ids: Vec<String>,
}

impl ReconcileSummary {
    /// Whether any record changed state.
    pub fn has_changes(&self) -> (r: bool)
        ensures
            r == (self.affected_task_ids@.len() > 0),
    {
        self.affected_task_ids.len() > 0
    }
}

/// What the forge reported for a PR.
#[derive(Debug, Clone)]
pub enum PrLifecycleLookup {
    Open,
    Closed,
    Merged,
    /// A state the forge reported that is none of the above.
    Unknown(String),
    /// The lookup itself failed.
    Failed(String),
}

/// How a record is counted in the summary.
#[derive(Debug, Clone, Copy, PartialEq, Eq, Structural)]
pub enum PrTally {
    Open,
    Closed,
    Merged,
    Unknown,
    Error,
}

/// Records that are open and unmerged are looked up; the others are only counted.
pub open spec fn needs_lookup(p: ParallelPrRecord) -> bool {
    p.lifecycle == ParallelPrLifecycle::Open && !p.merged
}

/// A record after reconciliation with what the forge reported. An unknown
/// state keeps the PR open (blocking); a failed lookup changes nothing.
pub open spec fn reconciled_record(p: ParallelPrRecord, l: PrLifecycleLookup) -> ParallelPrRecord {
    if !needs_lookup(p) {
        p
    } else {
        match l {
            PrLifecycleLookup::Open => ParallelPrRecord { lifecycle: ParallelPrLifecycle::Open, ..p },
            PrLifecycleLookup::Closed => ParallelPrRecord { lifecycle: ParallelPrLifecycle::Closed, ..p },
            PrLifecycleLookup::Merged => ParallelPrRecord {
                lifecycle: ParallelPrLifecycle::Merged,
                merged: true,
                ..p
            },
            PrLifecycleLookup::Unknown(_) => ParallelPrRecord { lifecycle: ParallelPrLifecycle::Open, ..p },
            PrLifecycleLookup::Failed(_) => p,
        }
    }
}

/// The summary bucket of a record.
pub open spec fn record_tally(p: ParallelPrRecord, l: PrLifecycleLookup) -> PrTally {
    if !needs_lookup(p) {
        match p.lifecycle {
            ParallelPrLifecycle::Open => PrTally::Open,
            ParallelPrLifecycle::Closed => PrTally::Closed,
            ParallelPrLifecycle::Merged => PrTally::Merged,
        }
    } else {
        match l {
            PrLifecycleLookup::Open => PrTally::Open,
            PrLifecycleLookup::Closed => PrTally::Closed,
            PrLifecycleLookup::Merged => PrTally::Merged,
            PrLifecycleLookup::Unknown(_) => PrTally::Unknown,
            PrLifecycleLookup::Failed(_) => PrTally::Error,
        }
    }
}

/// Whether reconciliation changed the record's state (closed or merged).
pub open spec fn record_affected(p: ParallelPrRecord, l: PrLifecycleLookup) -> bool {
    needs_lookup(p) && (l is Closed || l is Merged)
}

/// Number of records that land in bucket `t`.
pub open spec fn tally_count(prs: Seq<ParallelPrRecord>, lookups: Seq<PrLifecycleLookup>, t: PrTally) -> nat
    decreases prs.len(),
{
    if prs.len() == 0 {
        0
    } else {
        tally_count(prs.drop_last(), lookups.drop_last(), t) + if record_tally(prs.last(), lookups.last()) == t {
            1nat
        } else {
            0nat
        }
    }
}

/// Task ids of the records that changed state, in order.
pub open spec fn affected_ids(prs: Seq<ParallelPrRecord>, lookups: Seq<PrLifecycleLookup>) -> Seq<Seq<char>>
    decreases prs.len(),
{
    if prs.len() == 0 {
        Seq::empty()
    } else {
        let rest = affected_ids(prs.drop_last(), lookups.drop_last());
        if record_affected(prs.last(), lookups.last()) {
            rest.push(prs.last().task_id@)
        } else {
            rest
        }
    }
}

proof fn lemma_tally_count_bound(prs: Seq<ParallelPrRecord>, lookups: Seq<PrLifecycleLookup>, t: PrTally)
    ensures
        tally_count(prs, lookups, t) <= prs.len(),
    decreases prs.len(),
{
    if prs.len() > 0 {
        lemma_tally_count_bound(prs.drop_last(), lookups.drop_last(), t);
    }
}

/// Reconciles the PR records with what the forge reported: `lookups[i]` is
/// the answer for `prs[i]`, consulted only for records that are open and
/// unmerged (see `reconciled_record`); the summary counts every record in
/// its bucket and lists the task ids of the records that closed or merged.
pub fn reconcile_pr_records(
    state_file: &mut ParallelStateFile,
    lookups: &[PrLifecycleLookup],
) -> (summary: ReconcileSummary)
    requires
        lookups@.len() == old(state_file).prs@.len(),
    ensures
        final(state_file).prs@.len() == old(state_file).prs@.len(),
        forall|i: int|
            0 <= i < old(state_file).prs@.len() ==> #[trigger] final(state_file).prs@[i]
                == reconciled_record(old(state_file).prs@[i], lookups@[i]),
        summary.open_count == tally_count(old(state_file).prs@, lookups@, PrTally::Open),
        summary.closed_count == tally_count(old(state_file).prs@, lookups@, PrTally::Closed),
        summary.merged_count == tally_count(old(state_file).prs@, lookups@, PrTally::Merged),
        summary.unknown_count == tally_count(old(state_file).prs@, lookups@, PrTally::Unknown),
        summary.error_count == tally_count(old(state_file).prs@, lookups@, PrTally::Error),
        summary.affected_task_ids@.map_values(|s: String| s@) == affected_ids(
            old(state_file).prs@,
            lookups@,
        ),
        final(state_file).same_header(old(state_file)),
        final(state_file).tasks_in_flight == old(state_file).tasks_in_flight,
        final(state_file).finished_without_pr == old(state_file).finished_without_pr,
        final(state_file).pending_merges == old(state_file).pending_merges,
{
    let ghost o = state_file.prs@;
    let ghost l = lookups@;
    let mut open_count: usize = 0;
    let mut closed_count: usize = 0;
    let mut merged_count: usize = 0;
    let mut unknown_count: usize = 0;
    let mut error_count: usize = 0;
    let mut affected: Vec<String> = Vec::new();
    let n = state_file.prs.len();
    let mut i: usize = 0;
    assert(o.take(0) =~= Seq::<ParallelPrRecord>::empty());
    assert(l.take(0) =~= Seq::<PrLifecycleLookup>::empty());
    while i < n
        invariant
            n == o.len(),
            l.len() == o.len(),
            l == lookups@,
            i <= n,
            state_file.prs@.len() == n,
            forall|j: int| 0 <= j < i ==> #[trigger] state_file.prs@[j] == reconciled_record(o[j], l[j]),
            forall|j: int| i <= j < n ==> #[trigger] state_file.prs@[j] == o[j],
            open_count == tally_count(o.take(i as int), l.take(i as int), PrTally::Open),
            closed_count == tally_count(o.take(i as int), l.take(i as int), PrTally::Closed),
            merged_count == tally_count(o.take(i as int), l.take(i as int), PrTally::Merged),
            unknown_count == tally_count(o.take(i as int), l.take(i as int), PrTally::Unknown),
            error_count == tally_count(o.take(i as int), l.take(i as int), PrTally::Error),
            affected@.map_values(|s: String| s@) == affected_ids(o.take(i as int), l.take(i as int)),
            state_file.same_header(old(state_file)),
            state_file.tasks_in_flight == old(state_file).tasks_in_flight,
            state_file.finished_without_pr == old(state_file).finished_without_pr,
            state_file.pending_merges == old(state_file).pending_merges,
        decreases n - i,
    {
        let ghost oi = o.take(i + 1);
        let ghost li = l.take(i + 1);
        assert(oi.drop_last() =~= o.take(i as int));
        assert(li.drop_last() =~= l.take(i as int));
        assert(oi.last() == o[i as int]);
        assert(li.last() == l[i as int]);
        proof {
            lemma_tally_count_bound(o.take(i as int), l.take(i as int), PrTally::Open);
            lemma_tally_count_bound(o.take(i as int), l.take(i as int), PrTally::Closed);
            lemma_tally_count_bound(o.take(i as int), l.take(i as int), PrTally::Merged);
            lemma_tally_count_bound(o.take(i as int), l.take(i as int), PrTally::Unknown);
            lemma_tally_count_bound(o.take(i as int), l.take(i as int), PrTally::Error);
        }
        let lifecycle = state_file.prs[i].lifecycle;
        let merged = state_file.prs[i].merged;
        if merged || lifecycle != ParallelPrLifecycle::Open {
            if lifecycle == ParallelPrLifecycle::Open {
                open_count = open_count + 1;
            } else if lifecycle == ParallelPrLifecycle::Closed {
                closed_count = closed_count + 1;
            } else {
                merged_count = merged_count + 1;
            }
        } else {
            match &lookups[i] {
                PrLifecycleLookup::Open => {
                    state_file.prs[i].lifecycle = ParallelPrLifecycle::Open;
                    open_count = open_count + 1;
                },
                PrLifecycleLookup::Closed => {
                    state_file.prs[i].lifecycle = ParallelPrLifecycle::Closed;
                    closed_count = closed_count + 1;
                    let id = state_file.prs[i].task_id.clone();
                    affected.push(id);
                },
                PrLifecycleLookup::Merged => {
                    state_file.prs[i].lifecycle = ParallelPrLifecycle::Merged;
                    state_file.prs[i].merged = true;
                    merged_count = merged_count + 1;
                    let id = state_file.prs[i].task_id.clone();
                    affected.push(id);
                },
                PrLifecycleLookup::Unknown(_) => {
                    state_file.prs[i].lifecycle = ParallelPrLifecycle::Open;
                    unknown_count = unknown_count + 1;
                },
                PrLifecycleLookup::Failed(_) => {
                    error_count = error_count + 1;
                },
            }
        }
        assert(affected@.map_values(|s: String| s@) =~= affected_ids(oi, li));
        i = i + 1;
    }
    assert(o.take(n as int) =~= o);
    assert(l.take(n as int) =~= l);
    ReconcileSummary {
        open_count,
        closed_count,
        merged_count,
        unknown_count,
        error_count,
        affected_task_ids: affected,
    }
}

} // verus!
