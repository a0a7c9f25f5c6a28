//! Properties of the parallel state operations that span several calls.
//!
//! Each law is stated over the spec functions that the operations' own
//! `ensures` use (`upsert_key`, `without_key`, `map_first`, ...), so it
//! applies to the state after the corresponding calls.
use vstd::prelude::*;
use crate::keyed::{
    Keyed, has_key, is_first_key, first_key_index, without_key, upsert_key, map_first,
    lookup_key, count_key, key_is, lemma_first_key_index, lemma_has_key_first, lemma_without_key,
};
use crate::parallel_state::{
    PendingMergeJob, PendingMergeLifecycle, ParallelPrRecord, ParallelPrLifecycle,
    ParallelFinishedWithoutPrRecord, PrLifecycleLookup, has_queued, is_first_queued,
    job_requeued, job_after_result, job_in_progress, reconciled_record, still_blocking,
    no_longer_blocking_ids, blocking_spec, ParallelNoPrReason,
};

verus! {

broadcast use vstd::seq_lib::group_seq_properties;

/// No two elements of `s` share a key.
pub open spec fn distinct_keys<T: Keyed>(s: Seq<T>) -> bool {
    forall|i: int, j: int| 0 <= i < j < s.len() ==> s[i].key() != s[j].key()
}

proof fn lemma_count_none<T: Keyed>(s: Seq<T>, k: Seq<char>)
    requires
        !has_key(s, k),
    ensures
        count_key(s, k) == 0,
{
    let p = key_is::<T>(k);
    if s.filter(p).len() > 0 {
        s.lemma_filter_pred(p, 0);
        assert(s.filter(p).contains(s.filter(p)[0]));
        s.lemma_filter_contains_rev(p, s.filter(p)[0]);
        let i = choose|i: int| 0 <= i < s.len() && s[i] == s.filter(p)[0];
        assert(s[i].key() == k);
    }
}

/// After a record is upserted, looking its id up gives that record.
pub proof fn law_upsert_then_lookup<T: Keyed>(s: Seq<T>, x: T)
    ensures
        lookup_key(upsert_key(s, x), x.key()) == Some(x),
{
    let k = x.key();
    let u = upsert_key(s, x);
    if has_key(s, k) {
        lemma_has_key_first(s, k);
        let i = first_key_index(s, k);
        assert(is_first_key(u, k, i));
        lemma_first_key_index(u, k, i);
    } else {
        assert(is_first_key(u, k, s.len() as int));
        lemma_first_key_index(u, k, s.len() as int);
    }
}

/// Upserting the same record twice is the same as upserting it once.
pub proof fn law_upsert_idempotent<T: Keyed>(s: Seq<T>, x: T)
    ensures
        upsert_key(upsert_key(s, x), x) == upsert_key(s, x),
{
    let k = x.key();
    let u = upsert_key(s, x);
    if has_key(s, k) {
        lemma_has_key_first(s, k);
        let i = first_key_index(s, k);
        assert(is_first_key(u, k, i));
        lemma_first_key_index(u, k, i);
        assert(u.update(i, x) =~= u);
    } else {
        assert(is_first_key(u, k, s.len() as int));
        lemma_first_key_index(u, k, s.len() as int);
        assert(u.update(s.len() as int, x) =~= u);
    }
}

/// Upserting keeps ids unique: a list without duplicate ids stays so, and
/// then holds exactly one record with the upserted id.
pub proof fn law_upsert_keeps_ids_distinct<T: Keyed>(s: Seq<T>, x: T)
    requires
        distinct_keys(s),
    ensures
        distinct_keys(upsert_key(s, x)),
        has_key(upsert_key(s, x), x.key()),
{
    let k = x.key();
    let u = upsert_key(s, x);
    if has_key(s, k) {
        lemma_has_key_first(s, k);
        let i = first_key_index(s, k);
        assert forall|a: int, b: int| 0 <= a < b < u.len() implies u[a].key() != u[b].key() by {
            if a == i {
                assert(s[i].key() == k);
            } else if b == i {
                assert(s[i].key() == k);
            }
        }
        assert(u[i].key() == k);
    } else {
        assert forall|a: int, b: int| 0 <= a < b < u.len() implies u[a].key() != u[b].key() by {
            if b == s.len() {
                assert(s[a].key() != k);
            }
        }
        assert(u[s.len() as int].key() == k);
    }
}

/// After every record of an id is removed, none is left.
pub proof fn law_remove_then_absent<T: Keyed>(s: Seq<T>, k: Seq<char>)
    ensures
        !has_key(without_key(s, k), k),
        lookup_key(without_key(s, k), k) is None,
        count_key(without_key(s, k), k) == 0,
{
    lemma_without_key(s, k);
    lemma_count_none(without_key(s, k), k);
}

/// Enqueueing a merge job leaves exactly one job for its task, the new one,
/// at the back of the queue.
pub proof fn law_enqueue_single_job(s: Seq<PendingMergeJob>, job: PendingMergeJob)
    ensures
        count_key(without_key(s, job.key()).push(job), job.key()) == 1,
        lookup_key(without_key(s, job.key()).push(job), job.key()) == Some(job),
        without_key(s, job.key()).push(job).last() == job,
{
    let k = job.key();
    let w = without_key(s, k);
    lemma_without_key(s, k);
    lemma_count_none(w, k);
    let p = key_is::<PendingMergeJob>(k);
    w.lemma_filter_push(job, p);
    assert(is_first_key(w.push(job), k, w.len() as int));
    lemma_first_key_index(w.push(job), k, w.len() as int);
}

/// Recording a PR for a task clears the task's finished-without-PR blocker
/// and leaves a PR record for it.
pub proof fn law_upsert_pr_clears_blocker(
    finished: Seq<ParallelFinishedWithoutPrRecord>,
    prs: Seq<ParallelPrRecord>,
    record: ParallelPrRecord,
)
    ensures
        !has_key(without_key(finished, record.task_id@), record.task_id@),
        has_key(upsert_key(prs, record), record.task_id@),
{
    lemma_without_key(finished, record.task_id@);
    law_upsert_then_lookup(prs, record);
}

/// Putting a task's job back in the queue makes a queued job available.
pub proof fn law_requeue_makes_job_available(s: Seq<PendingMergeJob>, k: Seq<char>)
    requires
        has_key(s, k),
    ensures
        has_queued(map_first(s, k, |j: PendingMergeJob| job_requeued(j))),
{
    lemma_has_key_first(s, k);
    let i = first_key_index(s, k);
    let m = map_first(s, k, |j: PendingMergeJob| job_requeued(j));
    assert(m[i].lifecycle == PendingMergeLifecycle::Queued);
}

/// A job marked in progress is no longer handed out as the next queued job:
/// the first queued job, if any, belongs to another position.
pub proof fn law_in_progress_not_next(s: Seq<PendingMergeJob>, k: Seq<char>, i: int)
    requires
        has_key(s, k),
        is_first_queued(map_first(s, k, |j: PendingMergeJob| job_in_progress(j)), i),
    ensures
        i != first_key_index(s, k),
{
    lemma_has_key_first(s, k);
}

/// A failed merge attempt counts one more attempt and records the error;
/// a successful one leaves the job queued (for removal) with its attempt
/// count unchanged.
pub proof fn law_merge_result_attempts(
    j: PendingMergeJob,
    success: bool,
    error: Option<String>,
    retryable: bool,
)
    requires
        j.attempts < 255,
    ensures
        success ==> job_after_result(j, success, error, retryable).attempts == j.attempts,
        success ==> job_after_result(j, success, error, retryable).lifecycle
            == PendingMergeLifecycle::Queued,
        !success ==> job_after_result(j, success, error, retryable).attempts == j.attempts + 1,
        !success ==> job_after_result(j, success, error, retryable).last_error == error,
        !success && retryable ==> job_after_result(j, success, error, retryable).lifecycle
            == PendingMergeLifecycle::RetryableFailed,
        !success && !retryable ==> job_after_result(j, success, error, retryable).lifecycle
            == PendingMergeLifecycle::TerminalFailed,
        job_after_result(j, success, error, retryable).task_id == j.task_id,
        job_after_result(j, success, error, retryable).pr_number == j.pr_number,
{
}

/// Reconciliation never un-merges a PR, and a record it reports merged
/// carries the merged flag.
pub proof fn law_reconcile_monotone(p: ParallelPrRecord, l: PrLifecycleLookup)
    ensures
        p.merged ==> reconciled_record(p, l).merged,
        p.lifecycle == ParallelPrLifecycle::Merged ==> reconciled_record(p, l).lifecycle
            == ParallelPrLifecycle::Merged,
        p.lifecycle != ParallelPrLifecycle::Merged && reconciled_record(p, l).lifecycle
            == ParallelPrLifecycle::Merged ==> reconciled_record(p, l).merged,
        reconciled_record(p, l).task_id == p.task_id,
        reconciled_record(p, l).pr_number == p.pr_number,
{
}

/// Pruning splits the finished-without-PR records: every record is either
/// kept (and still blocks) or dropped (and its id reported).
pub proof fn law_prune_partitions(
    records: Seq<ParallelFinishedWithoutPrRecord>,
    exists: Seq<bool>,
    now_nanos: int,
    auto_pr_enabled: bool,
    draft_on_failure: bool,
    ttl_seconds: int,
)
    requires
        exists.len() == records.len(),
    ensures
        still_blocking(records, exists, now_nanos, auto_pr_enabled, draft_on_failure, ttl_seconds).len()
            + no_longer_blocking_ids(records, exists, now_nanos, auto_pr_enabled, draft_on_failure, ttl_seconds).len()
            == records.len(),
        forall|r: ParallelFinishedWithoutPrRecord|
            #[trigger] still_blocking(records, exists, now_nanos, auto_pr_enabled, draft_on_failure, ttl_seconds).contains(r)
                ==> records.contains(r),
    decreases records.len(),
{
    if records.len() > 0 {
        law_prune_partitions(
            records.drop_last(),
            exists.drop_last(),
            now_nanos,
            auto_pr_enabled,
            draft_on_failure,
            ttl_seconds,
        );
        let kept = still_blocking(records, exists, now_nanos, auto_pr_enabled, draft_on_failure, ttl_seconds);
        let rest = still_blocking(records.drop_last(), exists.drop_last(), now_nanos, auto_pr_enabled, draft_on_failure, ttl_seconds);
        assert forall|r: ParallelFinishedWithoutPrRecord| #[trigger] kept.contains(r) implies records.contains(r) by {
            if rest.contains(r) {
                assert(records.drop_last().contains(r));
                let i = choose|i: int| 0 <= i < records.drop_last().len() && records.drop_last()[i] == r;
                assert(records[i] == r);
            } else {
                assert(r == records.last());
                assert(records[records.len() - 1] == r);
            }
        }
    }
}

/// A finished-without-PR record whose workspace is gone never blocks.
pub proof fn law_missing_workspace_never_blocks(
    r: ParallelFinishedWithoutPrRecord,
    now_nanos: int,
    auto_pr_enabled: bool,
    draft_on_failure: bool,
    ttl_seconds: int,
)
    ensures
        !blocking_spec(r, now_nanos, false, auto_pr_enabled, draft_on_failure, ttl_seconds),
{
}


/// While its workspace exists, a record left because auto PRs were disabled
/// blocks task selection exactly while auto PRs stay disabled, and one left
/// because draft PRs were disabled blocks until both auto PRs and
/// draft-on-failure are on; neither depends on the time or the TTL.
pub proof fn law_disabled_pr_records_block_until_enabled(
    r: ParallelFinishedWithoutPrRecord,
    now_nanos: int,
    auto_pr_enabled: bool,
    draft_on_failure: bool,
    ttl_seconds: int,
)
    ensures
        r.reason == ParallelNoPrReason::AutoPrDisabled ==> (blocking_spec(
            r,
            now_nanos,
            true,
            auto_pr_enabled,
            draft_on_failure,
            ttl_seconds,
        ) <==> !auto_pr_enabled),
        r.reason == ParallelNoPrReason::DraftPrDisabled ==> (blocking_spec(
            r,
            now_nanos,
            true,
            auto_pr_enabled,
            draft_on_failure,
            ttl_seconds,
        ) <==> !(auto_pr_enabled && draft_on_failure)),
{
}

} // verus!
