//! Queue lock contention: recognising the "already held" error, and what
//! resuming does about a lock left behind by a crashed run.
use vstd::prelude::*;
use crate::text::{chars_of, starts_with, starts_with_chars};

verus! {

#[verifier::external_type_specification]
#[verifier::external_body]
pub struct ExAnyhowError(anyhow::Error);

/// The messages of an error and of each of its causes, outermost first.
pub uninterp spec fn anyhow_chain_text(err: anyhow::Error) -> Seq<Seq<char>>;

/// The messages of an `anyhow::Error` and of each of its causes, outermost
/// first (`Error::chain`, each rendered with `to_string`). Claimed: the
/// messages are the named function of the error.
#[verifier::external_body]
fn error_chain_messages(err: &anyhow::Error) -> (r: Vec<String>)
    ensures
        r@.map_values(|m: String| m@) == anyhow_chain_text(*err),
{
    let mut messages = Vec::new();
    for cause in err.chain() {
        messages.push(cause.to_string());
    }
    messages
}

/// How a lock-held error message starts.
pub open spec fn lock_held_prefix() -> Seq<char> {
    "Queue lock already held at:"@
}

/// Some message of an error chain reports a held lock.
pub open spec fn chain_reports_lock_held(messages: Seq<String>) -> bool {
    exists|i: int| 0 <= i < messages.len() && starts_with(#[trigger] messages[i]@, lock_held_prefix())
}

/// Whether one of the messages of an error chain starts with
/// "Queue lock already held at:".
pub fn chain_has_lock_held(messages: &[String]) -> (r: bool)
    ensures
        r == chain_reports_lock_held(messages@),
{
    let prefix = chars_of("Queue lock already held at:");
    let mut i: usize = 0;
    while i < messages.len()
        invariant
            i <= messages@.len(),
            prefix@ == lock_held_prefix(),
            forall|j: int| 0 <= j < i ==> !starts_with(#[trigger] messages@[j]@, lock_held_prefix()),
        decreases messages.len() - i,
    {
        let v = chars_of(messages[i].as_str());
        if starts_with_chars(&v, &prefix) {
            return true;
        }
        i = i + 1;
    }
    false
}

/// Whether an error (or one of its causes) is the "Queue lock already held"
/// error; such contention is never retried. The answer is
/// `chain_has_lock_held` of the error's chain of messages.
pub fn is_queue_lock_already_held_error(err: &anyhow::Error) -> (r: bool)
    ensures
        r == exists|i: int|
            0 <= i < anyhow_chain_text(*err).len() && starts_with(
                #[trigger] anyhow_chain_text(*err)[i],
                lock_held_prefix(),
            ),
{
    let messages = error_chain_messages(err);
    let r = chain_has_lock_held(messages.as_slice());
    proof {
        let m = messages@.map_values(|x: String| x@);
        if r {
            let i = choose|i: int| 0 <= i < messages@.len() && starts_with(#[trigger] messages@[i]@, lock_held_prefix());
            assert(m[i] == messages@[i]@);
        } else {
            assert forall|i: int| 0 <= i < m.len() implies !starts_with(#[trigger] m[i], lock_held_prefix()) by {
                assert(m[i] == messages@[i]@);
            }
        }
    }
    r
}

/// What resuming does about the queue lock: nothing when there is no lock
/// directory; otherwise the caller acquires the lock with stale cleanup and
/// drops it at once. `acquire_error` holds the error chain of that attempt.
/// A lock held by a live process is left for normal acquisition to report,
/// so only other errors come back.
pub fn clear_stale_queue_lock_for_resume(
    lock_dir_exists: bool,
    acquire_error: Option<Vec<String>>,
) -> (r: Result<(), Vec<String>>)
    ensures
        match acquire_error {
            Some(e) if lock_dir_exists && !chain_reports_lock_held(e@) => r == Err::<(), Vec<String>>(e),
            _ => r is Ok,
        },
{
    if !lock_dir_exists {
        return Ok(());
    }
    match acquire_error {
        None => Ok(()),
        Some(e) => {
            if chain_has_lock_held(e.as_slice()) {
                Ok(())
            } else {
                Err(e)
            }
        },
    }
}

} // verus!
