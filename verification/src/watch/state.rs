//! Debounce state of a watch session: the set of changed files waiting to be
//! scanned and the time of the last accepted event.
use vstd::prelude::*;
use crate::pathname::{path_components, same_path};
use std::time::{Duration, Instant};

verus! {

#[verifier::external_type_specification]
#[verifier::external_body]
pub struct ExInstant(std::time::Instant);

/// `Instant::now` (std). Nothing is claimed of the value: it is a reading of
/// the monotonic clock.
#[verifier::external_body]
fn instant_now() -> (r: Instant) {
    Instant::now()
}

/// `Instant::duration_since` (std), as whole nanoseconds. Nothing is claimed
/// of the value: it depends on when the two instants were taken.
#[verifier::external_body]
fn nanos_since(now: &Instant, earlier: &Instant) -> (r: u128) {
    now.duration_since(*earlier).as_nanos()
}

/// The duration of `ms` milliseconds.
pub uninterp spec fn millis_duration(ms: u64) -> Duration;

/// `Duration::from_millis` (std). Claimed: the duration is the named
/// function of the millisecond count.
#[verifier::external_body]
fn duration_from_millis(ms: u64) -> (r: Duration)
    ensures
        r == millis_duration(ms),
{
    Duration::from_millis(ms)
}

/// A debounce window of `debounce_ms` milliseconds has passed after
/// `elapsed_nanos` nanoseconds.
pub open spec fn window_elapsed(elapsed_nanos: u128, debounce_ms: u64) -> bool {
    elapsed_nanos >= debounce_ms as int * 1_000_000
}

/// Whether `elapsed_nanos` nanoseconds cover a window of `debounce_ms`
/// milliseconds.
pub fn debounce_elapsed(elapsed_nanos: u128, debounce_ms: u64) -> (r: bool)
    ensures
        r == window_elapsed(elapsed_nanos, debounce_ms),
{
    let window: u128 = (debounce_ms as u128) * 1_000_000;
    elapsed_nanos >= window
}

/// No two entries of `s` are the same path (as `PathBuf`s compare: by
/// components).
pub open spec fn distinct_paths(s: Seq<String>) -> bool {
    forall|i: int, j: int| 0 <= i < j < s.len() ==> path_components(s[i]@) != path_components(s[j]@)
}

/// Some entry of `s` is the same path as `p`.
pub open spec fn has_path(s: Seq<String>, p: Seq<char>) -> bool {
    exists|i: int| 0 <= i < s.len() && #[trigger] path_components(s[i]@) == path_components(p)
}

/// The paths held by `s`, each by its components, as a set.
pub open spec fn path_set(s: Seq<String>) -> Set<Seq<Seq<char>>> {
    Set::new(|k: Seq<Seq<char>>| exists|i: int| 0 <= i < s.len() && #[trigger] path_components(s[i]@) == k)
}

/// Internal state for the file watcher.
pub struct WatchState {
    /// Files changed since the last scan, each once.
    pub pending_files: Vec<String>,
    /// When the last event was accepted (or the pending set last taken).
    pub last_event: Instant,
    /// Debounce window, in milliseconds.
    pub debounce_ms: u64,
}

impl WatchState {
    /// The pending list holds each path once.
    pub open spec fn wf(&self) -> bool {
        distinct_paths(self.pending_files@)
    }

    /// The pending paths, as a set.
    pub open spec fn pending_set(&self) -> Set<Seq<Seq<char>>> {
        path_set(self.pending_files@)
    }

    /// An empty state whose clock starts now.
    pub fn new(debounce_ms: u64) -> (r: Self)
        ensures
            r.wf(),
            r.pending_files@.len() == 0,
            r.debounce_ms == debounce_ms,
    {
        WatchState::new_at(debounce_ms, instant_now())
    }

    /// An empty state whose clock starts at `now`.
    pub fn new_at(debounce_ms: u64, now: Instant) -> (r: Self)
        ensures
            r.wf(),
            r.pending_files@.len() == 0,
            r.debounce_ms == debounce_ms,
            r.last_event == now,
    {
        WatchState { pending_files: Vec::new(), last_event: now, debounce_ms }
    }

    /// The debounce window as a `Duration`.
    pub fn debounce_duration(&self) -> (r: Duration)
        ensures
            r == millis_duration(self.debounce_ms),
    {
        duration_from_millis(self.debounce_ms)
    }

    /// Adds `path` to the pending set (once) at time `now`, `elapsed_nanos`
    /// after the last accepted event, and reports whether the debounce window
    /// has elapsed; when it has, the event time moves to `now`.
    pub fn add_file_at(&mut self, path: String, now: Instant, elapsed_nanos: u128) -> (r: bool)
        requires
            old(self).wf(),
        ensures
            final(self).wf(),
            final(self).pending_files@ == (if has_path(old(self).pending_files@, path@) {
                old(self).pending_files@
            } else {
                old(self).pending_files@.push(path)
            }),
            final(self).pending_set() == old(self).pending_set().insert(path_components(path@)),
            final(self).debounce_ms == old(self).debounce_ms,
            r == window_elapsed(elapsed_nanos, old(self).debounce_ms),
            r ==> final(self).last_event == now,
            !r ==> final(self).last_event == old(self).last_event,
    {
        let ghost before = self.pending_files@;
        let mut k: usize = 0;
        let mut found = false;
        while k < self.pending_files.len() && !found
            invariant
                k <= self.pending_files@.len(),
                self.pending_files@ == before,
                found ==> has_path(before, path@),
                !found ==> forall|m: int| 0 <= m < k ==> path_components(#[trigger] before[m]@) != path_components(path@),
            decreases self.pending_files.len() - k + (if found { 0int } else { 1int }),
        {
            if same_path(self.pending_files[k].as_str(), path.as_str()) {
                found = true;
            } else {
                k = k + 1;
            }
        }
        let ghost key = path_components(path@);
        if !found {
            assert(!has_path(before, path@));
            self.pending_files.push(path);
            assert forall|i: int, j: int|
                0 <= i < j < self.pending_files@.len() implies path_components(self.pending_files@[i]@)
                != path_components(self.pending_files@[j]@) by {
                if j == before.len() {
                    assert(path_components(before[i]@) != key);
                }
            }
        }
        assert(self.pending_set() =~= path_set(before).insert(key)) by {
            assert forall|q: Seq<Seq<char>>| #[trigger] self.pending_set().contains(q) == (path_set(before).contains(q) || q == key) by {
                if self.pending_set().contains(q) && !path_set(before).contains(q) {
                    let i = choose|i: int| 0 <= i < self.pending_files@.len() && #[trigger] path_components(self.pending_files@[i]@) == q;
                    if i < before.len() {
                        assert(path_components(before[i]@) == q);
                    }
                }
                if path_set(before).contains(q) {
                    let i = choose|i: int| 0 <= i < before.len() && #[trigger] path_components(before[i]@) == q;
                    assert(path_components(self.pending_files@[i]@) == q);
                }
                if q == key {
                    if found {
                        let i = choose|i: int| 0 <= i < before.len() && #[trigger] path_components(before[i]@) == path_components(path@);
                        assert(path_components(self.pending_files@[i]@) == q);
                    } else {
                        assert(path_components(self.pending_files@[before.len() as int]@) == q);
                    }
                }
            }
        }
        if debounce_elapsed(elapsed_nanos, self.debounce_ms) {
            self.last_event = now;
            true
        } else {
            false
        }
    }

    /// Adds `path` to the pending set (once), then reports whether the
    /// debounce window has elapsed since the last accepted event (by the
    /// clock, through `add_file_at`); when it has, the event time moves to
    /// now. A zero window has always elapsed.
    pub fn add_file(&mut self, path: String) -> (r: bool)
        requires
            old(self).wf(),
        ensures
            final(self).wf(),
            final(self).pending_files@ == (if has_path(old(self).pending_files@, path@) {
                old(self).pending_files@
            } else {
                old(self).pending_files@.push(path)
            }),
            final(self).pending_set() == old(self).pending_set().insert(path_components(path@)),
            final(self).debounce_ms == old(self).debounce_ms,
            !r ==> final(self).last_event == old(self).last_event,
            old(self).debounce_ms == 0 ==> r,
    {
        let now = instant_now();
        let elapsed = nanos_since(&now, &self.last_event);
        self.add_file_at(path, now, elapsed)
    }

    /// Takes every pending file, leaving the set empty, and restarts the
    /// event clock.
    pub fn take_pending(&mut self) -> (r: Vec<String>)
        requires
            old(self).wf(),
        ensures
            final(self).wf(),
            r@ == old(self).pending_files@,
            final(self).pending_files@.len() == 0,
            final(self).debounce_ms == old(self).debounce_ms,
    {
        let now = instant_now();
        self.take_pending_at(now)
    }

    /// Takes every pending file, leaving the set empty, and restarts the
    /// event clock at `now`.
    pub fn take_pending_at(&mut self, now: Instant) -> (r: Vec<String>)
        requires
            old(self).wf(),
        ensures
            final(self).wf(),
            r@ == old(self).pending_files@,
            final(self).pending_files@.len() == 0,
            final(self).debounce_ms == old(self).debounce_ms,
            final(self).last_event == now,
    {
        let mut files: Vec<String> = Vec::new();
        std::mem::swap(&mut files, &mut self.pending_files);
        self.last_event = now;
        files
    }
    /// Whether pending files are due for a scan at `now`: there are some, and
    /// the debounce window has elapsed since the last event (always, for a
    /// zero window).
    pub fn pending_files_ready_at(&self, now: &Instant) -> (r: bool)
        ensures
            self.pending_files@.len() == 0 ==> !r,
            self.pending_files@.len() > 0 && self.debounce_ms == 0 ==> r,
    {
        let elapsed = nanos_since(now, &self.last_event);
        self.pending_files_ready_after(elapsed)
    }

    /// Whether pending files are due for a scan `elapsed_nanos` after the
    /// last event: there are some, and the debounce window has elapsed.
    pub fn pending_files_ready_after(&self, elapsed_nanos: u128) -> (r: bool)
        ensures
            r == (self.pending_files@.len() > 0 && window_elapsed(elapsed_nanos, self.debounce_ms)),
    {
        self.pending_files.len() > 0 && debounce_elapsed(elapsed_nanos, self.debounce_ms)
    }
}

} // verus!
