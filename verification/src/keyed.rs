//! Records identified by a task id, and the list operations the parallel
//! state file performs on them (find the first match, replace-or-append,
//! drop every match).
use vstd::prelude::*;
use crate::text::str_eq;

verus! {

broadcast use vstd::seq_lib::group_seq_properties;

/// A record that carries a task id.
pub trait Keyed {
    /// The task id, as characters.
    spec fn key(&self) -> Seq<char>;

    /// Whether the record's task id equals `k`.
    fn key_matches(&self, k: &str) -> (r: bool)
        ensures
            r == (self.key() == k@),
    ;
}

/// A string is keyed by its own characters.
impl Keyed for String {
    open spec fn key(&self) -> Seq<char> {
        self@
    }

    fn key_matches(&self, k: &str) -> (r: bool) {
        str_eq(self.as_str(), k)
    }
}

/// Some element of `s` has key `k`.
pub open spec fn has_key<T: Keyed>(s: Seq<T>, k: Seq<char>) -> bool {
    exists|i: int| 0 <= i < s.len() && #[trigger] s[i].key() == k
}

/// `i` is the first position of `s` whose key is `k`.
pub open spec fn is_first_key<T: Keyed>(s: Seq<T>, k: Seq<char>, i: int) -> bool {
    &&& 0 <= i < s.len()
    &&& s[i].key() == k
    &&& forall|j: int| 0 <= j < i ==> #[trigger] s[j].key() != k
}

/// The first position of `s` whose key is `k` (meaningful when `has_key(s, k)`).
pub open spec fn first_key_index<T: Keyed>(s: Seq<T>, k: Seq<char>) -> int {
    choose|i: int| is_first_key(s, k, i)
}

/// The predicate "key differs from `k`".
pub open spec fn key_differs<T: Keyed>(k: Seq<char>) -> spec_fn(T) -> bool {
    |x: T| x.key() != k
}

/// `s` without any element whose key is `k`, order kept.
pub open spec fn without_key<T: Keyed>(s: Seq<T>, k: Seq<char>) -> Seq<T> {
    s.filter(key_differs(k))
}

/// Replace the first element with `x`'s key by `x`, or append `x` when there is none.
pub open spec fn upsert_key<T: Keyed>(s: Seq<T>, x: T) -> Seq<T> {
    if has_key(s, x.key()) {
        s.update(first_key_index(s, x.key()), x)
    } else {
        s.push(x)
    }
}

/// Apply `f` to the first element with key `k`; leave `s` alone when there is none.
pub open spec fn map_first<T: Keyed>(s: Seq<T>, k: Seq<char>, f: spec_fn(T) -> T) -> Seq<T> {
    if has_key(s, k) {
        let i = first_key_index(s, k);
        s.update(i, f(s[i]))
    } else {
        s
    }
}

/// The first element with key `k`, if any.
pub open spec fn lookup_key<T: Keyed>(s: Seq<T>, k: Seq<char>) -> Option<T> {
    if has_key(s, k) {
        Some(s[first_key_index(s, k)])
    } else {
        None
    }
}

/// The predicate "key is `k`".
pub open spec fn key_is<T: Keyed>(k: Seq<char>) -> spec_fn(T) -> bool {
    |x: T| x.key() == k
}

/// Number of elements of `s` whose key is `k`.
pub open spec fn count_key<T: Keyed>(s: Seq<T>, k: Seq<char>) -> nat {
    s.filter(key_is(k)).len()
}

/// The first position is unique.
pub proof fn lemma_first_key_index<T: Keyed>(s: Seq<T>, k: Seq<char>, i: int)
    requires
        is_first_key(s, k, i),
    ensures
        first_key_index(s, k) == i,
{
    let j = first_key_index(s, k);
    assert(is_first_key(s, k, j));
    if j < i {
        assert(s[j].key() != k);
    }
    if i < j {
        assert(s[i].key() != k);
    }
}

/// Whenever some element has key `k`, a first one exists.
pub proof fn lemma_has_key_first<T: Keyed>(s: Seq<T>, k: Seq<char>)
    requires
        has_key(s, k),
    ensures
        is_first_key(s, k, first_key_index(s, k)),
{
    let i = choose|i: int| 0 <= i < s.len() && #[trigger] s[i].key() == k;
    lemma_first_exists(s, k, i);
}

proof fn lemma_first_exists<T: Keyed>(s: Seq<T>, k: Seq<char>, i: int)
    requires
        0 <= i < s.len(),
        s[i].key() == k,
    ensures
        exists|m: int| is_first_key(s, k, m),
    decreases i,
{
    if exists|j: int| 0 <= j < i && #[trigger] s[j].key() == k {
        let j = choose|j: int| 0 <= j < i && #[trigger] s[j].key() == k;
        lemma_first_exists(s, k, j);
    } else {
        assert(is_first_key(s, k, i));
    }
}

/// No element of `without_key(s, k)` has key `k`, and every other element of `s` stays.
pub proof fn lemma_without_key<T: Keyed>(s: Seq<T>, k: Seq<char>)
    ensures
        !has_key(without_key(s, k), k),
        forall|x: T| s.contains(x) && x.key() != k ==> #[trigger] without_key(s, k).contains(x),
        forall|x: T| #[trigger] without_key(s, k).contains(x) ==> s.contains(x),
{
    let p = key_differs::<T>(k);
    broadcast use Seq::lemma_filter_pred, Seq::lemma_filter_contains;
    assert forall|x: T| s.contains(x) && x.key() != k implies #[trigger] without_key(
        s,
        k,
    ).contains(x) by {
        let i = choose|i: int| 0 <= i < s.len() && s[i] == x;
        s.lemma_filter_contains(p, i);
    }
    assert forall|x: T| #[trigger] without_key(s, k).contains(x) implies s.contains(x) by {
        s.lemma_filter_contains_rev(p, x);
    }
    if has_key(without_key(s, k), k) {
        let f = without_key(s, k);
        let i = choose|i: int| 0 <= i < f.len() && #[trigger] f[i].key() == k;
        s.lemma_filter_pred(p, i);
    }
}

/// Position of the first element with key `k`.
pub fn find_first<T: Keyed>(v: &Vec<T>, k: &str) -> (r: Option<usize>)
    ensures
        match r {
            Some(i) => is_first_key(v@, k@, i as int),
            None => !has_key(v@, k@),
        },
{
    let mut i: usize = 0;
    while i < v.len()
        invariant
            i <= v.len(),
            forall|j: int| 0 <= j < i ==> #[trigger] v@[j].key() != k@,
        decreases v.len() - i,
    {
        if v[i].key_matches(k) {
            return Some(i);
        }
        i = i + 1;
    }
    None
}

/// Removes every element with key `k`; returns whether any was removed.
pub fn remove_key<T: Keyed>(v: &mut Vec<T>, k: &str) -> (removed: bool)
    ensures
        final(v)@ == without_key(old(v)@, k@),
        removed == has_key(old(v)@, k@),
{
    let ghost o = v@;
    let ghost p = key_differs::<T>(k@);
    let mut i: usize = 0;
    let mut j: usize = 0;
    let mut removed = false;
    let n0 = v.len();
    assert(o.len() == n0);
    assert(o.take(0) =~= Seq::<T>::empty());
    assert(o.take(0).filter(p) =~= Seq::<T>::empty()) by {
        reveal(Seq::filter);
    }
    assert(o.skip(0) =~= o);
    while i < v.len()
        invariant
            p == key_differs::<T>(k@),
            o.len() <= usize::MAX,
            j <= o.len(),
            v.len() == i + (o.len() - j),
            i == o.take(j as int).filter(p).len(),
            v@ == o.take(j as int).filter(p) + o.skip(j as int),
            removed == (exists|m: int| 0 <= m < j && #[trigger] o[m].key() == k@),
        decreases v.len() - i,
    {
        let ghost before = v@;
        let ghost pre = o.take(j as int).filter(p);
        assert(o.skip(j as int) =~= seq![o[j as int]] + o.skip(j + 1));
        assert(before =~= pre + seq![o[j as int]] + o.skip(j + 1));
        assert(before[i as int] == o[j as int]);
        assert(o.take(j + 1) =~= o.take(j as int).push(o[j as int]));
        proof {
            o.take(j as int).lemma_filter_push(o[j as int], p);
        }
        let m = v[i].key_matches(k);
        assert(m == (o[j as int].key() == k@));
        assert(p(o[j as int]) == (o[j as int].key() != k@));
        if m {
            v.remove(i);
            removed = true;
            assert(!p(o[j as int]));
            assert(v@ =~= pre + o.skip(j + 1));
            assert(v@ =~= o.take(j + 1).filter(p) + o.skip(j + 1));
        } else {
            i = i + 1;
            assert(p(o[j as int]));
            assert(o.take(j + 1).filter(p) =~= pre.push(o[j as int]));
            assert(v@ =~= o.take(j + 1).filter(p) + o.skip(j + 1));
        }
        j = j + 1;
    }
    assert(j == o.len()) by {
        assert(o.skip(j as int).len() == 0);
    }
    assert(o.take(j as int) =~= o);
    assert(v@ =~= o.filter(p));
    removed
}

/// Replaces the first element with `x`'s key by `x`, or appends `x`.
pub fn upsert<T: Keyed>(v: &mut Vec<T>, x: T, k: &str)
    requires
        k@ == x.key(),
    ensures
        final(v)@ == upsert_key(old(v)@, x),
{
    match find_first(v, k) {
        Some(i) => {
            proof {
                lemma_first_key_index(v@, k@, i as int);
            }
            v.set(i, x);
        },
        None => {
            v.push(x);
        },
    }
}

} // verus!
