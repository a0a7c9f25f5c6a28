//! Character-level string helpers shared by the rest of the library.
//!
//! Strings are modelled by their view, a `Seq<char>`; every helper here states
//! its result over that view.
use vstd::prelude::*;

verus! {

/// Unicode `White_Space` code points, exactly the set `char::is_whitespace` accepts.
pub open spec fn is_ws(c: char) -> bool {
    let n = c as u32;
    ||| (0x09 <= n && n <= 0x0d)
    ||| n == 0x20
    ||| n == 0x85
    ||| n == 0xa0
    ||| n == 0x1680
    ||| (0x2000 <= n && n <= 0x200a)
    ||| n == 0x2028
    ||| n == 0x2029
    ||| n == 0x202f
    ||| n == 0x205f
    ||| n == 0x3000
}

/// Executable whitespace test matching `is_ws`.
pub fn char_is_ws(c: char) -> (r: bool)
    ensures
        r == is_ws(c),
{
    let n = c as u32;
    (0x09 <= n && n <= 0x0d) || n == 0x20 || n == 0x85 || n == 0xa0 || n == 0x1680 || (0x2000
        <= n && n <= 0x200a) || n == 0x2028 || n == 0x2029 || n == 0x202f || n == 0x205f || n
        == 0x3000
}

/// The sequence with leading whitespace removed.
pub open spec fn trim_start(s: Seq<char>) -> Seq<char>
    decreases s.len(),
{
    if s.len() > 0 && is_ws(s[0]) {
        trim_start(s.drop_first())
    } else {
        s
    }
}

/// The sequence with trailing whitespace removed.
pub open spec fn trim_end(s: Seq<char>) -> Seq<char>
    decreases s.len(),
{
    if s.len() > 0 && is_ws(s.last()) {
        trim_end(s.drop_last())
    } else {
        s
    }
}

/// What `str::trim` returns: both ends stripped of whitespace.
pub open spec fn trim(s: Seq<char>) -> Seq<char> {
    trim_end(trim_start(s))
}

/// Appends one character (`String::push`).
#[verifier::external_body]
pub(crate) fn push_char(s: &mut String, c: char)
    ensures
        final(s)@ == old(s)@.push(c),
{
    s.push(c);
}

/// Appends a string slice.
pub fn push_str(s: &mut String, t: &str)
    ensures
        final(s)@ == old(s)@ + t@,
{
    s.append(t);
}

/// The characters of `s`, in order.
pub fn chars_of(s: &str) -> (v: Vec<char>)
    ensures
        v@ == s@,
{
    let n = s.unicode_len();
    let mut v: Vec<char> = Vec::new();
    let mut i: usize = 0;
    while i < n
        invariant
            n == s@.len(),
            i <= n,
            v@ == s@.subrange(0, i as int),
        decreases n - i,
    {
        let c = s.get_char(i);
        v.push(c);
        i = i + 1;
        assert(v@ =~= s@.subrange(0, i as int));
    }
    assert(v@ =~= s@);
    v
}

/// A `String` holding `v[lo..hi]`.
pub fn string_from_chars(v: &Vec<char>, lo: usize, hi: usize) -> (s: String)
    requires
        lo <= hi <= v.len(),
    ensures
        s@ == v@.subrange(lo as int, hi as int),
{
    let mut s = String::new();
    let mut i = lo;
    while i < hi
        invariant
            lo <= i <= hi <= v.len(),
            s@ == v@.subrange(lo as int, i as int),
        decreases hi - i,
    {
        push_char(&mut s, v[i]);
        i = i + 1;
        assert(s@ =~= v@.subrange(lo as int, i as int));
    }
    s
}

proof fn lemma_trim_start_sub(s: Seq<char>, i: int)
    requires
        0 <= i <= s.len(),
        forall|j: int| 0 <= j < i ==> is_ws(#[trigger] s[j]),
    ensures
        trim_start(s) == trim_start(s.subrange(i, s.len() as int)),
    decreases i,
{
    if i > 0 {
        assert(s.drop_first() =~= s.subrange(1, s.len() as int));
        lemma_trim_start_sub(s.drop_first(), i - 1);
        assert(s.drop_first().subrange(i - 1, s.drop_first().len() as int) =~= s.subrange(
            i,
            s.len() as int,
        ));
    } else {
        assert(s.subrange(0, s.len() as int) =~= s);
    }
}

proof fn lemma_trim_end_sub(s: Seq<char>, k: int)
    requires
        0 <= k <= s.len(),
        forall|j: int| k <= j < s.len() ==> is_ws(#[trigger] s[j]),
    ensures
        trim_end(s) == trim_end(s.subrange(0, k)),
    decreases s.len() - k,
{
    if k < s.len() {
        assert(s.drop_last() =~= s.subrange(0, s.len() - 1));
        lemma_trim_end_sub(s.drop_last(), k);
        assert(s.drop_last().subrange(0, k) =~= s.subrange(0, k));
    } else {
        assert(s.subrange(0, k) =~= s);
    }
}

/// Bounds `(lo, hi)` such that `v[lo..hi]` is `v` trimmed of whitespace.
pub fn trim_bounds(v: &Vec<char>) -> (r: (usize, usize))
    ensures
        r.0 <= r.1 <= v.len(),
        v@.subrange(r.0 as int, r.1 as int) == trim(v@),
{
    let n = v.len();
    let mut lo: usize = 0;
    while lo < n && char_is_ws(v[lo])
        invariant
            lo <= n == v.len(),
            forall|j: int| 0 <= j < lo ==> is_ws(#[trigger] v@[j]),
        decreases n - lo,
    {
        lo = lo + 1;
    }
    let mut hi: usize = n;
    while hi > lo && char_is_ws(v[hi - 1])
        invariant
            lo <= hi <= n == v.len(),
            forall|j: int| hi <= j < n ==> is_ws(#[trigger] v@[j]),
        decreases hi,
    {
        hi = hi - 1;
    }
    proof {
        let s = v@;
        lemma_trim_start_sub(s, lo as int);
        let t = s.subrange(lo as int, n as int);
        // t does not start with whitespace (or is empty)
        assert(t.len() == 0 || !is_ws(t[0]));
        assert(trim_start(t) == t);
        lemma_trim_end_sub(t, hi - lo);
        let u = t.subrange(0, hi - lo);
        assert(u =~= s.subrange(lo as int, hi as int));
        assert(u.len() == 0 || !is_ws(u.last()));
        assert(trim_end(u) == u);
    }
    (lo, hi)
}

/// `str::trim`, as an owned `String`.
pub fn trimmed(s: &str) -> (r: String)
    ensures
        r@ == trim(s@),
{
    let v = chars_of(s);
    let (lo, hi) = trim_bounds(&v);
    string_from_chars(&v, lo, hi)
}

/// The ASCII digit for `d < 10`.
pub open spec fn digit_char(d: nat) -> char {
    (('0' as u32) + d) as char
}

/// Decimal rendering of a natural number, as `Display` prints it.
pub open spec fn decimal(n: nat) -> Seq<char>
    decreases n,
{
    if n < 10 {
        seq![digit_char(n)]
    } else {
        decimal(n / 10).push(digit_char(n % 10))
    }
}

fn digit(d: u64) -> (c: char)
    requires
        d < 10,
    ensures
        c == digit_char(d as nat),
{
    if d == 0 { '0' }
    else if d == 1 { '1' }
    else if d == 2 { '2' }
    else if d == 3 { '3' }
    else if d == 4 { '4' }
    else if d == 5 { '5' }
    else if d == 6 { '6' }
    else if d == 7 { '7' }
    else if d == 8 { '8' }
    else { '9' }
}

/// Appends the decimal rendering of `n` to `s`.
pub fn push_decimal(s: &mut String, n: u64)
    ensures
        final(s)@ == old(s)@ + decimal(n as nat),
    decreases n,
{
    if n < 10 {
        push_char(s, digit(n));
        assert(decimal(n as nat) =~= seq![digit_char(n as nat)]);
    } else {
        push_decimal(s, n / 10);
        push_char(s, digit(n % 10));
        assert(decimal(n as nat) == decimal((n / 10) as nat).push(digit_char((n % 10) as nat)));
        assert(final(s)@ =~= old(s)@ + decimal(n as nat));
    }
}

/// `true` when `s` starts with `prefix`.
pub open spec fn starts_with(s: Seq<char>, prefix: Seq<char>) -> bool {
    prefix.len() <= s.len() && s.subrange(0, prefix.len() as int) == prefix
}

/// `true` when `needle` occurs somewhere in `s`.
pub open spec fn contains_seq(s: Seq<char>, needle: Seq<char>) -> bool {
    exists|i: int|
        0 <= i && i + needle.len() <= s.len() && #[trigger] s.subrange(i, i + needle.len())
            == needle
}

/// Compares `v[at..at + w.len()]` with `w`.
pub fn matches_at(v: &Vec<char>, at: usize, w: &Vec<char>) -> (r: bool)
    requires
        at <= v.len(),
    ensures
        r == (at + w.len() <= v.len() && v@.subrange(at as int, at + w.len()) == w@),
{
    if w.len() > v.len() - at {
        return false;
    }
    let mut j: usize = 0;
    while j < w.len()
        invariant
            at + w.len() <= v.len(),
            j <= w.len(),
            forall|k: int| 0 <= k < j ==> v@[at + k] == w@[k],
        decreases w.len() - j,
    {
        if v[at + j] != w[j] {
            assert(v@.subrange(at as int, at + w.len())[j as int] != w@[j as int]);
            return false;
        }
        j = j + 1;
    }
    assert(v@.subrange(at as int, at + w.len()) =~= w@);
    true
}

/// Substring search over characters (`str::contains`).
pub fn contains_chars(v: &Vec<char>, w: &Vec<char>) -> (r: bool)
    ensures
        r == contains_seq(v@, w@),
{
    if w.len() > v.len() {
        return false;
    }
    let mut i: usize = 0;
    let last = v.len() - w.len();
    while i < last
        invariant
            w.len() <= v.len(),
            last == v.len() - w.len(),
            i <= last,
            forall|k: int|
                0 <= k < i ==> #[trigger] v@.subrange(k, k + w.len()) != w@,
        decreases last - i,
    {
        if matches_at(v, i, w) {
            return true;
        }
        i = i + 1;
    }
    if matches_at(v, last, w) {
        return true;
    }
    assert forall|k: int| 0 <= k && k + w.len() <= v.len() implies #[trigger] v@.subrange(
        k,
        k + w.len(),
    ) != w@ by {}
    false
}

/// `str::starts_with` over characters.
pub fn starts_with_chars(v: &Vec<char>, p: &Vec<char>) -> (r: bool)
    ensures
        r == starts_with(v@, p@),
{
    matches_at(v, 0, p)
}

/// `==` on two strings, by their characters.
pub fn str_eq(a: &str, b: &str) -> (r: bool)
    ensures
        r == (a@ == b@),
{
    let va = chars_of(a);
    let vb = chars_of(b);
    if va.len() != vb.len() {
        return false;
    }
    let r = matches_at(&va, 0, &vb);
    assert(va@.subrange(0, vb@.len() as int) =~= va@);
    r
}

/// The pieces of `s` between `'\n'` characters (`str::split('\n')`): there is
/// always at least one, and a trailing newline yields a final empty piece.
pub open spec fn split_nl(s: Seq<char>) -> Seq<Seq<char>>
    decreases s.len(),
{
    if s.len() == 0 {
        seq![Seq::empty()]
    } else if s.last() == '\n' {
        split_nl(s.drop_last()).push(Seq::empty())
    } else {
        let p = split_nl(s.drop_last());
        p.update(p.len() - 1, p.last().push(s.last()))
    }
}

pub proof fn lemma_split_nl_len(s: Seq<char>)
    ensures
        split_nl(s).len() >= 1,
    decreases s.len(),
{
    if s.len() > 0 {
        lemma_split_nl_len(s.drop_last());
    }
}

/// Splitting after a newline: the pieces of `a + b`, where `a` ends in a
/// newline, are those of `a` (without its final empty piece) then those of `b`.
pub proof fn lemma_split_nl_append(a: Seq<char>, b: Seq<char>)
    requires
        a.len() > 0,
        a.last() == '\n',
    ensures
        split_nl(a + b) == split_nl(a).drop_last() + split_nl(b),
    decreases b.len(),
{
    lemma_split_nl_len(a.drop_last());
    if b.len() == 0 {
        assert(a + b =~= a);
        assert(split_nl(a).drop_last() =~= split_nl(a.drop_last()));
        assert(split_nl(a).drop_last() + split_nl(b) =~= split_nl(a));
    } else {
        let b0 = b.drop_last();
        assert((a + b).drop_last() =~= a + b0);
        lemma_split_nl_append(a, b0);
        lemma_split_nl_len(b0);
        if b.last() == '\n' {
            assert(split_nl(a + b) =~= (split_nl(a).drop_last() + split_nl(b0)).push(Seq::empty()));
            assert(split_nl(a).drop_last() + split_nl(b) =~= (split_nl(a).drop_last() + split_nl(b0)).push(Seq::empty()));
        } else {
            let x = split_nl(a).drop_last();
            let y = split_nl(b0);
            assert((x + y).last() == y.last());
            assert((x + y).update((x + y).len() - 1, y.last().push(b.last())) =~= x + y.update(y.len() - 1, y.last().push(b.last())));
        }
    }
}

/// The pieces of `s` between newlines, as strings (see `split_nl`).
pub fn split_newlines(s: &str) -> (r: Vec<String>)
    ensures
        r@.map_values(|p: String| p@) == split_nl(s@),
{
    let v = chars_of(s);
    let mut done: Vec<String> = Vec::new();
    let mut cur = String::new();
    let mut i: usize = 0;
    assert(v@.take(0) =~= Seq::<char>::empty());
    assert(done@.map_values(|p: String| p@).push(cur@) =~= split_nl(v@.take(0)));
    while i < v.len()
        invariant
            i <= v@.len(),
            v@ == s@,
            done@.map_values(|p: String| p@).push(cur@) == split_nl(v@.take(i as int)),
        decreases v.len() - i,
    {
        let c = v[i];
        let ghost t = v@.take(i + 1);
        assert(t.drop_last() =~= v@.take(i as int));
        assert(t.last() == c);
        if c == '\n' {
            done.push(cur);
            cur = String::new();
            assert(done@.map_values(|p: String| p@).push(cur@) =~= split_nl(v@.take(i as int)).push(Seq::empty()));
        } else {
            let ghost before = cur@;
            push_char(&mut cur, c);
            assert(done@.map_values(|p: String| p@).push(cur@) =~= split_nl(v@.take(i as int)).update(
                split_nl(v@.take(i as int)).len() - 1,
                before.push(c),
            ));
        }
        i = i + 1;
    }
    assert(v@.take(i as int) =~= s@);
    done.push(cur);
    done
}

/// Some line of `s` (a piece between newlines) trims to `x`.
pub open spec fn has_trimmed_line(s: Seq<char>, x: Seq<char>) -> bool {
    exists|i: int| 0 <= i < split_nl(s).len() && trim(#[trigger] split_nl(s)[i]) == x
}

/// The pieces of a text, held as strings, answer `has_trimmed_line`.
pub proof fn lemma_lines_trimmed(lines: Seq<String>, s: Seq<char>, x: Seq<char>)
    requires
        lines.map_values(|p: String| p@) == split_nl(s),
    ensures
        (exists|i: int| 0 <= i < lines.len() && trim(#[trigger] lines[i]@) == x) == has_trimmed_line(s, x),
{
    let sp = split_nl(s);
    assert(lines.len() == sp.len());
    if exists|i: int| 0 <= i < lines.len() && trim(#[trigger] lines[i]@) == x {
        let i = choose|i: int| 0 <= i < lines.len() && trim(#[trigger] lines[i]@) == x;
        assert(sp[i] == lines[i]@);
    }
    if has_trimmed_line(s, x) {
        let i = choose|i: int| 0 <= i < sp.len() && trim(#[trigger] sp[i]) == x;
        assert(sp[i] == lines[i]@);
    }
}

/// Whether some line of the text trims to `x`.
pub fn any_line_trims_to(lines: &Vec<String>, x: &str) -> (r: bool)
    ensures
        r == exists|i: int| 0 <= i < lines@.len() && trim(#[trigger] lines@[i]@) == x@,
{
    let mut i: usize = 0;
    while i < lines.len()
        invariant
            i <= lines@.len(),
            forall|j: int| 0 <= j < i ==> trim(#[trigger] lines@[j]@) != x@,
        decreases lines.len() - i,
    {
        let t = trimmed(lines[i].as_str());
        if str_eq(t.as_str(), x) {
            return true;
        }
        i = i + 1;
    }
    false
}

/// `s` with every occurrence of `from` replaced by `to`, scanning left to
/// right without overlaps (`str::replace`).
pub open spec fn replace_all(s: Seq<char>, from: Seq<char>, to: Seq<char>) -> Seq<char>
    recommends
        from.len() > 0,
    decreases s.len(),
{
    if from.len() == 0 || s.len() < from.len() {
        s
    } else if s.take(from.len() as int) == from {
        to + replace_all(s.skip(from.len() as int), from, to)
    } else {
        seq![s[0]] + replace_all(s.skip(1), from, to)
    }
}

/// `str::replace` for a non-empty pattern.
pub fn replace_str(s: &str, from: &str, to: &str) -> (r: String)
    requires
        from@.len() > 0,
    ensures
        r@ == replace_all(s@, from@, to@),
{
    let v = chars_of(s);
    let w = chars_of(from);
    let mut out = String::new();
    let mut i: usize = 0;
    assert(v@.skip(0) =~= v@);
    while i < v.len()
        invariant
            i <= v@.len(),
            v@ == s@,
            w@ == from@,
            w@.len() > 0,
            out@ + replace_all(v@.skip(i as int), w@, to@) == replace_all(s@, w@, to@),
        decreases v.len() - i,
    {
        let ghost rest = v@.skip(i as int);
        if matches_at(&v, i, &w) {
            assert(rest.take(w@.len() as int) =~= v@.subrange(i as int, i + w.len()));
            assert(rest.skip(w@.len() as int) =~= v@.skip(i + w.len()));
            let ghost before = out@;
            push_str(&mut out, to);
            assert(out@ + replace_all(v@.skip(i + w.len()), w@, to@) =~= before + (to@ + replace_all(rest.skip(w@.len() as int), w@, to@)));
            i = i + w.len();
        } else {
            proof {
                if rest.len() >= w@.len() {
                    assert(rest.take(w@.len() as int) =~= v@.subrange(i as int, i + w.len()));
                }
            }
            assert(rest.skip(1) =~= v@.skip(i + 1));
            let ghost before = out@;
            push_char(&mut out, v[i]);
            assert(out@ + replace_all(v@.skip(i + 1), w@, to@) =~= before + (seq![rest[0]] + replace_all(rest.skip(1), w@, to@)));
            i = i + 1;
        }
    }
    assert(v@.skip(i as int) =~= Seq::<char>::empty());
    assert(out@ + replace_all(v@.skip(i as int), w@, to@) =~= out@);
    out
}

/// A line without the carriage return that preceded its newline.
pub open spec fn strip_cr(x: Seq<char>) -> Seq<char> {
    if x.len() > 0 && x.last() == '\r' {
        x.drop_last()
    } else {
        x
    }
}

/// The lines of `s`, as `str::lines` gives them: split at `'\n'`, a final
/// line ending being optional, and a `'\r'` just before a `'\n'` dropped.
pub open spec fn std_lines(s: Seq<char>) -> Seq<Seq<char>> {
    let p = split_nl(s);
    let init = p.drop_last().map_values(|x: Seq<char>| strip_cr(x));
    if p.last().len() == 0 {
        init
    } else {
        init.push(p.last())
    }
}

/// `str::lines`, as owned strings.
pub fn str_lines(s: &str) -> (r: Vec<String>)
    ensures
        r@.map_values(|x: String| x@) == std_lines(s@),
{
    let pieces = split_newlines(s);
    proof {
        lemma_split_nl_len(s@);
    }
    let ghost p = split_nl(s@);
    let n = pieces.len();
    let mut r: Vec<String> = Vec::new();
    let mut i: usize = 0;
    while i + 1 < n
        invariant
            n == pieces@.len(),
            n >= 1,
            p == split_nl(s@),
            pieces@.map_values(|x: String| x@) == p,
            i + 1 <= n,
            r@.map_values(|x: String| x@) == p.take(i as int).map_values(|x: Seq<char>| strip_cr(x)),
        decreases n - i,
    {
        let v = chars_of(pieces[i].as_str());
        let len = v.len();
        let line = if len > 0 && v[len - 1] == '\r' {
            string_from_chars(&v, 0, len - 1)
        } else {
            string_from_chars(&v, 0, len)
        };
        proof {
            assert(pieces@[i as int]@ == p[i as int]);
            assert(v@.subrange(0, len as int) =~= v@);
            if len > 0 {
                assert(v@.subrange(0, len - 1) =~= v@.drop_last());
            }
        }
        let ghost before = r@;
        r.push(line);
        assert(r@.map_values(|x: String| x@) =~= before.map_values(|x: String| x@).push(strip_cr(p[i as int])));
        assert(p.take(i + 1).map_values(|x: Seq<char>| strip_cr(x)) =~= p.take(i as int).map_values(|x: Seq<char>| strip_cr(x)).push(strip_cr(p[i as int])));
        i = i + 1;
    }
    assert(p.take(i as int) =~= p.drop_last());
    let last = n - 1;
    assert(pieces@[last as int]@ == p.last());
    if pieces[last].as_str().unicode_len() > 0 {
        let ghost before = r@;
        let l = pieces[last].clone();
        r.push(l);
        assert(r@.map_values(|x: String| x@) =~= before.map_values(|x: String| x@).push(p.last()));
    }
    r
}

/// The first position at or after `i` where `needle` occurs in `s`.
pub open spec fn find_from(s: Seq<char>, needle: Seq<char>, i: int) -> Option<int>
    decreases s.len() + 1 - i,
{
    if i < 0 || i + needle.len() > s.len() {
        None
    } else if s.subrange(i, i + needle.len()) == needle {
        Some(i)
    } else {
        find_from(s, needle, i + 1)
    }
}

/// A match found by `find_from` lies where the search started or after it.
pub proof fn lemma_find_from_bounds(s: Seq<char>, needle: Seq<char>, i: int)
    ensures
        find_from(s, needle, i) matches Some(k) ==> i <= k && k + needle.len() <= s.len()
            && s.subrange(k, k + needle.len()) == needle,
    decreases s.len() + 1 - i,
{
    if !(i < 0 || i + needle.len() > s.len()) && s.subrange(i, i + needle.len()) != needle {
        lemma_find_from_bounds(s, needle, i + 1);
    }
}

/// The first occurrence of `w` in `v` at or after `from` (`str::find` on a suffix).
pub fn find_chars(v: &Vec<char>, w: &Vec<char>, from: usize) -> (r: Option<usize>)
    ensures
        match r {
            Some(k) => find_from(v@, w@, from as int) == Some(k as int),
            None => find_from(v@, w@, from as int) is None,
        },
{
    if from > v.len() {
        return None;
    }
    if w.len() == 0 {
        assert(v@.subrange(from as int, from as int) =~= w@);
        return Some(from);
    }
    let mut i = from;
    while i <= v.len() && w.len() <= v.len() - i
        invariant
            from <= i <= v.len() + 1,
            w.len() > 0,
            find_from(v@, w@, from as int) == find_from(v@, w@, i as int),
        decreases v.len() + 1 - i,
    {
        if matches_at(v, i, w) {
            return Some(i);
        }
        i = i + 1;
    }
    None
}

/// ASCII lower-casing of one character; other characters are kept.
pub open spec fn ascii_lower(c: char) -> char {
    if 'A' <= c && c <= 'Z' {
        ((c as u32) + 32) as char
    } else {
        c
    }
}

/// The sequence with every ASCII capital lowered.
pub open spec fn lower_seq(s: Seq<char>) -> Seq<char> {
    s.map_values(|c: char| ascii_lower(c))
}

/// `needle`, given in lower case, occurs in `s` ignoring ASCII case.
pub open spec fn mentions(s: Seq<char>, needle: Seq<char>) -> bool {
    contains_seq(lower_seq(s), needle)
}

fn lower_char(c: char) -> (r: char)
    ensures
        r == ascii_lower(c),
{
    if 'A' <= c && c <= 'Z' {
        let b: u8 = (c as u8) + 32;
        b as char
    } else {
        c
    }
}

/// The characters of `v` with ASCII capitals lowered.
pub fn lowercase_chars(v: &Vec<char>) -> (r: Vec<char>)
    ensures
        r@ == lower_seq(v@),
{
    let mut r: Vec<char> = Vec::new();
    let mut i: usize = 0;
    while i < v.len()
        invariant
            i <= v.len(),
            r@ == lower_seq(v@.take(i as int)),
        decreases v.len() - i,
    {
        let c = lower_char(v[i]);
        r.push(c);
        i = i + 1;
        assert(r@ =~= lower_seq(v@.take(i as int)));
    }
    assert(v@.take(i as int) =~= v@);
    r
}

/// `a` sorts strictly before `b`: the order of `str`'s `Ord`, character by
/// character on code points, a proper prefix first.
pub open spec fn seq_lt(a: Seq<char>, b: Seq<char>) -> bool
    decreases a.len(),
{
    if a.len() == 0 {
        b.len() > 0
    } else if b.len() == 0 {
        false
    } else if a[0] != b[0] {
        a[0] < b[0]
    } else {
        seq_lt(a.drop_first(), b.drop_first())
    }
}

/// Of two strings, one sorts before the other, or they are equal; never both.
pub proof fn lemma_seq_lt_trichotomy(a: Seq<char>, b: Seq<char>)
    ensures
        seq_lt(a, b) || seq_lt(b, a) || a == b,
        !(seq_lt(a, b) && seq_lt(b, a)),
        !seq_lt(a, a),
    decreases a.len(),
{
    if a.len() > 0 && b.len() > 0 {
        if a[0] == b[0] {
            lemma_seq_lt_trichotomy(a.drop_first(), b.drop_first());
            if a.drop_first() == b.drop_first() {
                assert(a =~= seq![a[0]] + a.drop_first());
                assert(b =~= seq![b[0]] + b.drop_first());
            }
        }
    }
    if a.len() > 0 {
        lemma_seq_lt_trichotomy(a.drop_first(), a.drop_first());
    }
    if a.len() == 0 && b.len() == 0 {
        assert(a =~= b);
    }
}

/// The order is transitive.
pub proof fn lemma_seq_lt_transitive(a: Seq<char>, b: Seq<char>, c: Seq<char>)
    requires
        seq_lt(a, b),
        seq_lt(b, c),
    ensures
        seq_lt(a, c),
    decreases a.len(),
{
    if a.len() > 0 && b.len() > 0 && c.len() > 0 && a[0] == b[0] && b[0] == c[0] {
        lemma_seq_lt_transitive(a.drop_first(), b.drop_first(), c.drop_first());
    }
}

/// `str`'s `<` on two character vectors.
pub fn chars_lt(a: &Vec<char>, b: &Vec<char>) -> (r: bool)
    ensures
        r == seq_lt(a@, b@),
{
    let mut i: usize = 0;
    assert(a@.skip(0) =~= a@);
    assert(b@.skip(0) =~= b@);
    while i < a.len() && i < b.len() && a[i] == b[i]
        invariant
            i <= a.len(),
            i <= b.len(),
            seq_lt(a@, b@) == seq_lt(a@.skip(i as int), b@.skip(i as int)),
        decreases a.len() - i,
    {
        assert(a@.skip(i as int).drop_first() =~= a@.skip(i + 1));
        assert(b@.skip(i as int).drop_first() =~= b@.skip(i + 1));
        i = i + 1;
    }
    if i == a.len() {
        i < b.len()
    } else if i == b.len() {
        false
    } else {
        a[i] < b[i]
    }
}

} // verus!
