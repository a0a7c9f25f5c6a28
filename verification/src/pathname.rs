//! Path strings with `/` separators, as `std::path::Path` reads them on Unix:
//! the final component of a path, and joining a relative path onto a base.
use vstd::prelude::*;
use crate::text::{chars_of, string_from_chars, push_str, push_char};

verus! {

broadcast use vstd::seq_lib::group_seq_properties;

/// `s` with trailing separators and trailing `.` components removed (a `.`
/// component is normalized away unless it starts the path, where it names
/// the current directory and has no file name either).
pub open spec fn strip_tail(s: Seq<char>) -> Seq<char>
    decreases s.len(),
{
    if s.len() == 0 {
        s
    } else if s.last() == '/' {
        strip_tail(s.drop_last())
    } else if s.last() == '.' && (s.len() == 1 || s[s.len() - 2] == '/') {
        strip_tail(s.drop_last())
    } else {
        s
    }
}

/// The characters after the last `/` of `t` (all of `t` when it has none).
pub open spec fn after_last_slash(t: Seq<char>) -> Seq<char>
    decreases t.len(),
{
    if t.len() == 0 {
        t
    } else if t.last() == '/' {
        Seq::empty()
    } else {
        after_last_slash(t.drop_last()).push(t.last())
    }
}

/// `Path::file_name`: the final component, unless the path is empty, is a
/// root, or ends in `..`.
pub open spec fn file_name(s: Seq<char>) -> Option<Seq<char>> {
    let name = after_last_slash(strip_tail(s));
    if name.len() == 0 || name == ".."@ {
        None
    } else {
        Some(name)
    }
}

/// The file name of `path`, or `fallback` when it has none.
pub open spec fn file_name_or(path: Seq<char>, fallback: Seq<char>) -> Seq<char> {
    match file_name(path) {
        Some(n) => n,
        None => fallback,
    }
}

fn is_dot_dot(v: &Vec<char>, lo: usize, hi: usize) -> (r: bool)
    requires
        lo <= hi <= v.len(),
    ensures
        r == (v@.subrange(lo as int, hi as int) == ".."@),
{
    proof {
        reveal_strlit("..");
    }
    assert(".."@.len() == 2);
    if hi - lo != 2 {
        assert(v@.subrange(lo as int, hi as int).len() != 2);
        return false;
    }
    let r = v[lo] == '.' && v[lo + 1] == '.';
    if r {
        assert(v@.subrange(lo as int, hi as int) =~= ".."@);
    } else {
        assert(v@.subrange(lo as int, hi as int)[0] != '.' || v@.subrange(lo as int, hi as int)[1] != '.');
    }
    r
}

/// `Path::file_name` on a path string.
pub fn path_file_name(path: &str) -> (r: Option<String>)
    ensures
        match r {
            Some(n) => file_name(path@) == Some(n@),
            None => file_name(path@) is None,
        },
{
    let v = chars_of(path);
    let mut hi: usize = v.len();
    assert(v@.subrange(0, hi as int) =~= v@);
    while hi > 0 && (v[hi - 1] == '/' || (v[hi - 1] == '.' && (hi == 1 || v[hi - 2] == '/')))
        invariant
            hi <= v.len(),
            strip_tail(v@) == strip_tail(v@.subrange(0, hi as int)),
        decreases hi,
    {
        assert(v@.subrange(0, hi as int).drop_last() =~= v@.subrange(0, hi - 1));
        hi = hi - 1;
    }
    let ghost t = v@.subrange(0, hi as int);
    assert(strip_tail(t) == t);
    let mut lo: usize = hi;
    while lo > 0 && v[lo - 1] != '/'
        invariant
            lo <= hi <= v.len(),
            t == v@.subrange(0, hi as int),
            after_last_slash(t) == after_last_slash(v@.subrange(0, lo as int)) + v@.subrange(
                lo as int,
                hi as int,
            ),
            forall|k: int| lo <= k < hi ==> v@[k] != '/',
        decreases lo,
    {
        let ghost p = v@.subrange(0, lo as int);
        assert(p.drop_last() =~= v@.subrange(0, lo - 1));
        assert(after_last_slash(p) == after_last_slash(p.drop_last()).push(p.last()));
        assert(v@.subrange(lo - 1, hi as int) =~= seq![p.last()] + v@.subrange(lo as int, hi as int));
        lo = lo - 1;
    }
    assert(after_last_slash(v@.subrange(0, lo as int)) =~= Seq::<char>::empty());
    assert(after_last_slash(t) =~= v@.subrange(lo as int, hi as int));
    if lo == hi || is_dot_dot(&v, lo, hi) {
        None
    } else {
        Some(string_from_chars(&v, lo, hi))
    }
}

/// `Path::join` of a relative path: the base, a separator unless the base is
/// empty or already ends in one, then the relative path.
pub open spec fn path_join(base: Seq<char>, rel: Seq<char>) -> Seq<char> {
    if base.len() == 0 {
        rel
    } else if base.last() == '/' {
        base + rel
    } else {
        base + seq!['/'] + rel
    }
}

/// `base.join(rel)` for a relative `rel`.
pub fn join_relative(base: &str, rel: &str) -> (r: String)
    ensures
        r@ == path_join(base@, rel@),
{
    let n = base.unicode_len();
    let mut r = String::from_str(base);
    if n > 0 && base.get_char(n - 1) != '/' {
        push_char(&mut r, '/');
    }
    push_str(&mut r, rel);
    r
}

/// The pieces of `s` between `sep` characters (`str::split(sep)`): always at
/// least one, and a trailing separator yields a final empty piece.
pub open spec fn split_on(s: Seq<char>, sep: char) -> Seq<Seq<char>>
    decreases s.len(),
{
    if s.len() == 0 {
        seq![Seq::empty()]
    } else if s.last() == sep {
        split_on(s.drop_last(), sep).push(Seq::empty())
    } else {
        let p = split_on(s.drop_last(), sep);
        p.update(p.len() - 1, p.last().push(s.last()))
    }
}

pub proof fn lemma_split_on_len(s: Seq<char>, sep: char)
    ensures
        split_on(s, sep).len() >= 1,
    decreases s.len(),
{
    if s.len() > 0 {
        lemma_split_on_len(s.drop_last(), sep);
    }
}

/// The pieces of `s` between `sep` characters, as strings.
pub fn split_str_on(s: &str, sep: char) -> (r: Vec<String>)
    ensures
        r@.map_values(|p: String| p@) == split_on(s@, sep),
{
    let v = chars_of(s);
    let mut done: Vec<String> = Vec::new();
    let mut cur = String::new();
    let mut i: usize = 0;
    assert(v@.take(0) =~= Seq::<char>::empty());
    assert(done@.map_values(|p: String| p@).push(cur@) =~= split_on(v@.take(0), sep));
    while i < v.len()
        invariant
            i <= v@.len(),
            v@ == s@,
            done@.map_values(|p: String| p@).push(cur@) == split_on(v@.take(i as int), sep),
        decreases v.len() - i,
    {
        let c = v[i];
        let ghost t = v@.take(i + 1);
        assert(t.drop_last() =~= v@.take(i as int));
        assert(t.last() == c);
        proof {
            lemma_split_on_len(v@.take(i as int), sep);
        }
        if c == sep {
            done.push(cur);
            cur = String::new();
            assert(done@.map_values(|p: String| p@).push(cur@) =~= split_on(v@.take(i as int), sep).push(Seq::empty()));
        } else {
            let ghost before = cur@;
            push_char(&mut cur, c);
            assert(done@.map_values(|p: String| p@).push(cur@) =~= split_on(v@.take(i as int), sep).update(
                split_on(v@.take(i as int), sep).len() - 1,
                before.push(c),
            ));
        }
        i = i + 1;
    }
    assert(v@.take(i as int) =~= s@);
    done.push(cur);
    done
}

/// A piece that names a component: not empty and not `.`.
pub open spec fn named_piece(x: Seq<char>) -> bool {
    x.len() > 0 && x != seq!['.']
}

/// The pieces that name components, in order.
pub open spec fn named_pieces(ps: Seq<Seq<char>>) -> Seq<Seq<char>>
    decreases ps.len(),
{
    if ps.len() == 0 {
        Seq::empty()
    } else if named_piece(ps.last()) {
        named_pieces(ps.drop_last()).push(ps.last())
    } else {
        named_pieces(ps.drop_last())
    }
}

/// The components of a path, as `Path::components` gives them on Unix: `/`
/// for the root, then the named pieces; repeated separators, `.` pieces
/// after the start and a trailing separator leave no trace, and a leading
/// `.` stays (as the current directory). Two paths are equal as `PathBuf`s
/// exactly when their components are.
pub open spec fn path_components(p: Seq<char>) -> Seq<Seq<char>> {
    let pieces = split_on(p, '/');
    let first = pieces[0];
    let rest = named_pieces(pieces.skip(1));
    if p.len() > 0 && p[0] == '/' {
        seq![seq!['/']] + rest
    } else if first.len() > 0 {
        seq![first] + rest
    } else {
        rest
    }
}

/// The components of a path (see `path_components`).
pub fn components_of(p: &str) -> (r: Vec<String>)
    ensures
        r@.map_values(|x: String| x@) == path_components(p@),
{
    let pieces = split_str_on(p, '/');
    proof {
        lemma_split_on_len(p@, '/');
    }
    let ghost ps = pieces@.map_values(|x: String| x@);
    let v = chars_of(p);
    let mut r: Vec<String> = Vec::new();
    let rooted = v.len() > 0 && v[0] == '/';
    if rooted {
        let mut root = String::new();
        push_char(&mut root, '/');
        r.push(root);
        assert(r@.map_values(|x: String| x@) =~= seq![seq!['/']]);
    } else if pieces[0].as_str().unicode_len() > 0 {
        r.push(pieces[0].clone());
        assert(r@.map_values(|x: String| x@) =~= seq![ps[0]]);
    } else {
        assert(r@.map_values(|x: String| x@) =~= Seq::<Seq<char>>::empty());
    }
    let ghost head = r@.map_values(|x: String| x@);
    let mut i: usize = 1;
    assert(ps.skip(1).take(0) =~= Seq::<Seq<char>>::empty());
    while i < pieces.len()
        invariant
            1 <= i <= pieces@.len(),
            ps == pieces@.map_values(|x: String| x@),
            r@.map_values(|x: String| x@) == head + named_pieces(ps.skip(1).take(i - 1)),
        decreases pieces.len() - i,
    {
        let w = chars_of(pieces[i].as_str());
        assert(w@ == ps[i as int]);
        let ghost t = ps.skip(1).take(i as int);
        assert(t.drop_last() =~= ps.skip(1).take(i - 1));
        assert(t.last() == ps[i as int]);
        let dot = w.len() == 1 && w[0] == '.';
        if w.len() > 0 && !dot {
            assert(named_piece(ps[i as int])) by {
                if ps[i as int] == seq!['.'] {
                    assert(w@.len() == 1 && w@[0] == '.');
                }
            }
            let ghost before = r@;
            r.push(pieces[i].clone());
            assert(r@.map_values(|x: String| x@) =~= before.map_values(|x: String| x@).push(ps[i as int]));
        } else {
            assert(!named_piece(ps[i as int])) by {
                if w.len() > 0 {
                    assert(w@ =~= seq!['.']);
                }
            }
        }
        i = i + 1;
    }
    assert(ps.skip(1).take(i - 1) =~= ps.skip(1));
    r
}

/// Whether two paths are equal as `PathBuf`s (same components).
pub fn same_path(a: &str, b: &str) -> (r: bool)
    ensures
        r == (path_components(a@) == path_components(b@)),
{
    let ca = components_of(a);
    let cb = components_of(b);
    let ghost ma = ca@.map_values(|x: String| x@);
    let ghost mb = cb@.map_values(|x: String| x@);
    if ca.len() != cb.len() {
        assert(ma.len() != mb.len());
        return false;
    }
    let mut i: usize = 0;
    while i < ca.len()
        invariant
            i <= ca@.len(),
            ca@.len() == cb@.len(),
            ma == ca@.map_values(|x: String| x@),
            mb == cb@.map_values(|x: String| x@),
            ma == path_components(a@),
            mb == path_components(b@),
            forall|k: int| 0 <= k < i ==> ma[k] == mb[k],
        decreases ca.len() - i,
    {
        if !crate::text::str_eq(ca[i].as_str(), cb[i].as_str()) {
            assert(ma[i as int] != mb[i as int]);
            assert(ma != mb);
            return false;
        }
        i = i + 1;
    }
    assert(ma =~= mb);
    true
}

} // verus!
