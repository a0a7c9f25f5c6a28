//! Which changed files a watch session scans: directories never, files under
//! the usual build/vendor/VCS directories never, files whose name matches an
//! ignore glob never; otherwise files whose name matches an include glob.
use vstd::prelude::*;
use crate::text::{chars_of, contains_chars, contains_seq};
use crate::pathname::{file_name_or, path_file_name};

verus! {

#[verifier::external_type_specification]
#[verifier::external_body]
pub struct ExGlobError(globset::Error);

/// Patterns longer than this are refused by the library (far past any real
/// glob; the glob set's literal matcher would run out of state ids).
pub const GLOB_PATTERN_LIMIT: usize = 0x1000_0000;

/// What a glob set built from `pattern` (backslash escapes on, as on Unix)
/// makes of a file name on a target with `pointer_bits`-bit pointers:
/// `None` when the glob does not parse or its matcher cannot be built within
/// the size limit (which counts pointer-sized states), else whether the name
/// matches it.
pub uninterp spec fn glob_outcome(pattern: Seq<char>, name: Seq<char>, pointer_bits: u32) -> Option<bool>;

/// `globset::GlobBuilder::new(pattern).backslash_escape(true).build()`, a
/// `GlobSetBuilder` holding that glob, `build()`, then `is_match(name)`.
/// Every failure comes back as an error (none panics for patterns under the
/// limit). `pointer_bits` is the target's pointer width, which the matcher's
/// size limit depends on. Claimed: the error case and the answer are the
/// named function of the two strings and that width; nothing more about glob
/// syntax is stated.
#[verifier::external_body]
fn glob_is_match(pattern: &str, name: &str, pointer_bits: u32) -> (r: Result<bool, globset::Error>)
    requires
        pattern@.len() < GLOB_PATTERN_LIMIT,
        pointer_bits == usize::BITS,
    ensures
        r is Err <==> glob_outcome(pattern@, name@, pointer_bits) is None,
        r matches Ok(b) ==> glob_outcome(pattern@, name@, pointer_bits) == Some(b),
{
    let glob = globset::GlobBuilder::new(pattern).backslash_escape(true).build()?;
    let mut builder = globset::GlobSetBuilder::new();
    builder.add(glob);
    let set = builder.build()?;
    Ok(set.is_match(name))
}

/// Every pattern of `ps` is under the length limit.
pub open spec fn patterns_fit(ps: Seq<String>) -> bool {
    forall|i: int| 0 <= i < ps.len() ==> (#[trigger] ps[i])@.len() < GLOB_PATTERN_LIMIT
}

/// `name` matches the glob `pattern` on this target; a glob that does not
/// parse, or whose matcher cannot be built, matches nothing.
pub open spec fn glob_hit(name: Seq<char>, pattern: Seq<char>) -> bool {
    glob_outcome(pattern, name, usize::BITS) == Some(true)
}

/// Matches a file name against a glob pattern (`*`, `?`, `[abc]`, `[a-z]`);
/// an invalid pattern matches nothing.
pub fn matches_pattern(name: &str, pattern: &str) -> (r: bool)
    requires
        pattern@.len() < GLOB_PATTERN_LIMIT,
    ensures
        r == glob_hit(name@, pattern@),
{
    match glob_is_match(pattern, name, usize::BITS) {
        Ok(b) => b,
        Err(_) => false,
    }
}

/// Some pattern of `ps` matches `name`.
pub open spec fn any_glob_hit(ps: Seq<String>, name: Seq<char>) -> bool {
    exists|i: int| 0 <= i < ps.len() && #[trigger] glob_hit(name, ps[i]@)
}

/// Directories whose contents are never scanned.
pub open spec fn ignored_dirs() -> Seq<Seq<char>> {
    seq!["/target/"@, "/node_modules/"@, "/.git/"@, "/vendor/"@, "/.ralph/"@]
}

/// `path` lies under one of the ignored directories.
pub open spec fn in_ignored_dir(path: Seq<char>) -> bool {
    exists|i: int| 0 <= i < ignored_dirs().len() && #[trigger] contains_seq(path, ignored_dirs()[i])
}

/// Whether a watch session scans `path`.
pub open spec fn should_process(
    path: Seq<char>,
    is_dir: bool,
    patterns: Seq<String>,
    ignore_patterns: Seq<String>,
) -> bool {
    let name = file_name_or(path, Seq::empty());
    &&& !is_dir
    &&& !any_glob_hit(ignore_patterns, name)
    &&& !in_ignored_dir(path)
    &&& any_glob_hit(patterns, name)
}

fn any_matches(name: &str, ps: &[String]) -> (r: bool)
    requires
        patterns_fit(ps@),
    ensures
        r == any_glob_hit(ps@, name@),
{
    let mut i: usize = 0;
    while i < ps.len()
        invariant
            i <= ps@.len(),
            patterns_fit(ps@),
            forall|j: int| 0 <= j < i ==> !#[trigger] glob_hit(name@, ps@[j]@),
        decreases ps.len() - i,
    {
        if matches_pattern(name, ps[i].as_str()) {
            return true;
        }
        i = i + 1;
    }
    false
}

fn under_ignored_dir(path: &str) -> (r: bool)
    ensures
        r == in_ignored_dir(path@),
{
    let v = chars_of(path);
    let dirs = ["/target/", "/node_modules/", "/.git/", "/vendor/", "/.ralph/"];
    assert(dirs@.map_values(|d: &str| d@) =~= ignored_dirs());
    let mut i: usize = 0;
    while i < 5
        invariant
            i <= 5,
            v@ == path@,
            dirs@.map_values(|d: &str| d@) == ignored_dirs(),
            forall|j: int| 0 <= j < i ==> !#[trigger] contains_seq(path@, ignored_dirs()[j]),
        decreases 5 - i,
    {
        let d = chars_of(dirs[i]);
        assert(d@ == ignored_dirs()[i as int]);
        if contains_chars(&v, &d) {
            return true;
        }
        i = i + 1;
    }
    false
}

/// Whether a changed path should be scanned. `is_dir` tells whether the
/// path names a directory on disk; directories are always skipped, ignore
/// patterns take precedence over include patterns, and files under
/// `target/`, `node_modules/`, `.git/`, `vendor/` and `.ralph/` are skipped.
/// Patterns apply to the file name (empty when the path has none).
pub fn should_process_file(
    path: &str,
    is_dir: bool,
    patterns: &[String],
    ignore_patterns: &[String],
) -> (r: bool)
    requires
        patterns_fit(patterns@),
        patterns_fit(ignore_patterns@),
    ensures
        r == should_process(path@, is_dir, patterns@, ignore_patterns@),
{
    if is_dir {
        return false;
    }
    let name = match path_file_name(path) {
        Some(n) => n,
        None => String::new(),
    };
    assert(name@ == file_name_or(path@, Seq::empty()));
    if any_matches(name.as_str(), ignore_patterns) {
        return false;
    }
    if under_ignored_dir(path) {
        return false;
    }
    any_matches(name.as_str(), patterns)
}

/// The paths among `paths` that should be scanned, in order; `is_dir[i]`
/// tells whether `paths[i]` is a directory.
pub open spec fn kept_paths(
    paths: Seq<String>,
    is_dir: Seq<bool>,
    patterns: Seq<String>,
    ignore_patterns: Seq<String>,
) -> Seq<Seq<char>>
    decreases paths.len(),
{
    if paths.len() == 0 {
        Seq::empty()
    } else {
        let rest = kept_paths(paths.drop_last(), is_dir.drop_last(), patterns, ignore_patterns);
        if should_process(paths.last()@, is_dir.last(), patterns, ignore_patterns) {
            rest.push(paths.last()@)
        } else {
            rest
        }
    }
}

/// The paths of one change event that should be scanned (the filtering half
/// of the watcher's event handling); `None` when no path qualifies.
pub fn relevant_paths(
    paths: &[String],
    is_dir: &[bool],
    patterns: &[String],
    ignore_patterns: &[String],
) -> (r: Option<Vec<String>>)
    requires
        paths@.len() == is_dir@.len(),
        patterns_fit(patterns@),
        patterns_fit(ignore_patterns@),
    ensures
        match r {
            Some(v) => {
                &&& v@.len() > 0
                &&& v@.map_values(|s: String| s@) == kept_paths(paths@, is_dir@, patterns@, ignore_patterns@)
            },
            None => kept_paths(paths@, is_dir@, patterns@, ignore_patterns@).len() == 0,
        },
{
    let mut out: Vec<String> = Vec::new();
    let mut i: usize = 0;
    assert(paths@.take(0) =~= Seq::<String>::empty());
    while i < paths.len()
        invariant
            i <= paths@.len(),
            paths@.len() == is_dir@.len(),
            patterns_fit(patterns@),
            patterns_fit(ignore_patterns@),
            out@.map_values(|s: String| s@) == kept_paths(
                paths@.take(i as int),
                is_dir@.take(i as int),
                patterns@,
                ignore_patterns@,
            ),
        decreases paths.len() - i,
    {
        let ghost pi = paths@.take(i + 1);
        let ghost di = is_dir@.take(i + 1);
        assert(pi.drop_last() =~= paths@.take(i as int));
        assert(di.drop_last() =~= is_dir@.take(i as int));
        assert(pi.last() == paths@[i as int]);
        assert(di.last() == is_dir@[i as int]);
        if should_process_file(paths[i].as_str(), is_dir[i], patterns, ignore_patterns) {
            let p = paths[i].clone();
            out.push(p);
            assert(out@.map_values(|s: String| s@) =~= kept_paths(pi.drop_last(), di.drop_last(), patterns@, ignore_patterns@).push(paths@[i as int]@));
        }
        i = i + 1;
    }
    assert(paths@.take(i as int) =~= paths@);
    assert(is_dir@.take(i as int) =~= is_dir@);
    if out.len() == 0 {
        None
    } else {
        Some(out)
    }
}

} // verus!
