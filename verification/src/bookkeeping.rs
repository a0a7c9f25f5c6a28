//! Bookkeeping of a parallel worker's repository: which files are restored
//! to HEAD, which generated paths are removed, which `git status` lines
//! still show bookkeeping changes, and when the restore gives up.
use vstd::prelude::*;
use crate::text::{chars_of, contains_chars, contains_seq, std_lines, str_lines, push_str};
use crate::pathname::{path_join, join_relative};

verus! {

/// Queue and productivity files restored to HEAD after a worker ran.
pub open spec fn restored_bookkeeping_files() -> Seq<Seq<char>> {
    seq![
        ".ralph/queue.jsonc"@,
        ".ralph/done.jsonc"@,
        ".ralph/cache/productivity.json"@,
        ".ralph/cache/productivity.jsonc"@,
    ]
}

/// Paths whose changes count as bookkeeping in `git status`.
pub open spec fn parallel_bookkeeping_paths() -> Seq<Seq<char>> {
    seq![
        ".ralph/queue.jsonc"@,
        ".ralph/done.jsonc"@,
        ".ralph/cache/productivity.json"@,
        ".ralph/cache/productivity.jsonc"@,
        ".ralph/cache/plans/"@,
        ".ralph/cache/phase2_final/"@,
        ".ralph/cache/session.jsonc"@,
        ".ralph/cache/migrations.jsonc"@,
        ".ralph/cache/parallel/"@,
        ".ralph/logs/"@,
    ]
}

/// Paths a worker generates, removed after it ran.
pub open spec fn generated_parallel_paths() -> Seq<Seq<char>> {
    seq![
        ".ralph/cache/phase2_final"@,
        ".ralph/cache/session.jsonc"@,
        ".ralph/cache/migrations.jsonc"@,
        ".ralph/cache/parallel"@,
        ".ralph/logs"@,
    ]
}

fn restored_files() -> (r: Vec<&'static str>)
    ensures
        r@.map_values(|p: &'static str| p@) == restored_bookkeeping_files(),
{
    let r = vec![".ralph/queue.jsonc", ".ralph/done.jsonc", ".ralph/cache/productivity.json", ".ralph/cache/productivity.jsonc"];
    assert(r@.map_values(|p: &'static str| p@) =~= restored_bookkeeping_files());
    r
}

fn bookkeeping_paths() -> (r: Vec<&'static str>)
    ensures
        r@.map_values(|p: &'static str| p@) == parallel_bookkeeping_paths(),
{
    let r = vec![
        ".ralph/queue.jsonc",
        ".ralph/done.jsonc",
        ".ralph/cache/productivity.json",
        ".ralph/cache/productivity.jsonc",
        ".ralph/cache/plans/",
        ".ralph/cache/phase2_final/",
        ".ralph/cache/session.jsonc",
        ".ralph/cache/migrations.jsonc",
        ".ralph/cache/parallel/",
        ".ralph/logs/",
    ];
    assert(r@.map_values(|p: &'static str| p@) =~= parallel_bookkeeping_paths());
    r
}

fn generated_paths() -> (r: Vec<&'static str>)
    ensures
        r@.map_values(|p: &'static str| p@) == generated_parallel_paths(),
{
    let r = vec![
        ".ralph/cache/phase2_final",
        ".ralph/cache/session.jsonc",
        ".ralph/cache/migrations.jsonc",
        ".ralph/cache/parallel",
        ".ralph/logs",
    ];
    assert(r@.map_values(|p: &'static str| p@) =~= generated_parallel_paths());
    r
}

/// Each relative path joined onto the repository root.
pub open spec fn joined_paths(repo_root: Seq<char>, rels: Seq<Seq<char>>) -> Seq<Seq<char>> {
    rels.map_values(|r: Seq<char>| path_join(repo_root, r))
}

/// Joins each relative path onto the repository root.
pub fn repo_paths(repo_root: &str, relative_paths: &[&str]) -> (r: Vec<String>)
    ensures
        r@.map_values(|p: String| p@) == joined_paths(repo_root@, relative_paths@.map_values(|p: &str| p@)),
{
    let mut r: Vec<String> = Vec::new();
    let mut i: usize = 0;
    while i < relative_paths.len()
        invariant
            i <= relative_paths@.len(),
            r@.len() == i,
            forall|j: int| 0 <= j < i ==> #[trigger] r@[j]@ == path_join(repo_root@, relative_paths@[j]@),
        decreases relative_paths.len() - i,
    {
        r.push(join_relative(repo_root, relative_paths[i]));
        i = i + 1;
    }
    assert(r@.map_values(|p: String| p@) =~= joined_paths(repo_root@, relative_paths@.map_values(|p: &str| p@)));
    r
}

/// The files restored to HEAD under `repo_root`.
pub fn restored_file_paths(repo_root: &str) -> (r: Vec<String>)
    ensures
        r@.map_values(|p: String| p@) == joined_paths(repo_root@, restored_bookkeeping_files()),
{
    let rels = restored_files();
    repo_paths(repo_root, rels.as_slice())
}

/// The generated paths removed under `repo_root`.
pub fn generated_artifact_paths(repo_root: &str) -> (r: Vec<String>)
    ensures
        r@.map_values(|p: String| p@) == joined_paths(repo_root@, generated_parallel_paths()),
{
    let rels = generated_paths();
    repo_paths(repo_root, rels.as_slice())
}

/// A `git status` line mentions a bookkeeping path.
pub open spec fn is_bookkeeping_line(line: Seq<char>) -> bool {
    exists|i: int| 0 <= i < parallel_bookkeeping_paths().len() && contains_seq(line, #[trigger] parallel_bookkeeping_paths()[i])
}

/// The lines of `lines` that mention a bookkeeping path, in order.
pub open spec fn bookkeeping_lines_of(lines: Seq<Seq<char>>) -> Seq<Seq<char>>
    decreases lines.len(),
{
    if lines.len() == 0 {
        Seq::empty()
    } else {
        let rest = bookkeeping_lines_of(lines.drop_last());
        if is_bookkeeping_line(lines.last()) {
            rest.push(lines.last())
        } else {
            rest
        }
    }
}

fn mentions_bookkeeping(line: &str, paths: &Vec<&'static str>) -> (r: bool)
    requires
        paths@.map_values(|p: &'static str| p@) == parallel_bookkeeping_paths(),
    ensures
        r == is_bookkeeping_line(line@),
{
    let v = chars_of(line);
    let mut i: usize = 0;
    while i < paths.len()
        invariant
            i <= paths@.len(),
            v@ == line@,
            paths@.map_values(|p: &'static str| p@) == parallel_bookkeeping_paths(),
            forall|j: int| 0 <= j < i ==> !contains_seq(line@, #[trigger] parallel_bookkeeping_paths()[j]),
        decreases paths.len() - i,
    {
        let w = chars_of(paths[i]);
        assert(w@ == parallel_bookkeeping_paths()[i as int]);
        if contains_chars(&v, &w) {
            return true;
        }
        i = i + 1;
    }
    false
}

/// The lines of a `git status --porcelain` output that show bookkeeping changes.
pub fn collect_bookkeeping_status_lines(status: &str) -> (r: Vec<String>)
    ensures
        r@.map_values(|x: String| x@) == bookkeeping_lines_of(std_lines(status@)),
{
    let paths = bookkeeping_paths();
    let lines = str_lines(status);
    let ghost ls = std_lines(status@);
    let mut r: Vec<String> = Vec::new();
    let mut i: usize = 0;
    assert(ls.take(0) =~= Seq::<Seq<char>>::empty());
    while i < lines.len()
        invariant
            i <= lines@.len(),
            lines@.map_values(|x: String| x@) == ls,
            paths@.map_values(|p: &'static str| p@) == parallel_bookkeeping_paths(),
            r@.map_values(|x: String| x@) == bookkeeping_lines_of(ls.take(i as int)),
        decreases lines.len() - i,
    {
        let ghost t = ls.take(i + 1);
        assert(t.drop_last() =~= ls.take(i as int));
        assert(t.last() == lines@[i as int]@);
        if mentions_bookkeeping(lines[i].as_str(), &paths) {
            let ghost before = r@;
            let l = lines[i].clone();
            r.push(l);
            assert(r@.map_values(|x: String| x@) =~= before.map_values(|x: String| x@).push(t.last()));
        }
        i = i + 1;
    }
    assert(ls.take(i as int) =~= ls);
    r
}

/// The items joined with `sep`.
pub open spec fn join_with(items: Seq<Seq<char>>, sep: Seq<char>) -> Seq<char>
    decreases items.len(),
{
    if items.len() == 0 {
        Seq::empty()
    } else if items.len() == 1 {
        items[0]
    } else {
        join_with(items.drop_last(), sep) + sep + items.last()
    }
}

/// What to do after restoring the bookkeeping and reading `git status`.
#[derive(Debug, Clone)]
pub enum BookkeepingCheck {
    /// Nothing bookkeeping is dirty: proceed with this status.
    Clean,
    /// Still dirty after the first attempt: restore again.
    RestoreAgain,
    /// Still dirty after the second attempt: fail with this message.
    Dirty(String),
}

pub open spec fn dirty_message(lines: Seq<Seq<char>>) -> Seq<char> {
    "parallel bookkeeping files remained dirty after restore: "@ + join_with(lines, ", "@)
}

/// The decision after restore attempt `attempt` (0 or 1) left `dirty_lines`
/// showing bookkeeping changes: clean when there are none, else one more
/// attempt, else the error listing them.
pub fn bookkeeping_check(attempt: u32, dirty_lines: &[String]) -> (r: BookkeepingCheck)
    ensures
        dirty_lines@.len() == 0 ==> r matches BookkeepingCheck::Clean,
        dirty_lines@.len() > 0 && attempt == 0 ==> r matches BookkeepingCheck::RestoreAgain,
        dirty_lines@.len() > 0 && attempt != 0 ==> (r matches BookkeepingCheck::Dirty(m) && m@
            == dirty_message(dirty_lines@.map_values(|x: String| x@))),
{
    if dirty_lines.len() == 0 {
        return BookkeepingCheck::Clean;
    }
    if attempt == 0 {
        return BookkeepingCheck::RestoreAgain;
    }
    let ghost items = dirty_lines@.map_values(|x: String| x@);
    let mut m = String::from_str("parallel bookkeeping files remained dirty after restore: ");
    let ghost head = m@;
    let mut i: usize = 0;
    assert(items.take(0) =~= Seq::<Seq<char>>::empty());
    while i < dirty_lines.len()
        invariant
            i <= dirty_lines@.len(),
            items == dirty_lines@.map_values(|x: String| x@),
            m@ == head + join_with(items.take(i as int), ", "@),
        decreases dirty_lines.len() - i,
    {
        let ghost t = items.take(i + 1);
        assert(t.drop_last() =~= items.take(i as int));
        if i > 0 {
            push_str(&mut m, ", ");
        } else {
            assert(items.take(0) =~= Seq::<Seq<char>>::empty());
            assert(t.len() == 1);
        }
        push_str(&mut m, dirty_lines[i].as_str());
        assert(m@ =~= head + join_with(t, ", "@));
        i = i + 1;
    }
    assert(items.take(i as int) =~= items);
    BookkeepingCheck::Dirty(m)
}

} // verus!
