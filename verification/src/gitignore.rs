//! `.gitignore` maintenance for initialization: which entries to add and the
//! resulting file text. Updates only ever append (existing text is kept as a
//! prefix) and are idempotent: once an entry is present, it is not added
//! again. Reading and writing the file is left to the caller; each function
//! returns the new text, or `None` when nothing needs to change.
use vstd::prelude::*;
use crate::text::{
    trim, is_ws, split_nl, has_trimmed_line, split_newlines, any_line_trims_to, push_str,
    push_char, trimmed, str_eq, replace_all, replace_str, lemma_split_nl_len, lemma_lines_trimmed,
    lemma_split_nl_append,
};

verus! {

broadcast use vstd::seq_lib::group_seq_properties;

/// `rt/child/` or `rt/child`, once trimmed.
pub open spec fn runtime_entry_line(line: Seq<char>, runtime_name: Seq<char>, child: Seq<char>) -> bool {
    trim(line) == runtime_name + "/"@ + child + "/"@ || trim(line) == runtime_name + "/"@ + child
}

/// Whether a `.gitignore` line ignores the runtime directory's `child`
/// directory (with or without the trailing slash, surrounding whitespace
/// ignored).
pub fn is_runtime_ignore_entry(line: &str, runtime_name: &str, child: &str) -> (r: bool)
    ensures
        r == runtime_entry_line(line@, runtime_name@, child@),
{
    let t = trimmed(line);
    let mut with_slash = String::from_str(runtime_name);
    push_str(&mut with_slash, "/");
    push_str(&mut with_slash, child);
    let bare = with_slash.clone();
    push_str(&mut with_slash, "/");
    str_eq(t.as_str(), with_slash.as_str()) || str_eq(t.as_str(), bare.as_str())
}

/// Some line of `s` ignores the runtime directory's `child` directory.
pub open spec fn has_runtime_entry(s: Seq<char>, runtime_name: Seq<char>, child: Seq<char>) -> bool {
    exists|i: int| 0 <= i < split_nl(s).len() && runtime_entry_line(#[trigger] split_nl(s)[i], runtime_name, child)
}

proof fn lemma_lines_runtime(lines: Seq<String>, s: Seq<char>, runtime_name: Seq<char>, child: Seq<char>)
    requires
        lines.map_values(|p: String| p@) == split_nl(s),
    ensures
        (exists|i: int| 0 <= i < lines.len() && runtime_entry_line(#[trigger] lines[i]@, runtime_name, child))
            == has_runtime_entry(s, runtime_name, child),
{
    let sp = split_nl(s);
    assert(lines.len() == sp.len());
    if exists|i: int| 0 <= i < lines.len() && runtime_entry_line(#[trigger] lines[i]@, runtime_name, child) {
        let i = choose|i: int| 0 <= i < lines.len() && runtime_entry_line(#[trigger] lines[i]@, runtime_name, child);
        assert(sp[i] == lines[i]@);
    }
    if has_runtime_entry(s, runtime_name, child) {
        let i = choose|i: int| 0 <= i < sp.len() && runtime_entry_line(#[trigger] sp[i], runtime_name, child);
        assert(sp[i] == lines[i]@);
    }
}

/// `s`, ending in a newline unless it is empty.
pub open spec fn terminated(s: Seq<char>) -> Seq<char> {
    if s.len() > 0 && s.last() != '\n' {
        s.push('\n')
    } else {
        s
    }
}

/// `c`, then a blank line unless `c` is empty, then the commented entry.
pub open spec fn section(c: Seq<char>, header: Seq<char>, entry: Seq<char>) -> Seq<char> {
    (if c.len() > 0 { c.push('\n') } else { c }) + header + "\n"@ + entry + "\n"@
}

pub open spec fn logs_header() -> Seq<char> {
    "# CueLoop debug logs (raw/unredacted; do not commit)"@
}

pub open spec fn workspaces_header() -> Seq<char> {
    "# CueLoop parallel mode workspace directories"@
}

pub open spec fn trust_header() -> Seq<char> {
    "# CueLoop local trust decision (machine-local; do not commit)"@
}

/// The runtime directory's trust file entry.
pub open spec fn trust_entry(runtime_name: Seq<char>) -> Seq<char> {
    runtime_name + "/trust.jsonc"@
}

/// The new `.gitignore` text that ignores the runtime directory's `logs/`,
/// `workspaces/` and trust file, each added (in that order, with a comment)
/// only when missing; `None` when all three are present.
pub open spec fn runtime_gitignore_update(existing: Seq<char>, runtime_name: Seq<char>) -> Option<Seq<char>> {
    let need_logs = !has_runtime_entry(existing, runtime_name, "logs"@);
    let need_ws = !has_runtime_entry(existing, runtime_name, "workspaces"@);
    let need_trust = !has_trimmed_line(existing, trust_entry(runtime_name));
    if !need_logs && !need_ws && !need_trust {
        None
    } else {
        let c0 = terminated(existing);
        let c1 = if need_logs { section(c0, logs_header(), runtime_name + "/logs/"@) } else { c0 };
        let c2 = if need_ws { section(c1, workspaces_header(), runtime_name + "/workspaces/"@) } else { c1 };
        let c3 = if need_trust { section(c2, trust_header(), trust_entry(runtime_name)) } else { c2 };
        Some(c3)
    }
}

fn any_runtime_entry(lines: &Vec<String>, runtime_name: &str, child: &str) -> (r: bool)
    ensures
        r == exists|i: int| 0 <= i < lines@.len() && runtime_entry_line(#[trigger] lines@[i]@, runtime_name@, child@),
{
    let mut i: usize = 0;
    while i < lines.len()
        invariant
            i <= lines@.len(),
            forall|j: int| 0 <= j < i ==> !runtime_entry_line(#[trigger] lines@[j]@, runtime_name@, child@),
        decreases lines.len() - i,
    {
        if is_runtime_ignore_entry(lines[i].as_str(), runtime_name, child) {
            return true;
        }
        i = i + 1;
    }
    false
}

fn terminate(s: &mut String)
    ensures
        final(s)@ == terminated(old(s)@),
{
    let n = s.as_str().unicode_len();
    if n > 0 && s.as_str().get_char(n - 1) != '\n' {
        push_char(s, '\n');
    }
}

fn push_section(c: &mut String, header: &str, entry: &str)
    ensures
        final(c)@ == section(old(c)@, header@, entry@),
{
    if c.as_str().unicode_len() > 0 {
        push_char(c, '\n');
    }
    push_str(c, header);
    push_str(c, "\n");
    push_str(c, entry);
    push_str(c, "\n");
}

/// The `.gitignore` update for the runtime directory `runtime_name`
/// (`.cueloop`, or `.ralph` in legacy repositories): see
/// `runtime_gitignore_update`.
pub fn ensure_ralph_gitignore_entries(existing: &str, runtime_name: &str) -> (r: Option<String>)
    ensures
        match r {
            Some(t) => runtime_gitignore_update(existing@, runtime_name@) == Some(t@),
            None => runtime_gitignore_update(existing@, runtime_name@) is None,
        },
{
    let lines = split_newlines(existing);
    let need_logs = !any_runtime_entry(&lines, runtime_name, "logs");
    let need_ws = !any_runtime_entry(&lines, runtime_name, "workspaces");
    let mut trust = String::from_str(runtime_name);
    push_str(&mut trust, "/trust.jsonc");
    let need_trust = !any_line_trims_to(&lines, trust.as_str());
    proof {
        lemma_lines_runtime(lines@, existing@, runtime_name@, "logs"@);
        lemma_lines_runtime(lines@, existing@, runtime_name@, "workspaces"@);
        lemma_lines_trimmed(lines@, existing@, trust_entry(runtime_name@));
        assert(need_logs == !has_runtime_entry(existing@, runtime_name@, "logs"@));
        assert(need_ws == !has_runtime_entry(existing@, runtime_name@, "workspaces"@));
        assert(need_trust == !has_trimmed_line(existing@, trust_entry(runtime_name@)));
    }
    if !need_logs && !need_ws && !need_trust {
        return None;
    }
    let mut c = String::from_str(existing);
    terminate(&mut c);
    if need_logs {
        let mut e = String::from_str(runtime_name);
        push_str(&mut e, "/logs/");
        push_section(&mut c, "# CueLoop debug logs (raw/unredacted; do not commit)", e.as_str());
    }
    if need_ws {
        let mut e = String::from_str(runtime_name);
        push_str(&mut e, "/workspaces/");
        push_section(&mut c, "# CueLoop parallel mode workspace directories", e.as_str());
    }
    if need_trust {
        push_section(&mut c, "# CueLoop local trust decision (machine-local; do not commit)", trust.as_str());
    }
    Some(c)
}

/// The entries of `entries` that no line of `s` trims to, in order.
pub open spec fn missing_entries(s: Seq<char>, entries: Seq<Seq<char>>) -> Seq<Seq<char>>
    decreases entries.len(),
{
    if entries.len() == 0 {
        Seq::empty()
    } else {
        let rest = missing_entries(s, entries.drop_last());
        if has_trimmed_line(s, entries.last()) {
            rest
        } else {
            rest.push(entries.last())
        }
    }
}

/// Each entry followed by a newline.
pub open spec fn entry_block(entries: Seq<Seq<char>>) -> Seq<char>
    decreases entries.len(),
{
    if entries.len() == 0 {
        Seq::empty()
    } else {
        entry_block(entries.drop_last()) + entries.last() + "\n"@
    }
}

/// `s` made to end in a newline, then a blank line (nothing when `s` is empty).
pub open spec fn separated(s: Seq<char>) -> Seq<char> {
    let t = terminated(s);
    if t.len() > 0 {
        t.push('\n')
    } else {
        t
    }
}

/// The `.gitignore` text with a commented block of the missing `entries`,
/// or `None` when every entry is already a line of it.
pub open spec fn exact_entries_update(existing: Seq<char>, header: Seq<char>, entries: Seq<Seq<char>>) -> Option<Seq<char>> {
    let missing = missing_entries(existing, entries);
    if missing.len() == 0 {
        None
    } else {
        Some(separated(existing) + header + "\n"@ + entry_block(missing))
    }
}

fn exact_entries(existing: &str, header: &str, entries: &Vec<String>) -> (r: Option<String>)
    ensures
        match r {
            Some(t) => exact_entries_update(existing@, header@, entries@.map_values(|e: String| e@)) == Some(t@),
            None => exact_entries_update(existing@, header@, entries@.map_values(|e: String| e@)) is None,
        },
{
    let ghost ev = entries@.map_values(|e: String| e@);
    let lines = split_newlines(existing);
    let mut missing: Vec<String> = Vec::new();
    let mut i: usize = 0;
    assert(ev.take(0) =~= Seq::<Seq<char>>::empty());
    while i < entries.len()
        invariant
            i <= entries@.len(),
            ev == entries@.map_values(|e: String| e@),
            lines@.map_values(|p: String| p@) == split_nl(existing@),
            missing@.map_values(|e: String| e@) == missing_entries(existing@, ev.take(i as int)),
        decreases entries.len() - i,
    {
        let ghost t = ev.take(i + 1);
        assert(t.drop_last() =~= ev.take(i as int));
        assert(t.last() == entries@[i as int]@);
        let present = any_line_trims_to(&lines, entries[i].as_str());
        proof {
            lemma_lines_trimmed(lines@, existing@, entries@[i as int]@);
        }
        if !present {
            let e = entries[i].clone();
            missing.push(e);
            assert(missing@.map_values(|e: String| e@) =~= missing_entries(existing@, ev.take(i as int)).push(entries@[i as int]@));
        }
        i = i + 1;
    }
    assert(ev.take(i as int) =~= ev);
    if missing.len() == 0 {
        return None;
    }
    let mut c = String::from_str(existing);
    terminate(&mut c);
    if c.as_str().unicode_len() > 0 {
        push_char(&mut c, '\n');
    }
    push_str(&mut c, header);
    push_str(&mut c, "\n");
    let ghost base = c@;
    let ghost mv = missing@.map_values(|e: String| e@);
    let mut k: usize = 0;
    assert(mv.take(0) =~= Seq::<Seq<char>>::empty());
    assert(base + entry_block(mv.take(0)) =~= base);
    while k < missing.len()
        invariant
            k <= missing@.len(),
            mv == missing@.map_values(|e: String| e@),
            c@ == base + entry_block(mv.take(k as int)),
        decreases missing.len() - k,
    {
        let ghost t = mv.take(k + 1);
        assert(t.drop_last() =~= mv.take(k as int));
        push_str(&mut c, missing[k].as_str());
        push_str(&mut c, "\n");
        assert(c@ =~= base + entry_block(t));
        k = k + 1;
    }
    assert(mv.take(k as int) =~= mv);
    Some(c)
}

/// The runtime directory's queue and done files.
pub open spec fn local_queue_entries(runtime_name: Seq<char>) -> Seq<Seq<char>> {
    seq![runtime_name + "/queue.jsonc"@, runtime_name + "/done.jsonc"@]
}

pub open spec fn local_queue_header() -> Seq<char> {
    "# CueLoop local queue state"@
}

/// The `.gitignore` update that ignores the queue and done files of the
/// runtime directory (local-private queue mode): see `exact_entries_update`.
pub fn ensure_local_queue_gitignore_entries(existing: &str, runtime_name: &str) -> (r: Option<String>)
    ensures
        match r {
            Some(t) => exact_entries_update(existing@, local_queue_header(), local_queue_entries(runtime_name@)) == Some(t@),
            None => exact_entries_update(existing@, local_queue_header(), local_queue_entries(runtime_name@)) is None,
        },
{
    let mut q = String::from_str(runtime_name);
    push_str(&mut q, "/queue.jsonc");
    let mut d = String::from_str(runtime_name);
    push_str(&mut d, "/done.jsonc");
    let entries = vec![q, d];
    assert(entries@.map_values(|e: String| e@) =~= local_queue_entries(runtime_name@));
    exact_entries(existing, "# CueLoop local queue state", &entries)
}

/// The `.json` ignore patterns that become `.jsonc`, in the order applied.
pub open spec fn jsonc_migrations() -> Seq<(Seq<char>, Seq<char>)> {
    seq![
        (".ralph/queue.json"@, ".ralph/queue.jsonc"@),
        (".ralph/done.json"@, ".ralph/done.jsonc"@),
        (".ralph/config.json"@, ".ralph/config.jsonc"@),
        (".ralph/*.json"@, ".ralph/*.jsonc"@),
    ]
}

/// The text after the first `n` migrations: each one whose old pattern is a
/// line of the current text and whose new pattern is not replaces every
/// occurrence of the old pattern.
pub open spec fn migrated(s: Seq<char>, n: nat) -> Seq<char>
    decreases n,
{
    if n == 0 {
        s
    } else {
        let t = migrated(s, (n - 1) as nat);
        let (old_p, new_p) = jsonc_migrations()[n - 1];
        if has_trimmed_line(t, old_p) && !has_trimmed_line(t, new_p) {
            replace_all(t, old_p, new_p)
        } else {
            t
        }
    }
}

/// Whether one of the first `n` migrations applied.
pub open spec fn any_migrated(s: Seq<char>, n: nat) -> bool
    decreases n,
{
    if n == 0 {
        false
    } else {
        let t = migrated(s, (n - 1) as nat);
        let (old_p, new_p) = jsonc_migrations()[n - 1];
        any_migrated(s, (n - 1) as nat) || (has_trimmed_line(t, old_p) && !has_trimmed_line(t, new_p))
    }
}

/// Migrates `.ralph/*.json` ignore patterns to their `.jsonc` variants
/// (`.ralph/queue.json` becomes `.ralph/queue.jsonc`, ...); `None` when no
/// pattern needed it.
pub fn migrate_json_to_jsonc_gitignore(content: &str) -> (r: Option<String>)
    ensures
        match r {
            Some(t) => any_migrated(content@, 4) && t@ == migrated(content@, 4),
            None => !any_migrated(content@, 4),
        },
{
    let olds = [".ralph/queue.json", ".ralph/done.json", ".ralph/config.json", ".ralph/*.json"];
    let news = [".ralph/queue.jsonc", ".ralph/done.jsonc", ".ralph/config.jsonc", ".ralph/*.jsonc"];
    proof {
        reveal_strlit(".ralph/queue.json");
        reveal_strlit(".ralph/done.json");
        reveal_strlit(".ralph/config.json");
        reveal_strlit(".ralph/*.json");
    }
    let mut updated = String::from_str(content);
    let mut changed = false;
    let mut i: usize = 0;
    while i < 4
        invariant
            i <= 4,
            olds@.len() == 4,
            news@.len() == 4,
            forall|j: int| 0 <= j < 4 ==> (#[trigger] olds@[j])@ == jsonc_migrations()[j].0,
            forall|j: int| 0 <= j < 4 ==> (#[trigger] news@[j])@ == jsonc_migrations()[j].1,
            forall|j: int| 0 <= j < 4 ==> (#[trigger] olds@[j])@.len() > 0,
            updated@ == migrated(content@, i as nat),
            changed == any_migrated(content@, i as nat),
        decreases 4 - i,
    {
        let lines = split_newlines(updated.as_str());
        let has_old = any_line_trims_to(&lines, olds[i]);
        let has_new = any_line_trims_to(&lines, news[i]);
        proof {
            lemma_lines_trimmed(lines@, updated@, jsonc_migrations()[i as int].0);
            lemma_lines_trimmed(lines@, updated@, jsonc_migrations()[i as int].1);
            assert(has_old == has_trimmed_line(updated@, jsonc_migrations()[i as int].0));
            assert(has_new == has_trimmed_line(updated@, jsonc_migrations()[i as int].1));
        }
        if has_old && !has_new {
            updated = replace_str(updated.as_str(), olds[i], news[i]);
            changed = true;
        }
        i = i + 1;
    }
    if changed {
        Some(updated)
    } else {
        None
    }
}

/// A piece without newlines splits into itself.
proof fn lemma_split_nl_single(e: Seq<char>)
    requires
        !e.contains('\n'),
    ensures
        split_nl(e) == seq![e],
    decreases e.len(),
{
    if e.len() > 0 {
        let d = e.drop_last();
        assert(!d.contains('\n')) by {
            if d.contains('\n') {
                let i = choose|i: int| 0 <= i < d.len() && d[i] == '\n';
                assert(e[i] == '\n');
            }
        }
        assert(e.last() != '\n') by {
            assert(e[e.len() - 1] == e.last());
        }
        lemma_split_nl_single(d);
        assert(d.push(e.last()) =~= e);
        assert(seq![d].update(0, d.push(e.last())) =~= seq![e]);
    } else {
        assert(e =~= Seq::<char>::empty());
    }
}

/// The lines of an entry block are the entries, then an empty piece.
proof fn lemma_split_entry_block(m: Seq<Seq<char>>)
    requires
        forall|i: int| 0 <= i < m.len() ==> !(#[trigger] m[i]).contains('\n'),
    ensures
        split_nl(entry_block(m)) == m.push(Seq::empty()),
    decreases m.len(),
{
    reveal_strlit("\n");
    if m.len() == 0 {
        assert(split_nl(entry_block(m)) =~= m.push(Seq::empty()));
    } else {
        let init = m.drop_last();
        let e = m.last();
        assert(!e.contains('\n')) by {
            assert(m[m.len() - 1] == e);
        }
        lemma_split_entry_block(init);
        lemma_split_nl_single(e);
        let en = e + "\n"@;
        assert(en.drop_last() =~= e);
        assert(split_nl(en) =~= seq![e, Seq::empty()]);
        if init.len() == 0 {
            assert(entry_block(m) =~= en);
            assert(m.push(Seq::empty()) =~= seq![e, Seq::empty()]);
        } else {
            let b = entry_block(init);
            assert(b.last() == '\n');
            assert(entry_block(m) =~= b + en);
            lemma_split_nl_append(b, en);
            assert(split_nl(b).drop_last() =~= init);
            assert(init + seq![e, Seq::empty()] =~= m.push(Seq::empty()));
        }
    }
}

/// Every line of `existing` is still a line of `separated(existing) + rest`.
proof fn lemma_lines_survive(existing: Seq<char>, rest: Seq<char>, x: Seq<char>)
    requires
        has_trimmed_line(existing, x),
        x.len() > 0,
    ensures
        has_trimmed_line(separated(existing) + rest, x),
{
    let sp = split_nl(existing);
    let i = choose|i: int| 0 <= i < sp.len() && trim(#[trigger] sp[i]) == x;
    if existing.len() == 0 {
        assert(sp =~= seq![Seq::<char>::empty()]);
        assert(trim(Seq::<char>::empty()) =~= Seq::<char>::empty());
        assert(false);
    }
    let t = terminated(existing);
    let a = t.push('\n');
    assert(separated(existing) == a);
    assert(a.drop_last() =~= t);
    lemma_split_nl_append(a, rest);
    let whole = split_nl(a + rest);
    assert(split_nl(a).drop_last() =~= split_nl(t));
    if existing.last() != '\n' {
        assert(t.drop_last() =~= existing);
        assert(split_nl(t) =~= sp.push(Seq::empty()));
        assert(whole[i] == sp[i]);
    } else {
        assert(t == existing);
        assert(whole[i] == sp[i]);
    }
    assert(trim(whole[i]) == x);
}

proof fn lemma_missing_covers(s: Seq<char>, entries: Seq<Seq<char>>, i: int)
    requires
        0 <= i < entries.len(),
        !has_trimmed_line(s, entries[i]),
    ensures
        missing_entries(s, entries).contains(entries[i]),
    decreases entries.len(),
{
    if i < entries.len() - 1 {
        lemma_missing_covers(s, entries.drop_last(), i);
        assert(entries.drop_last()[i] == entries[i]);
    } else {
        assert(entries.last() == entries[i]);
        assert(missing_entries(s, entries).last() == entries[i]);
    }
}

proof fn lemma_missing_subset(s: Seq<char>, entries: Seq<Seq<char>>)
    ensures
        forall|e: Seq<char>| #[trigger] missing_entries(s, entries).contains(e) ==> entries.contains(e),
    decreases entries.len(),
{
    if entries.len() > 0 {
        lemma_missing_subset(s, entries.drop_last());
        assert forall|e: Seq<char>| #[trigger] missing_entries(s, entries).contains(e) implies entries.contains(e) by {
            if missing_entries(s, entries.drop_last()).contains(e) {
                assert(entries.drop_last().contains(e));
                let j = choose|j: int| 0 <= j < entries.drop_last().len() && entries.drop_last()[j] == e;
                assert(entries[j] == e);
            } else {
                assert(e == entries.last());
                assert(entries[entries.len() - 1] == e);
            }
        }
    }
}

proof fn lemma_none_missing(s: Seq<char>, entries: Seq<Seq<char>>)
    requires
        forall|i: int| 0 <= i < entries.len() ==> has_trimmed_line(s, #[trigger] entries[i]),
    ensures
        missing_entries(s, entries).len() == 0,
    decreases entries.len(),
{
    if entries.len() > 0 {
        assert(has_trimmed_line(s, entries[entries.len() - 1]));
        lemma_none_missing(s, entries.drop_last());
    }
}

/// Adding `.gitignore` entries only appends: the existing text is a prefix
/// of the new one.
#[verifier::spinoff_prover]
pub proof fn law_gitignore_updates_append(existing: Seq<char>, header: Seq<char>, entries: Seq<Seq<char>>, runtime_name: Seq<char>)
    ensures
        exact_entries_update(existing, header, entries) matches Some(t) ==> t.take(existing.len() as int) == existing,
        runtime_gitignore_update(existing, runtime_name) matches Some(t) ==> t.take(existing.len() as int) == existing,
{
    let t0 = terminated(existing);
    assert(t0.take(existing.len() as int) =~= existing);
    if let Some(t) = exact_entries_update(existing, header, entries) {
        assert(t.take(existing.len() as int) =~= existing);
    }
    if let Some(t) = runtime_gitignore_update(existing, runtime_name) {
        let need_logs = !has_runtime_entry(existing, runtime_name, "logs"@);
        let need_ws = !has_runtime_entry(existing, runtime_name, "workspaces"@);
        let need_trust = !has_trimmed_line(existing, trust_entry(runtime_name));
        let c1 = if need_logs { section(t0, logs_header(), runtime_name + "/logs/"@) } else { t0 };
        let c2 = if need_ws { section(c1, workspaces_header(), runtime_name + "/workspaces/"@) } else { c1 };
        assert(c1.take(existing.len() as int) =~= existing);
        assert(c2.take(existing.len() as int) =~= existing);
        assert(t.take(existing.len() as int) =~= existing);
    }
}

/// Adding exact entries is idempotent: once the update has been applied,
/// applying it again changes nothing. Holds for entries that are single
/// lines without surrounding whitespace.
pub proof fn law_exact_entries_idempotent(existing: Seq<char>, header: Seq<char>, entries: Seq<Seq<char>>)
    requires
        forall|i: int| 0 <= i < entries.len() ==> !(#[trigger] entries[i]).contains('\n'),
        forall|i: int| 0 <= i < entries.len() ==> trim(#[trigger] entries[i]) == entries[i],
        forall|i: int| 0 <= i < entries.len() ==> (#[trigger] entries[i]).len() > 0,
    ensures
        exact_entries_update(existing, header, entries) matches Some(t) ==> exact_entries_update(t, header, entries) is None,
{
    reveal_strlit("\n");
    if let Some(t) = exact_entries_update(existing, header, entries) {
        let missing = missing_entries(existing, entries);
        lemma_missing_subset(existing, entries);
        let x = separated(existing) + header + "\n"@;
        assert(t == x + entry_block(missing));
        assert(x.last() == '\n');
        assert forall|i: int| 0 <= i < missing.len() implies !(#[trigger] missing[i]).contains('\n') by {
            assert(missing.contains(missing[i]));
            let j = choose|j: int| 0 <= j < entries.len() && entries[j] == missing[i];
            assert(!entries[j].contains('\n'));
        }
        lemma_split_entry_block(missing);
        lemma_split_nl_append(x, entry_block(missing));
        lemma_split_nl_len(x);
        assert forall|i: int| 0 <= i < entries.len() implies has_trimmed_line(t, #[trigger] entries[i]) by {
            if has_trimmed_line(existing, entries[i]) {
                assert(separated(existing) + (header + "\n"@ + entry_block(missing)) =~= t);
                lemma_lines_survive(existing, header + "\n"@ + entry_block(missing), entries[i]);
            } else {
                lemma_missing_covers(existing, entries, i);
                let k = choose|k: int| 0 <= k < missing.len() && missing[k] == entries[i];
                let whole = split_nl(t);
                let off = split_nl(x).len() - 1;
                assert(whole[off + k] == missing.push(Seq::empty())[k]);
                assert(trim(whole[off + k]) == entries[i]);
            }
        }
        lemma_none_missing(t, entries);
    }
}

/// The lines of a section: those of `c` stay in place (when `c` is not
/// empty), and the entry is the last non-empty piece.
proof fn lemma_section_lines(c: Seq<char>, h: Seq<char>, e: Seq<char>)
    requires
        !e.contains('\n'),
    ensures
        split_nl(section(c, h, e)).len() >= 2,
        split_nl(section(c, h, e))[split_nl(section(c, h, e)).len() - 2] == e,
        c.len() > 0 ==> split_nl(section(c, h, e)).len() > split_nl(c).len(),
        c.len() > 0 ==> forall|i: int| 0 <= i < split_nl(c).len() ==> #[trigger] split_nl(section(c, h, e))[i] == split_nl(c)[i],
{
    reveal_strlit("\n");
    let a = if c.len() > 0 { c.push('\n') } else { c };
    let hn = h + "\n"@;
    let p = a + hn;
    let en = e + "\n"@;
    assert(section(c, h, e) =~= p + en);
    assert(p.last() == '\n');
    lemma_split_nl_single(e);
    assert(en.drop_last() =~= e);
    assert(split_nl(en) =~= seq![e, Seq::empty()]);
    lemma_split_nl_append(p, en);
    lemma_split_nl_len(p);
    assert(hn.drop_last() =~= h);
    lemma_split_nl_len(h);
    if c.len() > 0 {
        assert(a.drop_last() =~= c);
        lemma_split_nl_append(a, hn);
        assert(split_nl(a).drop_last() =~= split_nl(c));
        lemma_split_nl_len(c);
        let sp = split_nl(p);
        assert(sp == split_nl(c) + split_nl(hn));
        assert forall|i: int| 0 <= i < split_nl(c).len() implies #[trigger] split_nl(section(c, h, e))[i] == split_nl(c)[i] by {
            assert(sp[i] == split_nl(c)[i]);
            assert(sp.drop_last()[i] == sp[i]);
        }
    }
}

/// The lines of `existing` are lines of `terminated(existing)`, in place.
proof fn lemma_terminated_lines(existing: Seq<char>)
    ensures
        split_nl(terminated(existing)).len() >= split_nl(existing).len(),
        forall|i: int| 0 <= i < split_nl(existing).len() ==> #[trigger] split_nl(terminated(existing))[i] == split_nl(existing)[i],
{
    if existing.len() > 0 && existing.last() != '\n' {
        assert(existing.push('\n').drop_last() =~= existing);
    }
}

/// A string whose ends are not whitespace trims to itself.
proof fn lemma_trim_fixed(s: Seq<char>)
    requires
        s.len() > 0,
        !is_ws(s[0]),
        !is_ws(s.last()),
    ensures
        trim(s) == s,
{
    assert(crate::text::trim_start(s) == s);
    assert(crate::text::trim_end(s) == s);
}

/// What must hold of a runtime directory name for the update to be
/// idempotent: no newline, and no leading whitespace.
pub open spec fn plain_runtime_name(runtime_name: Seq<char>) -> bool {
    &&& !runtime_name.contains('\n')
    &&& (runtime_name.len() > 0 ==> !is_ws(runtime_name[0]))
}

proof fn lemma_runtime_entry_plain(runtime_name: Seq<char>, suffix: Seq<char>)
    requires
        plain_runtime_name(runtime_name),
        suffix.len() > 0,
        suffix[0] == '/',
        !suffix.contains('\n'),
        !is_ws(suffix.last()),
    ensures
        trim(runtime_name + suffix) == runtime_name + suffix,
        !(runtime_name + suffix).contains('\n'),
{
    let e = runtime_name + suffix;
    if runtime_name.len() > 0 {
        assert(e[0] == runtime_name[0]);
    } else {
        assert(e[0] == suffix[0]);
    }
    assert(e.last() == suffix.last());
    lemma_trim_fixed(e);
    if e.contains('\n') {
        let i = choose|i: int| 0 <= i < e.len() && e[i] == '\n';
        if i < runtime_name.len() {
            assert(runtime_name[i] == '\n');
        } else {
            assert(suffix[i - runtime_name.len()] == '\n');
        }
    }
}

/// Ensuring the runtime entries is idempotent: once the update has been
/// applied, applying it again changes nothing.
pub proof fn law_runtime_entries_idempotent(existing: Seq<char>, runtime_name: Seq<char>)
    requires
        plain_runtime_name(runtime_name),
    ensures
        runtime_gitignore_update(existing, runtime_name) matches Some(t) ==> runtime_gitignore_update(t, runtime_name) is None,
{
    reveal_strlit("/logs/");
    reveal_strlit("/workspaces/");
    reveal_strlit("/trust.jsonc");
    reveal_strlit("logs");
    reveal_strlit("workspaces");
    reveal_strlit("/");
    if let Some(t) = runtime_gitignore_update(existing, runtime_name) {
        let logs = runtime_name + "/logs/"@;
        let ws = runtime_name + "/workspaces/"@;
        let trust = trust_entry(runtime_name);
        lemma_runtime_entry_plain(runtime_name, "/logs/"@);
        lemma_runtime_entry_plain(runtime_name, "/workspaces/"@);
        lemma_runtime_entry_plain(runtime_name, "/trust.jsonc"@);
        assert(runtime_entry_line(logs, runtime_name, "logs"@)) by {
            assert(runtime_name + "/"@ + "logs"@ + "/"@ =~= logs);
        }
        assert(runtime_entry_line(ws, runtime_name, "workspaces"@)) by {
            assert(runtime_name + "/"@ + "workspaces"@ + "/"@ =~= ws);
        }
        let need_logs = !has_runtime_entry(existing, runtime_name, "logs"@);
        let need_ws = !has_runtime_entry(existing, runtime_name, "workspaces"@);
        let need_trust = !has_trimmed_line(existing, trust);
        let c0 = terminated(existing);
        let c1 = if need_logs { section(c0, logs_header(), logs) } else { c0 };
        let c2 = if need_ws { section(c1, workspaces_header(), ws) } else { c1 };
        let c3 = if need_trust { section(c2, trust_header(), trust) } else { c2 };
        assert(t == c3);
        lemma_terminated_lines(existing);
        lemma_section_lines(c0, logs_header(), logs);
        lemma_section_lines(c1, workspaces_header(), ws);
        lemma_section_lines(c2, trust_header(), trust);
        // Where each entry sits among the lines of `t`.
        let sp0 = split_nl(existing);
        let logs_at: int = if need_logs {
            split_nl(c1).len() - 2
        } else {
            choose|i: int| 0 <= i < sp0.len() && runtime_entry_line(#[trigger] sp0[i], runtime_name, "logs"@)
        };
        let ws_at: int = if need_ws {
            split_nl(c2).len() - 2
        } else {
            choose|i: int| 0 <= i < sp0.len() && runtime_entry_line(#[trigger] sp0[i], runtime_name, "workspaces"@)
        };
        let trust_at: int = if need_trust {
            split_nl(c3).len() - 2
        } else {
            choose|i: int| 0 <= i < sp0.len() && trim(#[trigger] sp0[i]) == trust
        };
        if !need_logs || !need_ws || !need_trust {
            assert(existing.len() > 0) by {
                if existing.len() == 0 {
                    assert(sp0 =~= seq![Seq::<char>::empty()]);
                    assert(trim(Seq::<char>::empty()) =~= Seq::<char>::empty());
                }
            }
        }
        // Lines of c1 stay in c2 and c3.
        assert(c1.len() > 0 ==> forall|i: int| 0 <= i < split_nl(c1).len() ==> split_nl(c3)[i] == split_nl(c1)[i]) by {
            if c1.len() > 0 {
                assert forall|i: int| 0 <= i < split_nl(c1).len() implies split_nl(c3)[i] == split_nl(c1)[i] by {
                    if need_ws {
                        assert(split_nl(c2)[i] == split_nl(c1)[i]);
                    }
                    if need_trust {
                        assert(c2.len() > 0);
                        assert(split_nl(c3)[i] == split_nl(c2)[i]);
                    }
                }
            }
        }
        assert(runtime_entry_line(split_nl(c3)[logs_at], runtime_name, "logs"@)) by {
            if need_logs {
                assert(c1.len() > 0);
                assert(split_nl(c1)[logs_at] == logs);
            } else {
                assert(split_nl(c0)[logs_at] == sp0[logs_at]);
                assert(c1 == c0);
            }
        }
        assert(runtime_entry_line(split_nl(c3)[ws_at], runtime_name, "workspaces"@)) by {
            if need_ws {
                assert(c2.len() > 0);
                if need_trust {
                    assert(split_nl(c3)[ws_at] == split_nl(c2)[ws_at]);
                }
            } else {
                assert(split_nl(c0)[ws_at] == sp0[ws_at]);
                if need_logs {
                    assert(split_nl(c1)[ws_at] == split_nl(c0)[ws_at]);
                }
            }
        }
        assert(trim(split_nl(c3)[trust_at]) == trust) by {
            if !need_trust {
                assert(split_nl(c0)[trust_at] == sp0[trust_at]);
                if need_logs {
                    assert(split_nl(c1)[trust_at] == split_nl(c0)[trust_at]);
                }
            }
        }
        lemma_split_nl_len(c3);
    }
}

/// Text that starts with `separated(existing)` keeps every line of a
/// non-empty `existing` in place.
proof fn lemma_separated_keeps_lines(existing: Seq<char>, rest: Seq<char>)
    requires
        existing.len() > 0,
    ensures
        split_nl(separated(existing) + rest).len() >= split_nl(existing).len(),
        forall|i: int| 0 <= i < split_nl(existing).len() ==> #[trigger] split_nl(separated(existing) + rest)[i] == split_nl(existing)[i],
{
    reveal_strlit("\n");
    let a = terminated(existing);
    let b = seq!['\n'] + rest;
    assert(separated(existing) + rest =~= a + b);
    assert(a.len() > 0 && a.last() == '\n');
    lemma_split_nl_append(a, b);
    let sb = split_nl(b);
    assert(b.take(1) =~= seq!['\n']);
    lemma_split_nl_first_empty(b);
    lemma_split_nl_len(existing);
    lemma_split_nl_len(a);
    let sa = split_nl(a);
    let se = split_nl(existing);
    if existing.last() == '\n' {
        assert(a == existing);
        lemma_split_nl_last_empty(existing);
        assert forall|i: int| 0 <= i < se.len() implies #[trigger] (sa.drop_last() + sb)[i] == se[i] by {
            if i < se.len() - 1 {
            } else {
                assert((sa.drop_last() + sb)[i] == sb[0]);
            }
        }
    } else {
        assert(a.drop_last() =~= existing);
        assert(sa == se.push(Seq::empty()));
        assert(sa.drop_last() =~= se);
    }
}

/// Pieces of text that starts with a newline: the first is empty.
proof fn lemma_split_nl_first_empty(b: Seq<char>)
    requires
        b.len() > 0,
        b[0] == '\n',
    ensures
        split_nl(b).len() >= 2,
        split_nl(b)[0] == Seq::<char>::empty(),
    decreases b.len(),
{
    lemma_split_nl_len(b);
    if b.len() == 1 {
        assert(b.drop_last() =~= Seq::<char>::empty());
        assert(split_nl(b) =~= seq![Seq::<char>::empty(), Seq::<char>::empty()]);
    } else {
        let d = b.drop_last();
        lemma_split_nl_first_empty(d);
        lemma_split_nl_len(d);
    }
}

/// Text ending in a newline has an empty last piece.
proof fn lemma_split_nl_last_empty(s: Seq<char>)
    requires
        s.len() > 0,
        s.last() == '\n',
    ensures
        split_nl(s).last() == Seq::<char>::empty(),
{
}

/// Updating `.gitignore` keeps every line: each line of the old text is,
/// in the same place, a line of the new one.
pub proof fn law_gitignore_updates_keep_lines(existing: Seq<char>, header: Seq<char>, entries: Seq<Seq<char>>, runtime_name: Seq<char>)
    ensures
        exact_entries_update(existing, header, entries) matches Some(t) ==> existing.len() > 0 ==> split_nl(t).len() >= split_nl(existing).len() && forall|i: int|
            0 <= i < split_nl(existing).len() ==> #[trigger] split_nl(t)[i] == split_nl(existing)[i],
        runtime_gitignore_update(existing, runtime_name) matches Some(t) ==> existing.len() > 0 ==> split_nl(t).len() >= split_nl(existing).len() && forall|i: int|
            0 <= i < split_nl(existing).len() ==> #[trigger] split_nl(t)[i] == split_nl(existing)[i],
{
    if existing.len() > 0 {
        if let Some(t) = exact_entries_update(existing, header, entries) {
            let missing = missing_entries(existing, entries);
            let rest = header + "\n"@ + entry_block(missing);
            assert(t =~= separated(existing) + rest);
            lemma_separated_keeps_lines(existing, rest);
        }
        if let Some(t) = runtime_gitignore_update(existing, runtime_name) {
            let need_logs = !has_runtime_entry(existing, runtime_name, "logs"@);
            let need_ws = !has_runtime_entry(existing, runtime_name, "workspaces"@);
            let need_trust = !has_trimmed_line(existing, trust_entry(runtime_name));
            let c0 = terminated(existing);
            let l = runtime_name + "/logs/"@;
            let w = runtime_name + "/workspaces/"@;
            let tr = trust_entry(runtime_name);
            let c1 = if need_logs { section(c0, logs_header(), l) } else { c0 };
            let c2 = if need_ws { section(c1, workspaces_header(), w) } else { c1 };
            let c3 = if need_trust { section(c2, trust_header(), tr) } else { c2 };
            lemma_terminated_lines(existing);
            lemma_section_keeps(c0, logs_header(), l);
            lemma_section_keeps(c1, workspaces_header(), w);
            lemma_section_keeps(c2, trust_header(), tr);
            assert(c0.len() > 0);
            assert(c1.len() > 0);
            assert(c2.len() > 0);
            let se = split_nl(existing);
            assert forall|i: int| 0 <= i < se.len() implies #[trigger] split_nl(t)[i] == se[i] by {
                assert(split_nl(c0)[i] == se[i]);
                assert(split_nl(c1)[i] == se[i]);
                assert(split_nl(c2)[i] == se[i]);
            }
        }
    }
}

/// A section keeps the lines of a non-empty `c` in place (whatever the entry).
proof fn lemma_section_keeps(c: Seq<char>, h: Seq<char>, e: Seq<char>)
    requires
        c.len() > 0,
    ensures
        section(c, h, e).len() > 0,
        split_nl(section(c, h, e)).len() >= split_nl(c).len(),
        forall|i: int| 0 <= i < split_nl(c).len() ==> #[trigger] split_nl(section(c, h, e))[i] == split_nl(c)[i],
{
    reveal_strlit("\n");
    let a = c.push('\n');
    let rest = h + "\n"@ + e + "\n"@;
    assert(section(c, h, e) =~= a + rest);
    assert(a.drop_last() =~= c);
    lemma_split_nl_append(a, rest);
    lemma_split_nl_len(c);
    lemma_split_nl_len(rest);
    let sa = split_nl(a);
    assert(sa.drop_last() =~= split_nl(c));
}

/// How many of `ls` trim to `x`.
pub open spec fn trimmed_count(ls: Seq<Seq<char>>, x: Seq<char>) -> nat
    decreases ls.len(),
{
    if ls.len() == 0 {
        0
    } else {
        trimmed_count(ls.drop_last(), x) + if trim(ls.last()) == x {
            1nat
        } else {
            0nat
        }
    }
}

proof fn lemma_count_concat(a: Seq<Seq<char>>, b: Seq<Seq<char>>, x: Seq<char>)
    ensures
        trimmed_count(a + b, x) == trimmed_count(a, x) + trimmed_count(b, x),
    decreases b.len(),
{
    if b.len() == 0 {
        assert(a + b =~= a);
    } else {
        assert((a + b).drop_last() =~= a + b.drop_last());
        lemma_count_concat(a, b.drop_last(), x);
    }
}

/// No two entries are equal.
pub open spec fn distinct_entries(entries: Seq<Seq<char>>) -> bool {
    forall|i: int, j: int| 0 <= i < j < entries.len() ==> entries[i] != entries[j]
}

/// With distinct entries that trim to themselves, each entry is missing
/// once when no line holds it, and never otherwise.
proof fn lemma_missing_count(s: Seq<char>, entries: Seq<Seq<char>>, x: Seq<char>)
    requires
        distinct_entries(entries),
        forall|i: int| 0 <= i < entries.len() ==> trim(#[trigger] entries[i]) == entries[i],
    ensures
        trimmed_count(missing_entries(s, entries), x) == if entries.contains(x) && !has_trimmed_line(s, x) {
            1nat
        } else {
            0nat
        },
    decreases entries.len(),
{
    if entries.len() > 0 {
        let init = entries.drop_last();
        let l = entries.last();
        assert forall|i: int| 0 <= i < init.len() implies trim(#[trigger] init[i]) == init[i] by {
            assert(init[i] == entries[i]);
        }
        lemma_missing_count(s, init, x);
        assert(trim(l) == l);
        let m0 = missing_entries(s, init);
        if !has_trimmed_line(s, l) {
            assert(missing_entries(s, entries) == m0.push(l));
            assert(m0.push(l).drop_last() =~= m0);
        }
        if l == x {
            assert(!init.contains(x)) by {
                if init.contains(x) {
                    let j = choose|j: int| 0 <= j < init.len() && init[j] == x;
                    assert(entries[j] == entries[entries.len() - 1]);
                }
            }
            assert(entries.contains(x)) by {
                assert(entries[entries.len() - 1] == x);
            }
        } else {
            assert(entries.contains(x) == init.contains(x)) by {
                if entries.contains(x) {
                    let j = choose|j: int| 0 <= j < entries.len() && entries[j] == x;
                    assert(j < entries.len() - 1);
                    assert(init[j] == x);
                }
                if init.contains(x) {
                    let j = choose|j: int| 0 <= j < init.len() && init[j] == x;
                    assert(entries[j] == x);
                }
            }
        }
    }
}

/// Adding exact entries adds each missing one exactly once and no entry
/// that was there: every entry's number of lines grows by one when it was
/// missing, and stays the same otherwise. So an entry that was absent ends
/// up on exactly one line.
pub proof fn law_exact_entries_once(existing: Seq<char>, header: Seq<char>, entries: Seq<Seq<char>>, x: Seq<char>)
    requires
        distinct_entries(entries),
        entries.contains(x),
        forall|i: int| 0 <= i < entries.len() ==> !(#[trigger] entries[i]).contains('\n'),
        forall|i: int| 0 <= i < entries.len() ==> trim(#[trigger] entries[i]) == entries[i],
        forall|i: int| 0 <= i < entries.len() ==> (#[trigger] entries[i]).len() > 0,
        !header.contains('\n'),
        trim(header) != x,
    ensures
        exact_entries_update(existing, header, entries) matches Some(t) ==> trimmed_count(split_nl(t), x)
            == trimmed_count(split_nl(existing), x) + if has_trimmed_line(existing, x) {
            0nat
        } else {
            1nat
        },
{
    reveal_strlit("\n");
    if let Some(t) = exact_entries_update(existing, header, entries) {
        let missing = missing_entries(existing, entries);
        let block = entry_block(missing);
        lemma_missing_subset(existing, entries);
        assert forall|i: int| 0 <= i < missing.len() implies !(#[trigger] missing[i]).contains('\n') by {
            assert(missing.contains(missing[i]));
            let j = choose|j: int| 0 <= j < entries.len() && entries[j] == missing[i];
            assert(!entries[j].contains('\n'));
        }
        lemma_split_entry_block(missing);
        lemma_missing_count(existing, entries, x);
        // The pieces of the new text: those of the old text (up to empty
        // pieces), an empty piece, the header, then the missing entries.
        let a = terminated(existing);
        let hb = header + "\n"@ + block;
        let e0 = Seq::<char>::empty();
        assert(trim(e0) =~= e0);
        assert(e0 != x);
        let hn = header + "\n"@;
        assert(hn.last() == '\n');
        assert(hn.drop_last() =~= header);
        lemma_split_nl_single(header);
        lemma_split_nl_append(hn, block);
        assert(hb =~= hn + block);
        assert(split_nl(hn) =~= seq![header, e0]);
        let shb = split_nl(hb);
        assert(shb == seq![header] + missing.push(e0));
        lemma_count_concat(seq![header], missing.push(e0), x);
        lemma_count_concat(missing, seq![e0], x);
        assert(trimmed_count(seq![e0], x) == 0) by {
            assert(seq![e0].drop_last() =~= Seq::<Seq<char>>::empty());
        }
        assert(trimmed_count(seq![header], x) == 0) by {
            assert(seq![header].drop_last() =~= Seq::<Seq<char>>::empty());
        }
        assert(missing.push(e0).drop_last() =~= missing);
        assert(trimmed_count(missing.push(e0), x) == trimmed_count(missing, x));
        assert(trimmed_count(shb, x) == trimmed_count(missing, x));
        let se = split_nl(existing);
        lemma_split_nl_len(existing);
        if existing.len() == 0 {
            assert(t =~= hb);
            assert(se =~= seq![e0]);
            assert(trimmed_count(se, x) == 0) by {
                assert(se.drop_last() =~= Seq::<Seq<char>>::empty());
            }
        } else {
            let b = seq!['\n'] + hb;
            assert(t =~= a + b);
            let one = seq!['\n'];
            assert(one.drop_last() =~= e0);
            assert(split_nl(e0) =~= seq![e0]);
            assert(split_nl(one) =~= seq![e0, e0]);
            lemma_split_nl_append(one, hb);
            assert(b =~= one + hb);
            let sb = split_nl(b);
            assert(sb == seq![e0] + shb);
            lemma_count_concat(seq![e0], shb, x);
            assert(trimmed_count(sb, x) == trimmed_count(missing, x));
            lemma_split_nl_append(a, b);
            let sa = split_nl(a);
            lemma_count_concat(sa.drop_last(), sb, x);
            if existing.last() == '\n' {
                assert(a == existing);
                lemma_split_nl_last_empty(existing);
                assert(se =~= se.drop_last().push(e0));
                assert(trimmed_count(se, x) == trimmed_count(se.drop_last(), x));
            } else {
                assert(a.drop_last() =~= existing);
                assert(sa == se.push(e0));
                assert(sa.drop_last() =~= se);
            }
        }
    }
}

/// Ignoring the local queue files adds each of the two entries once: an
/// entry that no line held is afterwards on exactly one line, and one that
/// was there is not added again.
pub proof fn law_local_queue_entries_once(existing: Seq<char>, runtime_name: Seq<char>, x: Seq<char>)
    requires
        plain_runtime_name(runtime_name),
        local_queue_entries(runtime_name).contains(x),
    ensures
        exact_entries_update(existing, local_queue_header(), local_queue_entries(runtime_name)) matches Some(t)
            ==> trimmed_count(split_nl(t), x) == trimmed_count(split_nl(existing), x) + if has_trimmed_line(existing, x) {
            0nat
        } else {
            1nat
        },
{
    reveal_strlit("/queue.jsonc");
    reveal_strlit("/done.jsonc");
    reveal_strlit("# CueLoop local queue state");
    let q = runtime_name + "/queue.jsonc"@;
    let d = runtime_name + "/done.jsonc"@;
    let es = local_queue_entries(runtime_name);
    lemma_runtime_entry_plain(runtime_name, "/queue.jsonc"@);
    lemma_runtime_entry_plain(runtime_name, "/done.jsonc"@);
    assert(q != d) by {
        assert(q.len() != d.len());
    }
    let h = local_queue_header();
    assert(!h.contains('\n'));
    assert(trim(h) == h) by {
        lemma_trim_fixed(h);
    }
    assert(h.last() == 'e');
    assert(q.last() == 'c');
    assert(d.last() == 'c');
    assert forall|i: int| 0 <= i < es.len() implies trim(#[trigger] es[i]) == es[i] && !es[i].contains('\n') && es[i].len() > 0 by {}
    law_exact_entries_once(existing, h, es, x);
}

} // verus!
