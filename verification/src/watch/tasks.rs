//! Watch tasks: the task a marker comment becomes, which tasks count as
//! active watch tasks, which comments of a batch need a new task, and
//! closing the tasks whose comments were removed from the files scanned.
//! Tasks are matched by their watch v2 metadata (identity key and file key).
use vstd::prelude::*;
use crate::contracts::{TaskPriority, TaskStatus};
use crate::keyed::{Keyed, has_key, find_first};
use crate::pathname::{file_name_or, path_file_name};
use crate::text::{chars_of, string_from_chars, push_str, push_decimal, decimal, str_eq};
use crate::watch::comments::take_at_most;
use crate::watch::types::{CommentType, DetectedComment};

verus! {

/// The marker word of a comment type, upper case (`TODO`, ..., `ALL`).
pub open spec fn type_upper(t: CommentType) -> Seq<char> {
    match t {
        CommentType::Todo => "TODO"@,
        CommentType::Fixme => "FIXME"@,
        CommentType::Hack => "HACK"@,
        CommentType::Xxx => "XXX"@,
        CommentType::All => "ALL"@,
    }
}

/// The marker word of a comment type, lower case (used as a tag).
pub open spec fn type_lower(t: CommentType) -> Seq<char> {
    match t {
        CommentType::Todo => "todo"@,
        CommentType::Fixme => "fixme"@,
        CommentType::Hack => "hack"@,
        CommentType::Xxx => "xxx"@,
        CommentType::All => "all"@,
    }
}

fn type_upper_str(t: CommentType) -> (r: &'static str)
    ensures
        r@ == type_upper(t),
{
    match t {
        CommentType::Todo => "TODO",
        CommentType::Fixme => "FIXME",
        CommentType::Hack => "HACK",
        CommentType::Xxx => "XXX",
        CommentType::All => "ALL",
    }
}

fn type_lower_str(t: CommentType) -> (r: &'static str)
    ensures
        r@ == type_lower(t),
{
    match t {
        CommentType::Todo => "todo",
        CommentType::Fixme => "fixme",
        CommentType::Hack => "hack",
        CommentType::Xxx => "xxx",
        CommentType::All => "all",
    }
}

/// The watch identity of a comment, as the identity scheme computes it
/// (normalised file key, line, type, content hash, location and identity
/// keys); `create_task_from_comment` stores it on the task.
#[derive(Debug, Clone)]
pub struct WatchIdentity {
    pub file: String,
    pub line: usize,
    pub comment_type: String,
    pub content_hash: String,
    pub location_key: String,
    pub identity_key: String,
}

/// Version of the watch metadata written on new tasks.
pub const WATCH_VERSION_V2: &'static str = "2";

/// Custom-field keys of the watch metadata.
pub const WATCH_FIELD_VERSION: &'static str = "watch.version";

pub const WATCH_FIELD_FILE: &'static str = "watch.file";

pub const WATCH_FIELD_LINE: &'static str = "watch.line";

pub const WATCH_FIELD_COMMENT_TYPE: &'static str = "watch.comment_type";

pub const WATCH_FIELD_CONTENT_HASH: &'static str = "watch.content_hash";

pub const WATCH_FIELD_LOCATION_KEY: &'static str = "watch.location_key";

pub const WATCH_FIELD_IDENTITY_KEY: &'static str = "watch.identity_key";

pub const WATCH_FIELD_FINGERPRINT: &'static str = "watch.fingerprint";

/// A task created from a marker comment.
#[derive(Debug, Clone)]
pub struct WatchTask {
    pub id: String,
    pub status: TaskStatus,
    pub title: String,
    pub priority: TaskPriority,
    pub tags: Vec<String>,
    pub scope: Vec<String>,
    pub notes: Vec<String>,
    pub request: Option<String>,
    pub created_at: Option<String>,
    pub updated_at: Option<String>,
    pub completed_at: Option<String>,
    /// Custom fields as `(key, value)` pairs, each key once.
    pub custom_fields: Vec<(String, String)>,
}

/// `TYPE: <content, cut to 50 characters> in <file name>`.
pub open spec fn watch_title(c: DetectedComment) -> Seq<char> {
    type_upper(c.comment_type) + ": "@ + take_at_most(c.content@, 50) + " in "@ + file_name_or(
        c.file_path@,
        "unknown"@,
    )
}

/// The notes of a new watch task: where the comment is, its full text and
/// its context.
pub open spec fn watch_notes(c: DetectedComment) -> Seq<Seq<char>> {
    seq![
        "Detected in: "@ + c.file_path@ + ":"@ + decimal(c.line_number as nat),
        "Full content: "@ + c.content@,
        "Context: "@ + c.context@,
    ]
}

/// The watch v2 metadata of a task: version, file, line, comment type,
/// content hash, location and identity keys, and the fingerprint (the
/// content hash).
pub open spec fn watch_fields(id: WatchIdentity) -> Seq<(Seq<char>, Seq<char>)> {
    seq![
        (WATCH_FIELD_VERSION@, WATCH_VERSION_V2@),
        (WATCH_FIELD_FILE@, id.file@),
        (WATCH_FIELD_LINE@, decimal(id.line as nat)),
        (WATCH_FIELD_COMMENT_TYPE@, id.comment_type@),
        (WATCH_FIELD_CONTENT_HASH@, id.content_hash@),
        (WATCH_FIELD_LOCATION_KEY@, id.location_key@),
        (WATCH_FIELD_IDENTITY_KEY@, id.identity_key@),
        (WATCH_FIELD_FINGERPRINT@, id.content_hash@),
    ]
}

/// The view of an optional string.
pub open spec fn opt_str(o: Option<String>) -> Option<Seq<char>> {
    match o {
        Some(s) => Some(s@),
        None => None,
    }
}

fn pair(k: &str, v: &str) -> (r: (String, String))
    ensures
        r.0@ == k@,
        r.1@ == v@,
{
    (String::from_str(k), String::from_str(v))
}

/// The title of the task for a comment (see `watch_title`).
pub fn watch_task_title(comment: &DetectedComment) -> (r: String)
    ensures
        r@ == watch_title(*comment),
{
    let upper = type_upper_str(comment.comment_type);
    let mut title = String::from_str(upper);
    push_str(&mut title, ": ");
    let v = chars_of(comment.content.as_str());
    let n: usize = if v.len() <= 50 {
        v.len()
    } else {
        50
    };
    let cut = string_from_chars(&v, 0, n);
    assert(cut@ == take_at_most(comment.content@, 50));
    push_str(&mut title, cut.as_str());
    push_str(&mut title, " in ");
    match path_file_name(comment.file_path.as_str()) {
        Some(name) => push_str(&mut title, name.as_str()),
        None => push_str(&mut title, "unknown"),
    }
    title
}

/// The task for a detected comment: id `task_id` (the next free id, found by
/// the caller across the queue and done files), status `Todo`, priority
/// medium, the title, the tags `watch` and the comment's type, the scope
/// (the identity's file), the notes, the request "Address TYPE comment",
/// created and updated at `now`, not completed, and the watch v2 metadata of
/// `identity`.
pub fn create_task_from_comment(
    comment: &DetectedComment,
    task_id: &str,
    now: &str,
    identity: &WatchIdentity,
) -> (r: WatchTask)
    ensures
        r.id@ == task_id@,
        r.status == TaskStatus::Todo,
        r.priority == TaskPriority::Medium,
        r.title@ == watch_title(*comment),
        r.tags@.map_values(|t: String| t@) == seq!["watch"@, type_lower(comment.comment_type)],
        r.scope@.map_values(|t: String| t@) == seq![identity.file@],
        r.notes@.map_values(|n: String| n@) == watch_notes(*comment),
        opt_str(r.request) == Some("Address "@ + type_upper(comment.comment_type) + " comment"@),
        opt_str(r.created_at) == Some(now@),
        opt_str(r.updated_at) == Some(now@),
        r.completed_at is None,
        r.custom_fields@.map_values(|p: (String, String)| (p.0@, p.1@)) == watch_fields(*identity),
{
    let upper = type_upper_str(comment.comment_type);
    let title = watch_task_title(comment);
    let tags = vec![String::from_str("watch"), String::from_str(type_lower_str(comment.comment_type))];
    let scope = vec![identity.file.clone()];
    let mut detected = String::from_str("Detected in: ");
    push_str(&mut detected, comment.file_path.as_str());
    push_str(&mut detected, ":");
    push_decimal(&mut detected, comment.line_number as u64);
    let mut full = String::from_str("Full content: ");
    push_str(&mut full, comment.content.as_str());
    let mut context = String::from_str("Context: ");
    push_str(&mut context, comment.context.as_str());
    let notes = vec![detected, full, context];
    let mut request = String::from_str("Address ");
    push_str(&mut request, upper);
    push_str(&mut request, " comment");
    let mut line = String::new();
    push_decimal(&mut line, identity.line as u64);
    let custom_fields = vec![
        pair(WATCH_FIELD_VERSION, WATCH_VERSION_V2),
        pair(WATCH_FIELD_FILE, identity.file.as_str()),
        (String::from_str(WATCH_FIELD_LINE), line),
        pair(WATCH_FIELD_COMMENT_TYPE, identity.comment_type.as_str()),
        pair(WATCH_FIELD_CONTENT_HASH, identity.content_hash.as_str()),
        pair(WATCH_FIELD_LOCATION_KEY, identity.location_key.as_str()),
        pair(WATCH_FIELD_IDENTITY_KEY, identity.identity_key.as_str()),
        pair(WATCH_FIELD_FINGERPRINT, identity.content_hash.as_str()),
    ];
    assert(tags@.map_values(|t: String| t@) =~= seq!["watch"@, type_lower(comment.comment_type)]);
    assert(scope@.map_values(|t: String| t@) =~= seq![identity.file@]);
    assert(notes@.map_values(|n: String| n@) =~= watch_notes(*comment));
    assert(custom_fields@.map_values(|p: (String, String)| (p.0@, p.1@)) =~= watch_fields(*identity));
    WatchTask {
        id: String::from_str(task_id),
        status: TaskStatus::Todo,
        title,
        priority: TaskPriority::Medium,
        tags,
        scope,
        notes,
        request: Some(request),
        created_at: Some(String::from_str(now)),
        updated_at: Some(String::from_str(now)),
        completed_at: None,
        custom_fields,
    }
}

/// A task is an active watch task when it is tagged `watch` and neither
/// done nor rejected.
pub fn is_active_watch_task(tags: &Vec<String>, status: TaskStatus) -> (r: bool)
    ensures
        r == (has_key(tags@, "watch"@) && status != TaskStatus::Done && status != TaskStatus::Rejected),
{
    find_first(tags, "watch").is_some() && status != TaskStatus::Done && status
        != TaskStatus::Rejected
}

/// The note added when a watch task is closed because its comment is gone.
pub fn removed_comment_note(now: &str) -> (r: String)
    ensures
        r@ == "[watch] Automatically marked done: originating comment was removed at "@ + now@,
{
    let mut r = String::from_str("[watch] Automatically marked done: originating comment was removed at ");
    push_str(&mut r, now);
    r
}

/// The note added when a legacy watch task's metadata is upgraded.
pub fn upgraded_metadata_note(now: &str) -> (r: String)
    ensures
        r@ == "[watch] Automatically upgraded metadata to watch.version=2 at "@ + now@,
{
    let mut r = String::from_str("[watch] Automatically upgraded metadata to watch.version=2 at ");
    push_str(&mut r, now);
    r
}

// ---------------------------------------------------------------------------
// Matching comments against the queue, and closing tasks of removed comments
// ---------------------------------------------------------------------------

/// The value of the first custom field named `key`.
pub open spec fn field_value(fields: Seq<(String, String)>, key: Seq<char>) -> Option<Seq<char>>
    decreases fields.len(),
{
    if fields.len() == 0 {
        None
    } else if fields[0].0@ == key {
        Some(fields[0].1@)
    } else {
        field_value(fields.skip(1), key)
    }
}

/// The value of the first custom field named `key`.
pub fn find_field(fields: &Vec<(String, String)>, key: &str) -> (r: Option<String>)
    ensures
        opt_str(r) == field_value(fields@, key@),
{
    let mut i: usize = 0;
    assert(fields@.skip(0) =~= fields@);
    while i < fields.len()
        invariant
            i <= fields@.len(),
            field_value(fields@, key@) == field_value(fields@.skip(i as int), key@),
        decreases fields.len() - i,
    {
        assert(fields@.skip(i as int)[0] == fields@[i as int]);
        if str_eq(fields[i].0.as_str(), key) {
            return Some(fields[i].1.clone());
        }
        assert(fields@.skip(i as int).skip(1) =~= fields@.skip(i + 1));
        i = i + 1;
    }
    assert(fields@.skip(i as int).len() == 0);
    None
}

/// A task's watch v2 identity, `(file key, identity key)`: present when its
/// metadata is version 2 and records both.
pub open spec fn v2_identity(t: WatchTask) -> Option<(Seq<char>, Seq<char>)> {
    if field_value(t.custom_fields@, WATCH_FIELD_VERSION@) == Some(WATCH_VERSION_V2@) {
        match (
            field_value(t.custom_fields@, WATCH_FIELD_FILE@),
            field_value(t.custom_fields@, WATCH_FIELD_IDENTITY_KEY@),
        ) {
            (Some(f), Some(k)) => Some((f, k)),
            _ => None,
        }
    } else {
        None
    }
}

/// The watch v2 identity of a task (see `v2_identity`).
pub fn task_v2_identity(t: &WatchTask) -> (r: Option<(String, String)>)
    ensures
        match r {
            Some(p) => v2_identity(*t) == Some((p.0@, p.1@)),
            None => v2_identity(*t) is None,
        },
{
    let version = find_field(&t.custom_fields, WATCH_FIELD_VERSION);
    let is_v2 = match &version {
        Some(v) => str_eq(v.as_str(), WATCH_VERSION_V2),
        None => false,
    };
    if !is_v2 {
        return None;
    }
    let file = find_field(&t.custom_fields, WATCH_FIELD_FILE);
    let key = find_field(&t.custom_fields, WATCH_FIELD_IDENTITY_KEY);
    match (file, key) {
        (Some(f), Some(k)) => Some((f, k)),
        _ => None,
    }
}

/// An active watch task: tagged `watch`, neither done nor rejected.
pub open spec fn active_watch(t: WatchTask) -> bool {
    has_key(t.tags@, "watch"@) && t.status != TaskStatus::Done && t.status != TaskStatus::Rejected
}

/// `t` is an active watch task for the comment with identity key `key`.
pub open spec fn tracks_comment(t: WatchTask, key: Seq<char>) -> bool {
    active_watch(t) && match v2_identity(t) {
        Some(id) => id.1 == key,
        None => false,
    }
}

fn tracks_comment_exec(t: &WatchTask, key: &str) -> (r: bool)
    ensures
        r == tracks_comment(*t, key@),
{
    if !is_active_watch_task(&t.tags, t.status) {
        return false;
    }
    match task_v2_identity(t) {
        Some((_, k)) => str_eq(k.as_str(), key),
        None => false,
    }
}

/// The first active watch task that tracks the comment with identity key
/// `identity_key`.
pub fn find_matching_active_watch_task(tasks: &[WatchTask], identity_key: &str) -> (r: Option<usize>)
    ensures
        match r {
            Some(i) => i < tasks@.len() && tracks_comment(tasks@[i as int], identity_key@) && forall|j: int|
                0 <= j < i ==> !tracks_comment(#[trigger] tasks@[j], identity_key@),
            None => forall|j: int| 0 <= j < tasks@.len() ==> !tracks_comment(#[trigger] tasks@[j], identity_key@),
        },
{
    let mut i: usize = 0;
    while i < tasks.len()
        invariant
            i <= tasks@.len(),
            forall|j: int| 0 <= j < i ==> !tracks_comment(#[trigger] tasks@[j], identity_key@),
        decreases tasks.len() - i,
    {
        if tracks_comment_exec(&tasks[i], identity_key) {
            return Some(i);
        }
        i = i + 1;
    }
    None
}

/// Whether an active watch task already tracks the comment.
pub fn task_exists_for_comment(tasks: &[WatchTask], identity: &WatchIdentity) -> (r: bool)
    ensures
        r == exists|j: int| 0 <= j < tasks@.len() && tracks_comment(#[trigger] tasks@[j], identity.identity_key@),
{
    match find_matching_active_watch_task(tasks, identity.identity_key.as_str()) {
        Some(i) => {
            assert(tracks_comment(tasks@[i as int], identity.identity_key@));
            true
        },
        None => false,
    }
}

/// The comments of a batch (by identity key, in order) that get a new task:
/// those no active watch task tracks; with `auto_queue`, tasks created
/// earlier in the batch count too, so a key is taken once.
pub open spec fn planned_new(tasks: Seq<WatchTask>, keys: Seq<String>, auto_queue: bool) -> Seq<int>
    decreases keys.len(),
{
    if keys.len() == 0 {
        Seq::empty()
    } else {
        let prev = planned_new(tasks, keys.drop_last(), auto_queue);
        let k = keys.last()@;
        let known = (exists|i: int| 0 <= i < tasks.len() && tracks_comment(#[trigger] tasks[i], k))
            || (auto_queue && exists|m: int| 0 <= m < prev.len() && #[trigger] keys[prev[m]]@ == k);
        if known {
            prev
        } else {
            prev.push(keys.len() - 1)
        }
    }
}

/// The positions, in a batch of detected comments given by their identity
/// keys, of the comments that become new tasks (or, without `auto_queue`,
/// suggestions); see `planned_new`.
pub fn plan_new_watch_tasks(tasks: &[WatchTask], identity_keys: &[String], auto_queue: bool) -> (r: Vec<usize>)
    ensures
        r@.map_values(|j: usize| j as int) == planned_new(tasks@, identity_keys@, auto_queue),
{
    let mut out: Vec<usize> = Vec::new();
    let mut j: usize = 0;
    assert(identity_keys@.take(0) =~= Seq::<String>::empty());
    while j < identity_keys.len()
        invariant
            j <= identity_keys@.len(),
            out@.map_values(|x: usize| x as int) == planned_new(tasks@, identity_keys@.take(j as int), auto_queue),
            forall|m: int| 0 <= m < out@.len() ==> #[trigger] out@[m] < j,
        decreases identity_keys.len() - j,
    {
        let ghost ks = identity_keys@.take(j + 1);
        assert(ks.drop_last() =~= identity_keys@.take(j as int));
        assert(ks.last() == identity_keys@[j as int]);
        let key = identity_keys[j].as_str();
        let ghost prev = planned_new(tasks@, identity_keys@.take(j as int), auto_queue);
        let ghost in_tasks = exists|i: int| 0 <= i < tasks@.len() && tracks_comment(#[trigger] tasks@[i], key@);
        let ghost in_batch = exists|q: int| 0 <= q < prev.len() && #[trigger] ks[prev[q]]@ == key@;
        let found = find_matching_active_watch_task(tasks, key);
        let mut known = found.is_some();
        proof {
            if let Some(i) = found {
                assert(tracks_comment(tasks@[i as int], key@));
            }
        }
        assert(known == in_tasks);
        if auto_queue && !known {
            let mut m: usize = 0;
            while m < out.len()
                invariant
                    m <= out@.len(),
                    j < identity_keys@.len(),
                    ks == identity_keys@.take(j + 1),
                    prev == out@.map_values(|x: usize| x as int),
                    forall|q: int| 0 <= q < out@.len() ==> #[trigger] out@[q] < j,
                    known == exists|q: int| 0 <= q < m && #[trigger] ks[prev[q]]@ == key@,
                decreases out.len() - m,
            {
                assert(prev[m as int] == out@[m as int] as int);
                assert(ks[prev[m as int]] == identity_keys@[out@[m as int] as int]);
                if str_eq(identity_keys[out[m]].as_str(), key) {
                    known = true;
                }
                m = m + 1;
            }
            assert(known == in_batch);
        }
        assert(planned_new(tasks@, ks, auto_queue) == (if in_tasks || (auto_queue && in_batch) {
            prev
        } else {
            prev.push(j as int)
        }));
        assert(known == (in_tasks || (auto_queue && in_batch)));
        if !known {
            let ghost before = out@;
            out.push(j);
            assert(out@.map_values(|x: usize| x as int) =~= before.map_values(|x: usize| x as int).push(j as int));
        }
        j = j + 1;
    }
    assert(identity_keys@.take(j as int) =~= identity_keys@);
    out
}

/// A task whose comment is gone: an active watch task whose file was
/// processed in this batch and whose identity key no current comment has.
pub open spec fn should_close(t: WatchTask, current_keys: Seq<String>, processed_files: Seq<String>) -> bool {
    active_watch(t) && match v2_identity(t) {
        Some(id) => has_key(processed_files, id.0) && !has_key(current_keys, id.1),
        None => false,
    }
}

/// `n` is `o` marked done at `now` because its comment was removed.
pub open spec fn closed_task(n: WatchTask, o: WatchTask, now: Seq<char>) -> bool {
    &&& n.id == o.id
    &&& n.title == o.title
    &&& n.priority == o.priority
    &&& n.tags == o.tags
    &&& n.scope == o.scope
    &&& n.request == o.request
    &&& n.created_at == o.created_at
    &&& n.custom_fields == o.custom_fields
    &&& n.status == TaskStatus::Done
    &&& opt_str(n.completed_at) == Some(now)
    &&& opt_str(n.updated_at) == Some(now)
    &&& n.notes@.len() == o.notes@.len() + 1
    &&& n.notes@.take(o.notes@.len() as int) == o.notes@
    &&& n.notes@.last()@ == "[watch] Automatically marked done: originating comment was removed at "@ + now
}

/// The ids of the tasks that reconciliation closes, in order.
pub open spec fn closed_ids(tasks: Seq<WatchTask>, current_keys: Seq<String>, processed_files: Seq<String>) -> Seq<Seq<char>>
    decreases tasks.len(),
{
    if tasks.len() == 0 {
        Seq::empty()
    } else if should_close(tasks.last(), current_keys, processed_files) {
        closed_ids(tasks.drop_last(), current_keys, processed_files).push(tasks.last().id@)
    } else {
        closed_ids(tasks.drop_last(), current_keys, processed_files)
    }
}

fn list_has(list: &[String], x: &str) -> (r: bool)
    ensures
        r == has_key(list@, x@),
{
    let mut i: usize = 0;
    while i < list.len()
        invariant
            i <= list@.len(),
            forall|j: int| 0 <= j < i ==> (#[trigger] list@[j])@ != x@,
        decreases list.len() - i,
    {
        if str_eq(list[i].as_str(), x) {
            assert(list@[i as int].key() == x@);
            return true;
        }
        i = i + 1;
    }
    false
}

fn should_close_exec(t: &WatchTask, current_keys: &[String], processed_files: &[String]) -> (r: bool)
    ensures
        r == should_close(*t, current_keys@, processed_files@),
{
    if !is_active_watch_task(&t.tags, t.status) {
        return false;
    }
    match task_v2_identity(t) {
        Some((f, k)) => list_has(processed_files, f.as_str()) && !list_has(current_keys, k.as_str()),
        None => false,
    }
}

/// Closes the watch tasks whose comments were removed: among the tasks of
/// files processed in this batch (`processed_files`, as file keys), each
/// active watch task whose identity key is not among `current_keys` is
/// marked done at `now` with the removal note. Every other task is left as
/// it is. Returns the ids of the closed tasks, in order.
pub fn reconcile_watch_tasks_in_queue(
    tasks: &mut Vec<WatchTask>,
    current_keys: &[String],
    processed_files: &[String],
    now: &str,
) -> (closed: Vec<String>)
    ensures
        final(tasks)@.len() == old(tasks)@.len(),
        forall|i: int| 0 <= i < old(tasks)@.len() ==> if should_close(old(tasks)@[i], current_keys@, processed_files@) {
            closed_task(#[trigger] final(tasks)@[i], old(tasks)@[i], now@)
        } else {
            final(tasks)@[i] == old(tasks)@[i]
        },
        closed@.map_values(|s: String| s@) == closed_ids(old(tasks)@, current_keys@, processed_files@),
{
    let ghost orig = tasks@;
    let mut src: Vec<WatchTask> = Vec::new();
    std::mem::swap(&mut src, tasks);
    let mut closed: Vec<String> = Vec::new();
    let mut i: usize = 0;
    assert(orig.skip(0) =~= orig);
    assert(orig.take(0) =~= Seq::<WatchTask>::empty());
    while src.len() > 0
        invariant
            i <= orig.len(),
            src@ == orig.skip(i as int),
            tasks@.len() == i,
            forall|k: int| 0 <= k < i ==> if should_close(orig[k], current_keys@, processed_files@) {
                closed_task(#[trigger] tasks@[k], orig[k], now@)
            } else {
                tasks@[k] == orig[k]
            },
            closed@.map_values(|s: String| s@) == closed_ids(orig.take(i as int), current_keys@, processed_files@),
        decreases src.len(),
    {
        assert(src@.len() == orig.len() - i);
        let mut t = src.remove(0);
        assert(t == orig[i as int]);
        assert(src@ =~= orig.skip(i + 1));
        let ghost o = t;
        let ghost ts = orig.take(i + 1);
        assert(ts.drop_last() =~= orig.take(i as int));
        assert(ts.last() == o);
        if should_close_exec(&t, current_keys, processed_files) {
            t.status = TaskStatus::Done;
            t.completed_at = Some(String::from_str(now));
            t.updated_at = Some(String::from_str(now));
            let note = removed_comment_note(now);
            t.notes.push(note);
            assert(t.notes@.take(o.notes@.len() as int) =~= o.notes@);
            let ghost before = closed@;
            let id = t.id.clone();
            closed.push(id);
            assert(closed@.map_values(|s: String| s@) =~= before.map_values(|s: String| s@).push(o.id@));
        }
        tasks.push(t);
        i = tasks.len();
    }
    assert(orig.take(i as int) =~= orig);
    closed
}

} // verus!
