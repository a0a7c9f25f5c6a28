//! Marker comments (TODO, FIXME, HACK, XXX): the detection pattern, how a
//! line is classified, and the one-line context recorded for a comment.
use vstd::prelude::*;
use crate::text::{chars_of, contains_chars, contains_seq, push_str, push_decimal, decimal, string_from_chars, trim, trimmed, std_lines, str_lines};
use crate::pathname::{file_name_or, path_file_name};
use crate::watch::types::{CommentType, DetectedComment};

verus! {

/// Full Unicode upper-casing of a string, as `str::to_uppercase` does it.
pub uninterp spec fn unicode_uppercase(s: Seq<char>) -> Seq<char>;

/// `str::to_uppercase` (std). Claimed: the result is the named function of
/// the text.
#[verifier::external_body]
fn to_uppercase(s: &str) -> (r: String)
    ensures
        r@ == unicode_uppercase(s@),
{
    s.to_uppercase()
}

/// The type of an upper-cased line: the first marker found, in the order
/// TODO, FIXME, HACK, XXX; `All` when the line has none.
pub open spec fn comment_type_of_upper(u: Seq<char>) -> CommentType {
    if contains_seq(u, "TODO"@) {
        CommentType::Todo
    } else if contains_seq(u, "FIXME"@) {
        CommentType::Fixme
    } else if contains_seq(u, "HACK"@) {
        CommentType::Hack
    } else if contains_seq(u, "XXX"@) {
        CommentType::Xxx
    } else {
        CommentType::All
    }
}

/// Determines the comment type of a line, case-insensitively; a line that
/// holds several markers takes the first in the order TODO, FIXME, HACK, XXX.
pub fn determine_comment_type(line: &str) -> (r: CommentType)
    ensures
        r == comment_type_of_upper(unicode_uppercase(line@)),
{
    let upper = to_uppercase(line);
    let u = chars_of(upper.as_str());
    if contains_chars(&u, &chars_of("TODO")) {
        CommentType::Todo
    } else if contains_chars(&u, &chars_of("FIXME")) {
        CommentType::Fixme
    } else if contains_chars(&u, &chars_of("HACK")) {
        CommentType::Hack
    } else if contains_chars(&u, &chars_of("XXX")) {
        CommentType::Xxx
    } else {
        CommentType::All
    }
}

/// At most the first `n` characters of `s`.
pub open spec fn take_at_most(s: Seq<char>, n: nat) -> Seq<char> {
    if s.len() <= n {
        s
    } else {
        s.take(n as int)
    }
}

/// `file:line - content`, where `file` is the file name of the path
/// ("unknown" when it has none) and `content` is cut to 100 characters.
pub open spec fn context_text(content: Seq<char>, line_number: nat, file_path: Seq<char>) -> Seq<char> {
    file_name_or(file_path, "unknown"@) + ":"@ + decimal(line_number) + " - "@
        + take_at_most(content, 100)
}

/// The context recorded for a comment.
pub fn extract_context(content: &str, line_number: usize, file_path: &str) -> (r: String)
    ensures
        r@ == context_text(content@, line_number as nat, file_path@),
{
    let mut r = match path_file_name(file_path) {
        Some(n) => n,
        None => String::from_str("unknown"),
    };
    push_str(&mut r, ":");
    push_decimal(&mut r, line_number as u64);
    push_str(&mut r, " - ");
    let v = chars_of(content);
    let n: usize = if v.len() <= 100 {
        v.len()
    } else {
        100
    };
    let cut = string_from_chars(&v, 0, n);
    assert(cut@ == take_at_most(content@, 100));
    push_str(&mut r, cut.as_str());
    r
}

/// The pattern of one marker: the word, optional separator, then the text.
pub open spec fn marker_pattern(t: CommentType) -> Seq<char> {
    match t {
        CommentType::Todo => "TODO\\s*[:;-]?\\s*(.+)$"@,
        CommentType::Fixme => "FIXME\\s*[:;-]?\\s*(.+)$"@,
        CommentType::Hack => "HACK\\s*[:;-]?\\s*(.+)$"@,
        CommentType::Xxx => "XXX\\s*[:;-]?\\s*(.+)$"@,
        CommentType::All => "(?:TODO|FIXME|HACK|XXX)\\s*[:;-]?\\s*(.+)$"@,
    }
}

/// Whether the marker `t` is asked for: by name or through `All`.
pub open spec fn wants(types: Seq<CommentType>, t: CommentType) -> bool {
    types.contains(CommentType::All) || types.contains(t)
}

/// The alternatives of the detection pattern, in the order TODO, FIXME,
/// HACK, XXX; the all-markers pattern when no type is given.
pub open spec fn pattern_parts(types: Seq<CommentType>) -> Seq<Seq<char>> {
    let parts = (if wants(types, CommentType::Todo) { seq![marker_pattern(CommentType::Todo)] } else { Seq::empty() })
        + (if wants(types, CommentType::Fixme) { seq![marker_pattern(CommentType::Fixme)] } else { Seq::empty() })
        + (if wants(types, CommentType::Hack) { seq![marker_pattern(CommentType::Hack)] } else { Seq::empty() })
        + (if wants(types, CommentType::Xxx) { seq![marker_pattern(CommentType::Xxx)] } else { Seq::empty() });
    if parts.len() == 0 {
        seq![marker_pattern(CommentType::All)]
    } else {
        parts
    }
}

/// The parts joined with `|`.
pub open spec fn join_bar(parts: Seq<Seq<char>>) -> Seq<char>
    decreases parts.len(),
{
    if parts.len() == 0 {
        Seq::empty()
    } else if parts.len() == 1 {
        parts[0]
    } else {
        join_bar(parts.drop_last()) + "|"@ + parts.last()
    }
}

/// The case-insensitive detection pattern for the given comment types.
pub open spec fn comment_pattern_text(types: Seq<CommentType>) -> Seq<char> {
    "(?i)("@ + join_bar(pattern_parts(types)) + ")"@
}

fn has_type(types: &[CommentType], t: CommentType) -> (r: bool)
    ensures
        r == types@.contains(t),
{
    let mut i: usize = 0;
    while i < types.len()
        invariant
            i <= types@.len(),
            forall|j: int| 0 <= j < i ==> types@[j] != t,
        decreases types.len() - i,
    {
        if types[i] == t {
            assert(types@[i as int] == t);
            return true;
        }
        i = i + 1;
    }
    false
}

fn marker_pattern_str(t: CommentType) -> (r: &'static str)
    ensures
        r@ == marker_pattern(t),
{
    match t {
        CommentType::Todo => "TODO\\s*[:;-]?\\s*(.+)$",
        CommentType::Fixme => "FIXME\\s*[:;-]?\\s*(.+)$",
        CommentType::Hack => "HACK\\s*[:;-]?\\s*(.+)$",
        CommentType::Xxx => "XXX\\s*[:;-]?\\s*(.+)$",
        CommentType::All => "(?:TODO|FIXME|HACK|XXX)\\s*[:;-]?\\s*(.+)$",
    }
}

/// The detection pattern text for the given comment types.
pub fn comment_pattern(types: &[CommentType]) -> (r: String)
    ensures
        r@ == comment_pattern_text(types@),
{
    let has_all = has_type(types, CommentType::All);
    let mut parts: Vec<CommentType> = Vec::new();
    if has_all || has_type(types, CommentType::Todo) {
        parts.push(CommentType::Todo);
    }
    if has_all || has_type(types, CommentType::Fixme) {
        parts.push(CommentType::Fixme);
    }
    if has_all || has_type(types, CommentType::Hack) {
        parts.push(CommentType::Hack);
    }
    if has_all || has_type(types, CommentType::Xxx) {
        parts.push(CommentType::Xxx);
    }
    if parts.len() == 0 {
        parts.push(CommentType::All);
    }
    let ghost want = pattern_parts(types@);
    assert(parts@.map_values(|t: CommentType| marker_pattern(t)) =~= want);
    let mut r = String::from_str("(?i)(");
    let ghost start = r@;
    let mut i: usize = 0;
    while i < parts.len()
        invariant
            i <= parts@.len(),
            parts@.len() >= 1,
            want == parts@.map_values(|t: CommentType| marker_pattern(t)),
            start == "(?i)("@,
            r@ == start + join_bar(want.take(i as int)),
        decreases parts.len() - i,
    {
        if i > 0 {
            push_str(&mut r, "|");
        }
        push_str(&mut r, marker_pattern_str(parts[i]));
        proof {
            let w = want.take(i + 1);
            assert(w.drop_last() =~= want.take(i as int));
            assert(w.last() == marker_pattern(parts@[i as int]));
            if i == 0 {
                assert(want.take(0) =~= Seq::<Seq<char>>::empty());
                assert(w.len() == 1);
            }
        }
        i = i + 1;
    }
    assert(want.take(i as int) =~= want);
    push_str(&mut r, ")");
    r
}

#[verifier::external_type_specification]
#[verifier::external_body]
pub struct ExRegex(regex::Regex);

#[verifier::external_type_specification]
#[verifier::external_body]
pub struct ExRegexError(regex::Error);

/// Whether `regex` compiles the pattern text on a target with
/// `pointer_bits`-bit pointers (its size limit counts pointer-sized states).
pub uninterp spec fn regex_compiles(pattern: Seq<char>, pointer_bits: u32) -> bool;

/// The text of capture group `group` when the regex compiled from `pattern`
/// is run on `line` (`None` when the line does not match or the group took
/// no part).
pub uninterp spec fn regex_group(pattern: Seq<char>, line: Seq<char>, group: usize) -> Option<Seq<char>>;

/// `regex::Regex::new` (regex crate). `pointer_bits` is the target's pointer
/// width, which the compiler's size limit depends on. Claimed: whether
/// compilation succeeds is the named function of the pattern text and that
/// width; nothing is claimed of the compiled value, which is opaque here.
#[verifier::external_body]
fn regex_new(pattern: &str, pointer_bits: u32) -> (r: Result<regex::Regex, regex::Error>)
    requires
        pointer_bits == usize::BITS,
    ensures
        r is Ok <==> regex_compiles(pattern@, pointer_bits),
{
    regex::Regex::new(pattern)
}

/// The comment-detection regex together with the pattern it was compiled
/// from. Its fields are private: `build_comment_regex` is the only place one
/// is made, so `regex` is always `Regex::new(pattern)`.
#[derive(Debug)]
pub struct CommentRegex {
    pattern: String,
    regex: regex::Regex,
}

impl View for CommentRegex {
    type V = Seq<char>;

    /// A comment regex is known by the pattern it was compiled from.
    closed spec fn view(&self) -> Seq<char> {
        self.pattern@
    }
}

impl CommentRegex {
    /// The compiled regex.
    pub fn as_regex(&self) -> &regex::Regex {
        &self.regex
    }
}

/// Compiles the detection pattern for the given comment types
/// (`comment_pattern`); an empty list means every type.
pub fn build_comment_regex(comment_types: &[CommentType]) -> (r: Result<CommentRegex, String>)
    ensures
        r is Ok <==> regex_compiles(comment_pattern_text(comment_types@), usize::BITS),
        r matches Ok(re) ==> re@ == comment_pattern_text(comment_types@),
        r matches Err(m) ==> m@ == "Failed to compile comment detection regex"@,
{
    let pattern = comment_pattern(comment_types);
    match regex_new(pattern.as_str(), usize::BITS) {
        Ok(regex) => {
            let re = CommentRegex { pattern, regex };
            assert(re@ == pattern@);
            Ok(re)
        },
        Err(_) => Err(String::from_str("Failed to compile comment detection regex")),
    }
}

/// `regex::Regex::captures(line)`, then the text of capture group `group`
/// (`Captures::get`, `Match::as_str`). Claimed: the result is the named
/// function of the regex's pattern, the line and the group (the regex being
/// `Regex::new` of that pattern, see `CommentRegex`), and a group's text is a
/// piece of the line, as the regex crate documents for `Match::as_str`.
#[verifier::external_body]
fn capture_group(re: &CommentRegex, line: &str, group: usize) -> (r: Option<String>)
    ensures
        match r {
            Some(g) => regex_group(re@, line@, group) == Some(g@),
            None => regex_group(re@, line@, group) is None,
        },
        r matches Some(g) ==> contains_seq(line@, g@),
{
    match re.regex.captures(line) {
        Some(caps) => match caps.get(group) {
            Some(m) => Some(m.as_str().to_string()),
            None => None,
        },
        None => None,
    }
}

/// The text the pattern captures on a line: the first of groups `group` to
/// 4 that took part, trimmed; empty when none did.
pub open spec fn captured_from(pattern: Seq<char>, line: Seq<char>, group: usize) -> Seq<char>
    decreases 5 - group,
{
    if group == 0 || group > 4 {
        Seq::empty()
    } else {
        match regex_group(pattern, line, group) {
            Some(g) => trim(g),
            None => captured_from(pattern, line, (group + 1) as usize),
        }
    }
}

/// The text the pattern captured on a line: the first of groups 1 to 4
/// that took part, trimmed (empty when none did).
fn captured_text(re: &CommentRegex, line: &str) -> (r: String)
    ensures
        r@ == captured_from(re@, line@, 1),
        r@.len() > 0 ==> exists|g: Seq<char>| contains_seq(line@, g) && r@ == trim(g),
{
    let mut group: usize = 1;
    while group <= 4
        invariant
            1 <= group <= 5,
            captured_from(re@, line@, 1) == captured_from(re@, line@, group),
        decreases 5 - group,
    {
        if let Some(g) = capture_group(re, line, group) {
            return trimmed(g.as_str());
        }
        group = group + 1;
    }
    String::new()
}

/// The positions (from 0) of the lines on which the pattern captures text,
/// in order.
pub open spec fn hit_lines(lines: Seq<Seq<char>>, pattern: Seq<char>) -> Seq<int>
    decreases lines.len(),
{
    if lines.len() == 0 {
        Seq::empty()
    } else if captured_from(pattern, lines.last(), 1).len() > 0 {
        hit_lines(lines.drop_last(), pattern).push(lines.len() - 1)
    } else {
        hit_lines(lines.drop_last(), pattern)
    }
}

/// `c` is the comment reported for line `i` (from 0) of `lines`.
pub open spec fn reports_hit(
    c: DetectedComment,
    lines: Seq<Seq<char>>,
    pattern: Seq<char>,
    file_path: Seq<char>,
    i: int,
) -> bool {
    &&& c.line_number == i + 1
    &&& c.file_path@ == file_path
    &&& c.content@ == captured_from(pattern, lines[i], 1)
    &&& c.comment_type == comment_type_of_upper(unicode_uppercase(lines[i]))
    &&& c.context@ == context_text(c.content@, (i + 1) as nat, file_path)
}

/// `c` is a well-formed report of a comment on one of `lines`, in `file_path`.
pub open spec fn reports_line(c: DetectedComment, lines: Seq<Seq<char>>, file_path: Seq<char>) -> bool {
    let n = c.line_number as int;
    &&& 1 <= n <= lines.len()
    &&& c.file_path@ == file_path
    &&& c.content@.len() > 0
    &&& exists|g: Seq<char>| contains_seq(lines[n - 1], g) && c.content@ == trim(g)
    &&& c.comment_type == comment_type_of_upper(unicode_uppercase(lines[n - 1]))
    &&& c.context@ == context_text(c.content@, n as nat, file_path)
}

/// Detects marker comments in a file's text: for each line (numbered from
/// 1) on which the pattern captures non-empty text, one comment with that
/// text trimmed, the line's type (`determine_comment_type`) and its context
/// (`extract_context`), in line order.
pub fn detect_comments(content: &str, file_path: &str, regex: &CommentRegex) -> (r: Vec<DetectedComment>)
    ensures
        r@.len() == hit_lines(std_lines(content@), regex@).len(),
        forall|k: int| 0 <= k < r@.len() ==> reports_hit(#[trigger] r@[k], std_lines(content@), regex@, file_path@, hit_lines(std_lines(content@), regex@)[k]),
        forall|k: int| 0 <= k < r@.len() ==> reports_line(#[trigger] r@[k], std_lines(content@), file_path@),
        forall|k: int, m: int| 0 <= k < m < r@.len() ==> r@[k].line_number < r@[m].line_number,
{
    let lines = str_lines(content);
    let ghost ls = std_lines(content@);
    let mut out: Vec<DetectedComment> = Vec::new();
    let mut i: usize = 0;
    while i < lines.len()
        invariant
            i <= lines@.len(),
            lines@.map_values(|x: String| x@) == ls,
            out@.len() == hit_lines(ls.take(i as int), regex@).len(),
            forall|k: int| 0 <= k < out@.len() ==> 0 <= #[trigger] hit_lines(ls.take(i as int), regex@)[k] < i,
            forall|k: int| 0 <= k < out@.len() ==> reports_hit(#[trigger] out@[k], ls, regex@, file_path@, hit_lines(ls.take(i as int), regex@)[k]),
            forall|k: int| 0 <= k < out@.len() ==> reports_line(#[trigger] out@[k], ls, file_path@),
            forall|k: int| 0 <= k < out@.len() ==> (#[trigger] out@[k]).line_number <= i,
            forall|k: int, m: int| 0 <= k < m < out@.len() ==> out@[k].line_number < out@[m].line_number,
        decreases lines.len() - i,
    {
        let line = lines[i].as_str();
        assert(line@ == ls[i as int]);
        let ghost prev = hit_lines(ls.take(i as int), regex@);
        assert(ls.take(i + 1).drop_last() =~= ls.take(i as int));
        assert(ls.take(i + 1).last() == ls[i as int]);
        let text = captured_text(regex, line);
        if text.as_str().unicode_len() > 0 {
            let comment_type = determine_comment_type(line);
            let context = extract_context(text.as_str(), i + 1, file_path);
            let c = DetectedComment {
                file_path: String::from_str(file_path),
                line_number: i + 1,
                comment_type,
                content: text,
                context,
            };
            assert(reports_line(c, ls, file_path@));
            assert(hit_lines(ls.take(i + 1), regex@) == prev.push(i as int));
            out.push(c);
        } else {
            assert(hit_lines(ls.take(i + 1), regex@) == prev);
        }
        i = i + 1;
    }
    assert(ls.take(i as int) =~= ls);
    out
}

} // verus!
