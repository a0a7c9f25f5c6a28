//! The CI gate run after an agent's work: reading its output for known
//! failure patterns, and the messages that hold the agent to a green gate.
//!
//! Running the CI gate's command is the caller's work; everything here is a
//! function of the command's captured output.
use crate::config::Resolved;
use crate::text::{
    chars_of, contains_chars, decimal, find_chars, find_from, lowercase_chars, mentions,
    push_decimal, push_str, std_lines, str_lines, string_from_chars, trim, trim_bounds, trimmed,
};
use vstd::prelude::*;

verus! {

/// Outcome of one run of the CI gate command.
#[derive(Debug, Clone)]
pub struct CiGateResult {
    pub success: bool,
    pub exit_code: Option<i32>,
    pub stdout: String,
    pub stderr: String,
}

/// A failure pattern recognised in CI output, with what could be read off it.
#[derive(Debug, Clone)]
pub struct DetectedErrorPattern {
    pub pattern_type: &'static str,
    pub file_path: Option<String>,
    pub line_number: Option<u32>,
    pub invalid_value: Option<String>,
    pub valid_values: Option<String>,
    pub guidance: &'static str,
}

/// The mathematical value of a `DetectedErrorPattern`.
pub struct PatternModel {
    pub kind: Seq<char>,
    pub file_path: Option<Seq<char>>,
    pub line_number: Option<u32>,
    pub invalid_value: Option<Seq<char>>,
    pub valid_values: Option<Seq<char>>,
    pub guidance: Seq<char>,
}

/// The view of an optional string.
pub open spec fn opt_view(o: Option<String>) -> Option<Seq<char>> {
    match o {
        Some(s) => Some(s@),
        None => None,
    }
}

impl View for DetectedErrorPattern {
    type V = PatternModel;

    open spec fn view(&self) -> PatternModel {
        PatternModel {
            kind: self.pattern_type@,
            file_path: opt_view(self.file_path),
            line_number: self.line_number,
            invalid_value: opt_view(self.invalid_value),
            valid_values: opt_view(self.valid_values),
            guidance: self.guidance@,
        }
    }
}

/// The view of an optional pattern.
pub open spec fn opt_pattern(o: Option<DetectedErrorPattern>) -> Option<PatternModel> {
    match o {
        Some(p) => Some(p@),
        None => None,
    }
}

// ---------------------------------------------------------------------------
// Numbers in the output
// ---------------------------------------------------------------------------

pub open spec fn is_digit(c: char) -> bool {
    '0' <= c && c <= '9'
}

/// Value of a run of decimal digits.
pub open spec fn digits_value(d: Seq<char>) -> nat
    decreases d.len(),
{
    if d.len() == 0 {
        0
    } else {
        digits_value(d.drop_last()) * 10 + ((d.last() as int) - ('0' as int)) as nat
    }
}

/// How many decimal digits follow from position `i` on.
pub open spec fn digit_run(s: Seq<char>, i: int) -> nat
    decreases s.len() - i,
{
    if 0 <= i < s.len() && is_digit(s[i]) {
        1 + digit_run(s, i + 1)
    } else {
        0
    }
}

pub proof fn lemma_digit_run_bound(s: Seq<char>, i: int)
    requires
        0 <= i <= s.len(),
    ensures
        i + digit_run(s, i) <= s.len(),
        forall|k: int| i <= k < i + digit_run(s, i) ==> is_digit(#[trigger] s[k]),
    decreases s.len() - i,
{
    if i < s.len() && is_digit(s[i]) {
        lemma_digit_run_bound(s, i + 1);
    }
}

/// The number written at position `j`, if a digit stands there.
pub open spec fn number_at(s: Seq<char>, j: int) -> Option<nat> {
    if digit_run(s, j) > 0 {
        Some(digits_value(s.subrange(j, j + digit_run(s, j))))
    } else {
        None
    }
}

/// A number that fits in `u32`, as `str::parse::<u32>` would give it.
pub open spec fn fit_u32(n: Option<nat>) -> Option<u32> {
    match n {
        Some(v) => if v <= u32::MAX {
            Some(v as u32)
        } else {
            None
        },
        None => None,
    }
}

/// Reads the digits at `i`: how many there are, and their value if it fits in `u32`.
fn scan_number(v: &Vec<char>, i: usize) -> (r: (usize, Option<u32>))
    requires
        i <= v.len(),
    ensures
        r.0 == digit_run(v@, i as int),
        r.1 == fit_u32(
            if r.0 > 0 {
                Some(digits_value(v@.subrange(i as int, i + r.0)))
            } else {
                None
            },
        ),
{
    let mut j = i;
    let mut acc: u64 = 0;
    let mut big = false;
    assert(v@.subrange(i as int, i as int) =~= Seq::<char>::empty());
    while j < v.len() && '0' <= v[j] && v[j] <= '9'
        invariant
            i <= j <= v.len(),
            digit_run(v@, i as int) == (j - i) + digit_run(v@, j as int),
            !big ==> acc == digits_value(v@.subrange(i as int, j as int)) && acc <= u32::MAX,
            big ==> digits_value(v@.subrange(i as int, j as int)) > u32::MAX,
        decreases v.len() - j,
    {
        let c = v[j];
        let ghost d = v@.subrange(i as int, j as int);
        assert(v@.subrange(i as int, j + 1).drop_last() =~= d);
        assert(v@.subrange(i as int, j + 1).last() == c);
        if !big {
            let dig: u64 = ((c as u32) - ('0' as u32)) as u64;
            acc = acc * 10 + dig;
            if acc > 0xffff_ffff {
                big = true;
            }
        }
        j = j + 1;
    }
    let n = j - i;
    if n == 0 {
        (0, None)
    } else if big {
        (n, None)
    } else {
        (n, Some(acc as u32))
    }
}

/// The number after the first `at line `.
pub open spec fn at_line_number(s: Seq<char>) -> Option<nat> {
    match find_from(s, "at line "@, 0) {
        Some(i) => number_at(s, i + "at line "@.len()),
        None => None,
    }
}

/// The number in the first `:<digits>:` at or after `i` (a `file:line:` mark).
pub open spec fn colon_number_from(s: Seq<char>, i: int) -> Option<nat>
    decreases s.len() + 1 - i,
{
    if i < 0 || i >= s.len() {
        None
    } else if s[i] == ':' && digit_run(s, i + 1) > 0 && i + 1 + digit_run(s, i + 1) < s.len()
        && s[i + 1 + digit_run(s, i + 1)] == ':' {
        number_at(s, i + 1)
    } else {
        colon_number_from(s, i + 1)
    }
}

/// The line number an output names: after `at line `, else in a `file:line:` mark.
pub open spec fn spec_line_number(s: Seq<char>) -> Option<u32> {
    fit_u32(
        match at_line_number(s) {
            Some(n) => Some(n),
            None => colon_number_from(s, 0),
        },
    )
}

fn colon_number(v: &Vec<char>) -> (r: Option<u32>)
    ensures
        r == fit_u32(colon_number_from(v@, 0)),
{
    let mut i: usize = 0;
    while i < v.len()
        invariant
            i <= v.len(),
            colon_number_from(v@, 0) == colon_number_from(v@, i as int),
        decreases v.len() - i,
    {
        if v[i] == ':' {
            let (n, val) = scan_number(v, i + 1);
            proof {
                lemma_digit_run_bound(v@, i + 1);
            }
            if n > 0 && i + 1 + n < v.len() && v[i + 1 + n] == ':' {
                return val;
            }
        }
        i = i + 1;
    }
    None
}

/// The line number named in CI output (`at line 44`, or `file.toml:44:18`).
pub fn extract_line_number(output: &str) -> (r: Option<u32>)
    ensures
        r == spec_line_number(output@),
{
    let v = chars_of(output);
    let w = chars_of("at line ");
    match find_chars(&v, &w, 0) {
        Some(i) => {
            proof {
                crate::text::lemma_find_from_bounds(v@, w@, 0);
            }
            let (n, val) = scan_number(&v, i + w.len());
            if n > 0 {
                return val;
            }
            colon_number(&v)
        },
        None => colon_number(&v),
    }
}

// ---------------------------------------------------------------------------
// Values named in the output
// ---------------------------------------------------------------------------

/// The value between the backticks of the first ``unknown variant `…` ``.
pub open spec fn spec_invalid_value(s: Seq<char>) -> Option<Seq<char>> {
    match find_from(s, "unknown variant `"@, 0) {
        Some(i) => {
            let j = i + "unknown variant `"@.len();
            match find_from(s, seq!['`'], j) {
                Some(k) => Some(s.subrange(j, k)),
                None => None,
            }
        },
        None => None,
    }
}

/// The rejected value of an `unknown variant` error.
pub fn extract_invalid_value(output: &str) -> (r: Option<String>)
    ensures
        opt_view(r) == spec_invalid_value(output@),
{
    let v = chars_of(output);
    let w = chars_of("unknown variant `");
    match find_chars(&v, &w, 0) {
        Some(i) => {
            proof {
                crate::text::lemma_find_from_bounds(v@, w@, 0);
            }
            assert(i + w.len() <= v.len());
            let j = i + w.len();
            let tick = vec!['`'];
            assert(tick@ =~= seq!['`']);
            match find_chars(&v, &tick, j) {
                Some(k) => {
                    proof {
                        crate::text::lemma_find_from_bounds(v@, tick@, j as int);
                    }
                    Some(string_from_chars(&v, j, k))
                },
                None => None,
            }
        },
        None => None,
    }
}

/// Where a list that starts at `j` ends: at the first `.` or newline, or the end.
pub open spec fn list_end(s: Seq<char>, j: int) -> int
    decreases s.len() - j,
{
    if 0 <= j < s.len() && s[j] != '.' && s[j] != '\n' {
        list_end(s, j + 1)
    } else {
        j
    }
}

/// The trimmed list after the first `expected one of `, when not empty.
pub open spec fn spec_valid_values(s: Seq<char>) -> Option<Seq<char>> {
    match find_from(s, "expected one of "@, 0) {
        Some(i) => {
            let j = i + "expected one of "@.len();
            let l = trim(s.subrange(j, list_end(s, j)));
            if l.len() > 0 {
                Some(l)
            } else {
                None
            }
        },
        None => None,
    }
}

/// The accepted values listed by an `unknown variant` error.
pub fn extract_valid_values(output: &str) -> (r: Option<String>)
    ensures
        opt_view(r) == spec_valid_values(output@),
{
    let v = chars_of(output);
    let w = chars_of("expected one of ");
    match find_chars(&v, &w, 0) {
        Some(i) => {
            proof {
                crate::text::lemma_find_from_bounds(v@, w@, 0);
            }
            assert(i + w.len() <= v.len());
            let j = i + w.len();
            let mut e = j;
            while e < v.len() && v[e] != '.' && v[e] != '\n'
                invariant
                    j <= e <= v.len(),
                    list_end(v@, j as int) == list_end(v@, e as int),
                decreases v.len() - e,
            {
                e = e + 1;
            }
            let piece = string_from_chars(&v, j, e);
            let pv = chars_of(piece.as_str());
            let (lo, hi) = trim_bounds(&pv);
            if lo < hi {
                Some(string_from_chars(&pv, lo, hi))
            } else {
                None
            }
        },
        None => None,
    }
}

/// Characters that make up a file path in CI output.
pub open spec fn is_path_char(c: char) -> bool {
    ||| ('a' <= c && c <= 'z')
    ||| ('A' <= c && c <= 'Z')
    ||| is_digit(c)
    ||| c == '.'
    ||| c == '_'
    ||| c == '-'
    ||| c == '/'
}

/// Start of the run of path characters that ends at `i`.
pub open spec fn run_start(s: Seq<char>, i: int) -> int
    decreases i,
{
    if 0 < i <= s.len() && is_path_char(s[i - 1]) {
        run_start(s, i - 1)
    } else {
        i
    }
}

/// The file a CI failure is about: the first `*.toml` path named, else
/// `pyproject.toml` when ruff failed to parse its configuration.
pub open spec fn spec_infer_file_path(s: Seq<char>) -> Option<Seq<char>> {
    match find_from(s, ".toml"@, 0) {
        Some(i) => Some(s.subrange(run_start(s, i), i + ".toml"@.len())),
        None => if mentions(s, "ruff"@) && mentions(s, "parse"@) {
            Some("pyproject.toml"@)
        } else {
            None
        },
    }
}

fn exec_is_path_char(c: char) -> (r: bool)
    ensures
        r == is_path_char(c),
{
    ('a' <= c && c <= 'z') || ('A' <= c && c <= 'Z') || ('0' <= c && c <= '9') || c == '.' || c
        == '_' || c == '-' || c == '/'
}

/// Whether the lower-cased output `low` holds `needle`.
fn holds(low: &Vec<char>, needle: &str) -> (r: bool)
    ensures
        r == crate::text::contains_seq(low@, needle@),
{
    let w = chars_of(needle);
    contains_chars(low, &w)
}

/// The file a CI failure points at (see `spec_infer_file_path`).
pub fn infer_file_path(output: &str) -> (r: Option<String>)
    ensures
        opt_view(r) == spec_infer_file_path(output@),
{
    let v = chars_of(output);
    let w = chars_of(".toml");
    match find_chars(&v, &w, 0) {
        Some(i) => {
            proof {
                crate::text::lemma_find_from_bounds(v@, w@, 0);
            }
            let mut st = i;
            while st > 0 && exec_is_path_char(v[st - 1])
                invariant
                    st <= i <= v.len(),
                    run_start(v@, i as int) == run_start(v@, st as int),
                decreases st,
            {
                st = st - 1;
            }
            Some(string_from_chars(&v, st, i + w.len()))
        },
        None => {
            let low = lowercase_chars(&v);
            if holds(&low, "ruff") && holds(&low, "parse") {
                Some("pyproject.toml".to_owned())
            } else {
                None
            }
        },
    }
}

// ---------------------------------------------------------------------------
// Log excerpts
// ---------------------------------------------------------------------------

/// The last `max` characters of `s`, after `...`, when `s` is longer.
pub open spec fn spec_truncate_for_log(s: Seq<char>, max: nat) -> Seq<char> {
    if s.len() <= max {
        s
    } else {
        "..."@ + s.subrange(s.len() - max, s.len() as int)
    }
}

/// Shortens `s` for a log line, keeping its end (where errors are reported).
pub fn truncate_for_log(s: &str, max_chars: usize) -> (r: String)
    ensures
        r@ == spec_truncate_for_log(s@, max_chars as nat),
{
    let v = chars_of(s);
    if v.len() <= max_chars {
        s.to_owned()
    } else {
        let mut out = "...".to_owned();
        let tail = string_from_chars(&v, v.len() - max_chars, v.len());
        crate::text::push_str(&mut out, tail.as_str());
        out
    }
}

// ---------------------------------------------------------------------------
// Failure patterns
// ---------------------------------------------------------------------------

pub const TOML_PARSE_ERROR: &'static str = "TOML parse error";

pub const UNKNOWN_VARIANT_ERROR: &'static str = "Unknown variant error";

pub const RUFF_ERROR: &'static str = "Ruff error";

pub const FORMAT_CHECK_FAILURE: &'static str = "Format check failure";

pub const LINT_CHECK_FAILURE: &'static str = "Lint check failure";

pub const LOCK_CONTENTION: &'static str = "Lock contention";

pub const TOML_GUIDANCE: &'static str = "A TOML file failed to parse. Open it at the reported line, fix the syntax or the rejected value, then rerun the CI gate.";

pub const UNKNOWN_VARIANT_GUIDANCE: &'static str = "A configuration value is not one the tool accepts. Replace it with one of the listed values, then rerun the CI gate.";

pub const RUFF_GUIDANCE: &'static str = "Ruff could not run. Check its configuration in pyproject.toml (for example target-version), then rerun the CI gate.";

pub const FORMAT_GUIDANCE: &'static str = "The formatting check failed. Run the project's formatter, then rerun the CI gate.";

pub const LINT_GUIDANCE: &'static str = "The lint check failed. Fix every reported lint error, then rerun the CI gate.";

pub const LOCK_GUIDANCE: &'static str = "A build is waiting on a file lock held by another process. Let the other build finish (or stop it), then rerun the CI gate.";

/// Everything that can be read off an output, under a given kind and guidance.
pub open spec fn read_pattern(s: Seq<char>, kind: Seq<char>, guidance: Seq<char>) -> PatternModel {
    PatternModel {
        kind,
        file_path: spec_infer_file_path(s),
        line_number: spec_line_number(s),
        invalid_value: spec_invalid_value(s),
        valid_values: spec_valid_values(s),
        guidance,
    }
}

/// A pattern that carries nothing but its kind and guidance.
pub open spec fn bare_pattern(kind: Seq<char>, guidance: Seq<char>) -> PatternModel {
    PatternModel {
        kind,
        file_path: None,
        line_number: None,
        invalid_value: None,
        valid_values: None,
        guidance,
    }
}

pub open spec fn spec_detect_toml(s: Seq<char>) -> Option<PatternModel> {
    if mentions(s, "toml parse error"@) {
        Some(read_pattern(s, TOML_PARSE_ERROR@, TOML_GUIDANCE@))
    } else {
        None
    }
}

pub open spec fn spec_detect_unknown_variant(s: Seq<char>) -> Option<PatternModel> {
    if mentions(s, "unknown variant"@) {
        Some(read_pattern(s, UNKNOWN_VARIANT_ERROR@, UNKNOWN_VARIANT_GUIDANCE@))
    } else {
        None
    }
}

/// A ruff failure that is not a TOML parse error (that one is more specific).
pub open spec fn spec_detect_ruff(s: Seq<char>) -> Option<PatternModel> {
    if mentions(s, "ruff"@) && !mentions(s, "toml parse error"@) {
        Some(
            PatternModel {
                kind: RUFF_ERROR@,
                file_path: Some("pyproject.toml"@),
                line_number: spec_line_number(s),
                invalid_value: spec_invalid_value(s),
                valid_values: spec_valid_values(s),
                guidance: RUFF_GUIDANCE@,
            },
        )
    } else {
        None
    }
}

pub open spec fn spec_detect_format(s: Seq<char>) -> Option<PatternModel> {
    if mentions(s, "format-check failed"@) || mentions(s, "format check failed"@) {
        Some(bare_pattern(FORMAT_CHECK_FAILURE@, FORMAT_GUIDANCE@))
    } else {
        None
    }
}

pub open spec fn spec_detect_lint(s: Seq<char>) -> Option<PatternModel> {
    if mentions(s, "lint-check failed"@) || mentions(s, "lint check failed"@) {
        Some(bare_pattern(LINT_CHECK_FAILURE@, LINT_GUIDANCE@))
    } else {
        None
    }
}

pub open spec fn spec_detect_lock(s: Seq<char>) -> Option<PatternModel> {
    if mentions(s, "waiting for file lock"@) {
        Some(bare_pattern(LOCK_CONTENTION@, LOCK_GUIDANCE@))
    } else {
        None
    }
}

/// The text that pattern detection reads: stderr, a newline, then stdout.
pub open spec fn ci_text(stdout: Seq<char>, stderr: Seq<char>) -> Seq<char> {
    stderr + "\n"@ + stdout
}

/// The first pattern that matches, most specific first.
pub open spec fn spec_detect_ci(stdout: Seq<char>, stderr: Seq<char>) -> Option<PatternModel> {
    let s = ci_text(stdout, stderr);
    if spec_detect_toml(s) is Some {
        spec_detect_toml(s)
    } else if spec_detect_unknown_variant(s) is Some {
        spec_detect_unknown_variant(s)
    } else if spec_detect_ruff(s) is Some {
        spec_detect_ruff(s)
    } else if spec_detect_format(s) is Some {
        spec_detect_format(s)
    } else if spec_detect_lint(s) is Some {
        spec_detect_lint(s)
    } else {
        spec_detect_lock(s)
    }
}

/// The output lower-cased, for the case-blind tests of `mentions`.
fn lowered(output: &str) -> (r: Vec<char>)
    ensures
        r@ == crate::text::lower_seq(output@),
{
    let v = chars_of(output);
    lowercase_chars(&v)
}

fn read_pattern_exec(output: &str, kind: &'static str, guidance: &'static str) -> (r:
    DetectedErrorPattern)
    ensures
        r@ == read_pattern(output@, kind@, guidance@),
{
    DetectedErrorPattern {
        pattern_type: kind,
        file_path: infer_file_path(output),
        line_number: extract_line_number(output),
        invalid_value: extract_invalid_value(output),
        valid_values: extract_valid_values(output),
        guidance,
    }
}

fn bare_pattern_exec(kind: &'static str, guidance: &'static str) -> (r: DetectedErrorPattern)
    ensures
        r@ == bare_pattern(kind@, guidance@),
{
    DetectedErrorPattern {
        pattern_type: kind,
        file_path: None,
        line_number: None,
        invalid_value: None,
        valid_values: None,
        guidance,
    }
}

/// A TOML parse error, with the line, file and values it names.
pub fn detect_toml_parse_error(output: &str) -> (r: Option<DetectedErrorPattern>)
    ensures
        opt_pattern(r) == spec_detect_toml(output@),
{
    let low = lowered(output);
    if holds(&low, "toml parse error") {
        Some(read_pattern_exec(output, TOML_PARSE_ERROR, TOML_GUIDANCE))
    } else {
        None
    }
}

/// An `unknown variant` error, with the rejected and the accepted values.
pub fn detect_unknown_variant_error(output: &str) -> (r: Option<DetectedErrorPattern>)
    ensures
        opt_pattern(r) == spec_detect_unknown_variant(output@),
{
    let low = lowered(output);
    if holds(&low, "unknown variant") {
        Some(read_pattern_exec(output, UNKNOWN_VARIANT_ERROR, UNKNOWN_VARIANT_GUIDANCE))
    } else {
        None
    }
}

/// A ruff failure; it yields to a TOML parse error.
pub fn detect_ruff_error(output: &str) -> (r: Option<DetectedErrorPattern>)
    ensures
        opt_pattern(r) == spec_detect_ruff(output@),
{
    let low = lowered(output);
    if holds(&low, "ruff") && !holds(&low, "toml parse error") {
        Some(
            DetectedErrorPattern {
                pattern_type: RUFF_ERROR,
                file_path: Some("pyproject.toml".to_owned()),
                line_number: extract_line_number(output),
                invalid_value: extract_invalid_value(output),
                valid_values: extract_valid_values(output),
                guidance: RUFF_GUIDANCE,
            },
        )
    } else {
        None
    }
}

/// A failed formatting check.
pub fn detect_format_check_error(output: &str) -> (r: Option<DetectedErrorPattern>)
    ensures
        opt_pattern(r) == spec_detect_format(output@),
{
    let low = lowered(output);
    if holds(&low, "format-check failed") || holds(&low, "format check failed") {
        Some(bare_pattern_exec(FORMAT_CHECK_FAILURE, FORMAT_GUIDANCE))
    } else {
        None
    }
}

/// A failed lint check.
pub fn detect_lint_check_error(output: &str) -> (r: Option<DetectedErrorPattern>)
    ensures
        opt_pattern(r) == spec_detect_lint(output@),
{
    let low = lowered(output);
    if holds(&low, "lint-check failed") || holds(&low, "lint check failed") {
        Some(bare_pattern_exec(LINT_CHECK_FAILURE, LINT_GUIDANCE))
    } else {
        None
    }
}

/// A build blocked on another build's file lock.
pub fn detect_lock_contention_error(output: &str) -> (r: Option<DetectedErrorPattern>)
    ensures
        opt_pattern(r) == spec_detect_lock(output@),
{
    let low = lowered(output);
    if holds(&low, "waiting for file lock") {
        Some(bare_pattern_exec(LOCK_CONTENTION, LOCK_GUIDANCE))
    } else {
        None
    }
}

/// The most specific failure pattern in a CI run's output, if any.
pub fn detect_ci_error_pattern(stdout: &str, stderr: &str) -> (r: Option<DetectedErrorPattern>)
    ensures
        opt_pattern(r) == spec_detect_ci(stdout@, stderr@),
{
    let mut text = stderr.to_owned();
    crate::text::push_str(&mut text, "\n");
    crate::text::push_str(&mut text, stdout);
    let s = text.as_str();
    let toml = detect_toml_parse_error(s);
    if toml.is_some() {
        return toml;
    }
    let variant = detect_unknown_variant_error(s);
    if variant.is_some() {
        return variant;
    }
    let ruff = detect_ruff_error(s);
    if ruff.is_some() {
        return ruff;
    }
    let format = detect_format_check_error(s);
    if format.is_some() {
        return format;
    }
    let lint = detect_lint_check_error(s);
    if lint.is_some() {
        return lint;
    }
    detect_lock_contention_error(s)
}

/// The kind of failure pattern in a CI result, used to notice repeats.
pub fn get_error_pattern_key(result: &CiGateResult) -> (r: Option<String>)
    ensures
        opt_view(r) == match spec_detect_ci(result.stdout@, result.stderr@) {
            Some(p) => Some(p.kind),
            None => None,
        },
{
    match detect_ci_error_pattern(result.stdout.as_str(), result.stderr.as_str()) {
        Some(p) => Some(p.pattern_type.to_owned()),
        None => None,
    }
}

// ---------------------------------------------------------------------------
// Messages
// ---------------------------------------------------------------------------

/// Decimal rendering of an integer, with a leading `-` when negative.
pub open spec fn signed_decimal(n: int) -> Seq<char> {
    if n < 0 {
        "-"@ + decimal((-n) as nat)
    } else {
        decimal(n as nat)
    }
}

/// The exit code reported for a run; `-1` when the process gave none.
pub open spec fn exit_code_value(code: Option<i32>) -> int {
    match code {
        Some(n) => n as int,
        None => -1,
    }
}

fn push_exit_code(s: &mut String, code: Option<i32>)
    ensures
        final(s)@ == old(s)@ + signed_decimal(exit_code_value(code)),
{
    let n: i64 = match code {
        Some(c) => c as i64,
        None => -1,
    };
    if n < 0 {
        push_str(s, "-");
        push_decimal(s, (-n) as u64);
    } else {
        push_decimal(s, n as u64);
    }
}

/// Characters of each stream shown by a `CiFailure`.
pub const CI_FAILURE_OUTPUT_CHARS: usize = 500;

/// A failed CI gate run, as an error value.
#[derive(Debug, Clone)]
pub struct CiFailure {
    pub exit_code: Option<i32>,
    pub stdout: String,
    pub stderr: String,
    pub error_pattern: Option<&'static str>,
}

/// `label` and the last part of `text`, when `text` is not empty.
pub open spec fn stream_section(label: Seq<char>, text: Seq<char>) -> Seq<char> {
    if text.len() > 0 {
        label + spec_truncate_for_log(text, CI_FAILURE_OUTPUT_CHARS as nat)
    } else {
        Seq::empty()
    }
}

/// What a `CiFailure` says of itself.
pub open spec fn ci_failure_text(f: CiFailure) -> Seq<char> {
    "CI failed with exit code "@ + signed_decimal(exit_code_value(f.exit_code)) + match f.error_pattern {
        Some(p) => " ["@ + p@ + "]"@,
        None => Seq::empty(),
    } + stream_section("\n>>> stderr:\n"@, f.stderr@) + stream_section("\n>>> stdout:\n"@, f.stdout@)
}

fn push_stream_section(s: &mut String, label: &str, text: &str)
    ensures
        final(s)@ == old(s)@ + stream_section(label@, text@),
{
    if text.unicode_len() > 0 {
        push_str(s, label);
        let t = truncate_for_log(text, CI_FAILURE_OUTPUT_CHARS);
        push_str(s, t.as_str());
    } else {
        assert(old(s)@ + stream_section(label@, text@) =~= old(s)@);
    }
}

impl CiFailure {
    /// The failure as one message: exit code, pattern, and the end of each stream.
    pub fn to_string(&self) -> (r: String)
        ensures
            r@ == ci_failure_text(*self),
    {
        let mut r = "CI failed with exit code ".to_owned();
        push_exit_code(&mut r, self.exit_code);
        let ghost head = r@;
        match self.error_pattern {
            Some(p) => {
                push_str(&mut r, " [");
                push_str(&mut r, p);
                push_str(&mut r, "]");
            },
            None => {},
        }
        let ghost with_pattern = r@;
        push_stream_section(&mut r, "\n>>> stderr:\n", self.stderr.as_str());
        push_stream_section(&mut r, "\n>>> stdout:\n", self.stdout.as_str());
        assert(r@ =~= ci_failure_text(*self));
        r
    }
}

/// The lines of CI output in the order they are shown: stderr, then stdout.
pub open spec fn ci_lines(stdout: Seq<char>, stderr: Seq<char>) -> Seq<Seq<char>> {
    std_lines(stderr) + std_lines(stdout)
}

/// Lines, each followed by a newline.
pub open spec fn block(ls: Seq<Seq<char>>) -> Seq<char>
    decreases ls.len(),
{
    if ls.len() == 0 {
        Seq::empty()
    } else {
        block(ls.drop_last()) + ls.last() + "\n"@
    }
}

/// The line that stands for lines left out of a snippet.
pub open spec fn omitted_marker(n: nat) -> Seq<char> {
    "... ("@ + decimal(n) + " lines omitted) ...\n"@
}

/// Which lines a truncated snippet shows.
pub open spec fn shown_ranges(total: nat, head: nat, tail: nat) -> Seq<char> {
    if head == 0 {
        decimal((total - tail + 1) as nat) + "-"@ + decimal(total)
    } else if tail == 0 {
        "1-"@ + decimal(head)
    } else {
        "1-"@ + decimal(head) + " and "@ + decimal((total - tail + 1) as nat) + "-"@ + decimal(total)
    }
}

/// CI output as it is quoted to the agent: all of it when it fits in
/// `head + tail` lines, else the first `head` and the last `tail` lines with
/// a count of those left out between them.
pub open spec fn spec_ci_output(stdout: Seq<char>, stderr: Seq<char>, head: nat, tail: nat) -> Seq<char> {
    let ls = ci_lines(stdout, stderr);
    let total = ls.len();
    if total == 0 {
        "No output captured."@
    } else if head + tail == 0 {
        "CI output ("@ + decimal(total) + " lines total; snippet budget is 0 lines; "@ + decimal(total)
            + " lines omitted)."@
    } else if total <= head + tail {
        "CI output ("@ + decimal(total) + " lines):\n```\n"@ + block(ls) + "```"@
    } else {
        truncated_snippet(ls, head, tail)
    }
}

/// A snippet of `ls` that shows its first `head` and last `tail` lines.
pub open spec fn truncated_snippet(ls: Seq<Seq<char>>, head: nat, tail: nat) -> Seq<char> {
    let total = ls.len();
    truncated_header(total, head, tail) + block(ls.take(head as int)) + omitted_marker(
        (total - head - tail) as nat,
    ) + block(ls.skip(total - tail)) + "```"@
}

/// Appends `ls[lo..hi]`, each line followed by a newline.
fn push_block(s: &mut String, ls: &Vec<String>, lo: usize, hi: usize)
    requires
        lo <= hi <= ls.len(),
    ensures
        final(s)@ == old(s)@ + block(ls@.map_values(|x: String| x@).subrange(lo as int, hi as int)),
{
    let ghost m = ls@.map_values(|x: String| x@);
    let mut i = lo;
    assert(m.subrange(lo as int, lo as int) =~= Seq::<Seq<char>>::empty());
    assert(s@ =~= old(s)@ + block(m.subrange(lo as int, lo as int)));
    while i < hi
        invariant
            lo <= i <= hi <= ls.len(),
            m == ls@.map_values(|x: String| x@),
            s@ == old(s)@ + block(m.subrange(lo as int, i as int)),
        decreases hi - i,
    {
        push_str(s, ls[i].as_str());
        push_str(s, "\n");
        assert(m.subrange(lo as int, i + 1).drop_last() =~= m.subrange(lo as int, i as int));
        assert(m.subrange(lo as int, i + 1).last() == ls@[i as int]@);
        assert(s@ =~= old(s)@ + block(m.subrange(lo as int, i + 1)));
        i = i + 1;
    }
}

/// Quotes CI output for a message to the agent (see `spec_ci_output`).
pub fn format_ci_output_for_message(stdout: &str, stderr: &str, head: usize, tail: usize) -> (r:
    String)
    ensures
        r@ == spec_ci_output(stdout@, stderr@, head as nat, tail as nat),
{
    let mut ls = str_lines(stderr);
    let mut more = str_lines(stdout);
    let ghost a = ls@;
    let ghost b = more@;
    ls.append(&mut more);
    let ghost m = ls@.map_values(|x: String| x@);
    assert(m =~= ci_lines(stdout@, stderr@)) by {
        assert(ls@ =~= a + b);
        assert((a + b).map_values(|x: String| x@) =~= a.map_values(|x: String| x@) + b.map_values(|x: String| x@));
    }
    let total = ls.len();
    if total == 0 {
        return "No output captured.".to_owned();
    }
    if head == 0 && tail == 0 {
        let mut r = "CI output (".to_owned();
        push_decimal(&mut r, total as u64);
        push_str(&mut r, " lines total; snippet budget is 0 lines; ");
        push_decimal(&mut r, total as u64);
        push_str(&mut r, " lines omitted).");
        return r;
    }
    if total <= head || total - head <= tail {
        let mut r = "CI output (".to_owned();
        push_decimal(&mut r, total as u64);
        push_str(&mut r, " lines):\n```\n");
        push_block(&mut r, &ls, 0, total);
        assert(m.subrange(0, total as int) =~= m);
        push_str(&mut r, "```");
        return r;
    }
    truncated_output(&ls, head, tail)
}

fn push_shown_ranges(r: &mut String, total: usize, head: usize, tail: usize)
    requires
        0 < head + tail < total,
    ensures
        final(r)@ == old(r)@ + shown_ranges(total as nat, head as nat, tail as nat),
{
    if head == 0 {
        push_decimal(r, (total - tail + 1) as u64);
        push_str(r, "-");
        push_decimal(r, total as u64);
    } else if tail == 0 {
        push_str(r, "1-");
        push_decimal(r, head as u64);
    } else {
        push_str(r, "1-");
        push_decimal(r, head as u64);
        push_str(r, " and ");
        push_decimal(r, (total - tail + 1) as u64);
        push_str(r, "-");
        push_decimal(r, total as u64);
    }
    assert(r@ =~= old(r)@ + shown_ranges(total as nat, head as nat, tail as nat));
}

/// The header of a truncated snippet, up to and including its opening fence.
pub open spec fn truncated_header(total: nat, head: nat, tail: nat) -> Seq<char> {
    "CI output ("@ + decimal(total) + " lines total; showing lines "@ + shown_ranges(total, head, tail)
        + "; "@ + decimal((total - head - tail) as nat) + " lines omitted):\n```\n"@
}

fn push_truncated_header(r: &mut String, total: usize, head: usize, tail: usize)
    requires
        0 < head + tail < total,
    ensures
        final(r)@ == old(r)@ + truncated_header(total as nat, head as nat, tail as nat),
{
    push_str(r, "CI output (");
    push_decimal(r, total as u64);
    push_str(r, " lines total; showing lines ");
    push_shown_ranges(r, total, head, tail);
    push_str(r, "; ");
    push_decimal(r, (total - head - tail) as u64);
    push_str(r, " lines omitted):\n```\n");
    assert(r@ =~= old(r)@ + truncated_header(total as nat, head as nat, tail as nat));
}

fn truncated_output(ls: &Vec<String>, head: usize, tail: usize) -> (r: String)
    requires
        head + tail > 0,
        head + tail < ls.len(),
    ensures
        r@ == truncated_snippet(ls@.map_values(|x: String| x@), head as nat, tail as nat),
{
    let ghost m = ls@.map_values(|x: String| x@);
    let total = ls.len();
    let omitted = total - head - tail;
    let mut r = String::new();
    push_truncated_header(&mut r, total, head, tail);
    let ghost h = r@;
    push_block(&mut r, ls, 0, head);
    assert(m.subrange(0, head as int) =~= m.take(head as int));
    let ghost hb = r@;
    push_str(&mut r, "... (");
    push_decimal(&mut r, omitted as u64);
    push_str(&mut r, " lines omitted) ...\n");
    assert(r@ =~= hb + omitted_marker(omitted as nat));
    let ghost hbm = r@;
    push_block(&mut r, ls, total - tail, total);
    assert(m.subrange((total - tail) as int, total as int) =~= m.skip(total - tail));
    push_str(&mut r, "```");
    assert(h == truncated_header(total as nat, head as nat, tail as nat));
    assert(r@ =~= h + block(m.take(head as int)) + omitted_marker(omitted as nat) + block(
        m.skip(total - tail),
    ) + "```"@);
    r
}

/// `label` then `value` on a line of its own, when there is a value.
pub open spec fn opt_line(label: Seq<char>, value: Option<Seq<char>>) -> Seq<char> {
    match value {
        Some(v) => label + v + "\n"@,
        None => Seq::empty(),
    }
}

/// A detected pattern as it is shown to the agent.
pub open spec fn spec_format_pattern(p: PatternModel) -> Seq<char> {
    "DETECTED ERROR: "@ + p.kind + "\n"@ + opt_line("- **File**: "@, p.file_path) + match p.line_number {
        Some(n) => "- **Line**: "@ + decimal(n as nat) + "\n"@,
        None => Seq::empty(),
    } + match p.invalid_value {
        Some(v) => "- **Invalid value**: `"@ + v + "`\n"@,
        None => Seq::empty(),
    } + opt_line("- **Valid values**: "@, p.valid_values) + "- **Guidance**: "@ + p.guidance
}

fn push_opt_line(s: &mut String, label: &str, value: &Option<String>)
    ensures
        final(s)@ == old(s)@ + opt_line(label@, opt_view(*value)),
{
    match value {
        Some(v) => {
            push_str(s, label);
            push_str(s, v.as_str());
            push_str(s, "\n");
        },
        None => {
            assert(old(s)@ + opt_line(label@, opt_view(*value)) =~= old(s)@);
        },
    }
}

/// The `DETECTED ERROR` section for a pattern.
pub fn format_detected_pattern(pattern: &DetectedErrorPattern) -> (r: String)
    ensures
        r@ == spec_format_pattern(pattern@),
{
    let mut r = "DETECTED ERROR: ".to_owned();
    push_str(&mut r, pattern.pattern_type);
    push_str(&mut r, "\n");
    push_opt_line(&mut r, "- **File**: ", &pattern.file_path);
    let ghost a = r@;
    match pattern.line_number {
        Some(n) => {
            push_str(&mut r, "- **Line**: ");
            push_decimal(&mut r, n as u64);
            push_str(&mut r, "\n");
        },
        None => {},
    }
    let ghost b = r@;
    match &pattern.invalid_value {
        Some(v) => {
            push_str(&mut r, "- **Invalid value**: `");
            push_str(&mut r, v.as_str());
            push_str(&mut r, "`\n");
        },
        None => {},
    }
    push_opt_line(&mut r, "- **Valid values**: ", &pattern.valid_values);
    push_str(&mut r, "- **Guidance**: ");
    push_str(&mut r, pattern.guidance);
    assert(r@ =~= spec_format_pattern(pattern@));
    r
}

/// The words of a command, joined by spaces.
pub open spec fn join_words(ws: Seq<Seq<char>>) -> Seq<char>
    decreases ws.len(),
{
    if ws.len() == 0 {
        Seq::empty()
    } else if ws.len() == 1 {
        ws[0]
    } else {
        join_words(ws.drop_last()) + " "@ + ws.last()
    }
}

/// The configured CI gate command, if one is set.
pub open spec fn gate_argv(r: Resolved) -> Option<Seq<Seq<char>>> {
    match r.ci_gate {
        Some(g) => match g.argv {
            Some(v) => Some(v@.map_values(|x: String| x@)),
            None => None,
        },
        None => None,
    }
}

/// How the CI gate command is shown: its words joined, `make ci` by default.
pub open spec fn spec_ci_gate_label(r: Resolved) -> Seq<char> {
    match gate_argv(r) {
        Some(ws) => join_words(ws),
        None => "make ci"@,
    }
}

/// The CI gate command as one line of text.
pub fn ci_gate_command_label(resolved: &Resolved) -> (r: String)
    ensures
        r@ == spec_ci_gate_label(*resolved),
{
    let argv = match &resolved.ci_gate {
        Some(g) => match &g.argv {
            Some(v) => v,
            None => return "make ci".to_owned(),
        },
        None => return "make ci".to_owned(),
    };
    let ghost m = argv@.map_values(|x: String| x@);
    let mut r = String::new();
    let mut i: usize = 0;
    assert(m.take(0) =~= Seq::<Seq<char>>::empty());
    while i < argv.len()
        invariant
            i <= argv.len(),
            m == argv@.map_values(|x: String| x@),
            r@ == join_words(m.take(i as int)),
        decreases argv.len() - i,
    {
        if i > 0 {
            push_str(&mut r, " ");
        }
        push_str(&mut r, argv[i].as_str());
        assert(m.take(i + 1).drop_last() =~= m.take(i as int));
        if i == 0 {
            assert(r@ =~= join_words(m.take(1)));
        }
        i = i + 1;
    }
    assert(m.take(i as int) =~= m);
    r
}

/// Lines of CI output quoted from the start of a failed run.
pub const CI_OUTPUT_HEAD_LINES: usize = 50;

/// Lines of CI output quoted from the end of a failed run.
pub const CI_OUTPUT_TAIL_LINES: usize = 50;

/// The failure kinds that come up again and again, with what to do about each.
pub const COMMON_PATTERNS: &'static str = "COMMON PATTERNS:\n- TOML parse error: fix the syntax or value at the reported line of the named file (often pyproject.toml).\n- unknown variant `x`, expected one of ...: replace the value with one of the listed ones.\n- format-check failed: run the formatter and keep its changes.\n- lint-check failed: fix every reported lint error.\n- Lock contention (Blocking waiting for file lock): another build holds the lock; wait for it to finish, then rerun.";

/// The detected-pattern section, followed by a blank line, when a pattern is found.
pub open spec fn detected_section(result: CiGateResult) -> Seq<char> {
    match spec_detect_ci(result.stdout@, result.stderr@) {
        Some(p) => spec_format_pattern(p) + "\n\n"@,
        None => Seq::empty(),
    }
}

/// The message that sends the agent back to fix a failed CI gate.
pub open spec fn spec_compliance_message(resolved: Resolved, result: CiGateResult) -> Seq<char> {
    "CI gate ("@ + spec_ci_gate_label(resolved) + "): CI failed with exit code "@ + signed_decimal(
        exit_code_value(result.exit_code),
    ) + ".\n\n"@ + detected_section(result) + spec_ci_output(
        result.stdout@,
        result.stderr@,
        CI_OUTPUT_HEAD_LINES as nat,
        CI_OUTPUT_TAIL_LINES as nat,
    ) + "\n\nFix the errors above before continuing.\n\n"@ + COMMON_PATTERNS@
}

/// The message that holds the agent to a green CI gate after a failed run.
pub fn strict_ci_gate_compliance_message(resolved: &Resolved, result: &CiGateResult) -> (r: String)
    ensures
        r@ == spec_compliance_message(*resolved, *result),
{
    let mut r = "CI gate (".to_owned();
    let label = ci_gate_command_label(resolved);
    push_str(&mut r, label.as_str());
    push_str(&mut r, "): CI failed with exit code ");
    push_exit_code(&mut r, result.exit_code);
    push_str(&mut r, ".\n\n");
    let ghost before_detected = r@;
    match detect_ci_error_pattern(result.stdout.as_str(), result.stderr.as_str()) {
        Some(p) => {
            let section = format_detected_pattern(&p);
            push_str(&mut r, section.as_str());
            push_str(&mut r, "\n\n");
        },
        None => {},
    }
    assert(r@ =~= before_detected + detected_section(*result));
    let output = format_ci_output_for_message(
        result.stdout.as_str(),
        result.stderr.as_str(),
        CI_OUTPUT_HEAD_LINES,
        CI_OUTPUT_TAIL_LINES,
    );
    push_str(&mut r, output.as_str());
    push_str(&mut r, "\n\nFix the errors above before continuing.\n\n");
    push_str(&mut r, COMMON_PATTERNS);
    assert(r@ =~= spec_compliance_message(*resolved, *result));
    r
}

/// The compliance message, followed by what the user told the agent when
/// they stepped in (trimmed; nothing is added when it is blank).
pub open spec fn spec_failure_message_with_user_input(
    resolved: Resolved,
    result: CiGateResult,
    user_message: Seq<char>,
) -> Seq<char> {
    let t = trim(user_message);
    if t.len() == 0 {
        spec_compliance_message(resolved, result)
    } else {
        spec_compliance_message(resolved, result) + "\n\nAgent message from user intervention:\n"@ + t
    }
}

/// The compliance message with the user's own words to the agent appended.
pub fn build_ci_failure_message_with_user_input(
    resolved: &Resolved,
    result: &CiGateResult,
    user_message: &str,
) -> (r: String)
    ensures
        r@ == spec_failure_message_with_user_input(*resolved, *result, user_message@),
{
    let mut r = strict_ci_gate_compliance_message(resolved, result);
    let t = trimmed(user_message);
    if t.as_str().unicode_len() > 0 {
        push_str(&mut r, "\n\nAgent message from user intervention:\n");
        push_str(&mut r, t.as_str());
    }
    r
}

// ---------------------------------------------------------------------------
// Before the CI gate runs
// ---------------------------------------------------------------------------

/// Whether the CI gate runs at all; it does unless switched off.
pub open spec fn spec_ci_gate_enabled(r: Resolved) -> bool {
    match r.ci_gate {
        Some(g) => match g.enabled {
            Some(b) => b,
            None => true,
        },
        None => true,
    }
}

/// The command the CI gate runs: the configured one, else `make ci`.
pub open spec fn spec_gate_command(r: Resolved) -> Seq<Seq<char>> {
    match gate_argv(r) {
        Some(ws) => ws,
        None => seq!["make"@, "ci"@],
    }
}

/// Why a CI gate cannot be run as configured.
#[derive(Debug, Clone, Copy, PartialEq, Eq, Structural)]
pub enum CiGateConfigError {
    /// The repository has not been trusted to run its own commands.
    Untrusted,
    /// The command has no words.
    EmptyArgv,
    /// A word of the command is empty or blank.
    EmptyArgvEntry,
}

impl CiGateConfigError {
    pub fn message(&self) -> (r: &'static str)
        ensures
            r@ == spec_config_error_message(*self),
    {
        match self {
            CiGateConfigError::Untrusted => "CI gate refused: this repository is not trusted to run project commands",
            CiGateConfigError::EmptyArgv => "CI gate argv must not be empty",
            CiGateConfigError::EmptyArgvEntry => "CI gate argv entries must be non-empty",
        }
    }
}

pub open spec fn spec_config_error_message(e: CiGateConfigError) -> Seq<char> {
    match e {
        CiGateConfigError::Untrusted => "CI gate refused: this repository is not trusted to run project commands"@,
        CiGateConfigError::EmptyArgv => "CI gate argv must not be empty"@,
        CiGateConfigError::EmptyArgvEntry => "CI gate argv entries must be non-empty"@,
    }
}

/// What to do about the CI gate before anything runs.
#[derive(Debug, Clone)]
pub enum CiGatePlan {
    /// The CI gate is off: it counts as passed without running.
    Skipped(CiGateResult),
    /// Run this command (program, then arguments).
    Run(Vec<String>),
}

/// The plan for a gate: skipped when off; else refused when the repository is
/// untrusted or a word of the command is blank; else the command to run.
pub open spec fn spec_ci_gate_plan_ok(r: Resolved, trusted: bool) -> bool {
    !spec_ci_gate_enabled(r) || (trusted && spec_gate_command(r).len() > 0 && forall|i: int|
        0 <= i < spec_gate_command(r).len() ==> trim(#[trigger] spec_gate_command(r)[i]).len() > 0)
}

/// Decides whether and how the CI gate runs.
pub fn ci_gate_plan(resolved: &Resolved, project_commands_trusted: bool) -> (r: Result<
    CiGatePlan,
    CiGateConfigError,
>)
    ensures
        r is Ok <==> spec_ci_gate_plan_ok(*resolved, project_commands_trusted),
        r matches Ok(CiGatePlan::Skipped(res)) ==> !spec_ci_gate_enabled(*resolved) && res.success
            && res.exit_code == Some(0i32) && res.stdout@.len() == 0 && res.stderr@.len() == 0,
        r matches Ok(CiGatePlan::Run(argv)) ==> spec_ci_gate_enabled(*resolved) && argv@.map_values(
            |x: String| x@,
        ) == spec_gate_command(*resolved),
        r matches Err(e) ==> spec_ci_gate_enabled(*resolved) && (e == CiGateConfigError::Untrusted
            <==> !project_commands_trusted) && (e == CiGateConfigError::EmptyArgv <==> (
        project_commands_trusted && spec_gate_command(*resolved).len() == 0)),
{
    let enabled = match &resolved.ci_gate {
        Some(g) => match g.enabled {
            Some(b) => b,
            None => true,
        },
        None => true,
    };
    if !enabled {
        return Ok(
            CiGatePlan::Skipped(
                CiGateResult {
                    success: true,
                    exit_code: Some(0),
                    stdout: String::new(),
                    stderr: String::new(),
                },
            ),
        );
    }
    if !project_commands_trusted {
        return Err(CiGateConfigError::Untrusted);
    }
    let mut argv: Vec<String> = Vec::new();
    match &resolved.ci_gate {
        Some(g) => match &g.argv {
            Some(v) => {
                let mut i: usize = 0;
                while i < v.len()
                    invariant
                        i <= v.len(),
                        argv@.map_values(|x: String| x@) == v@.map_values(|x: String| x@).take(
                            i as int,
                        ),
                    decreases v.len() - i,
                {
                    let word = v[i].clone();
                    assert(word@ == v@[i as int]@);
                    let ghost before = argv@;
                    argv.push(word);
                    assert(argv@ == before.push(word));
                    assert(before.push(word).map_values(|x: String| x@) =~= before.map_values(
                        |x: String| x@,
                    ).push(word@));
                    assert(argv@.map_values(|x: String| x@) =~= v@.map_values(|x: String| x@).take(
                        i + 1,
                    ));
                    i = i + 1;
                }
                assert(v@.map_values(|x: String| x@).take(i as int) =~= v@.map_values(
                    |x: String| x@,
                ));
            },
            None => {
                argv.push("make".to_owned());
                argv.push("ci".to_owned());
            },
        },
        None => {
            argv.push("make".to_owned());
            argv.push("ci".to_owned());
        },
    }
    assert(argv@.map_values(|x: String| x@) =~= spec_gate_command(*resolved));
    if argv.len() == 0 {
        return Err(CiGateConfigError::EmptyArgv);
    }
    let mut j: usize = 0;
    while j < argv.len()
        invariant
            j <= argv.len(),
            argv.len() > 0,
            spec_ci_gate_enabled(*resolved),
            project_commands_trusted,
            argv@.map_values(|x: String| x@) == spec_gate_command(*resolved),
            forall|k: int| 0 <= k < j ==> trim(#[trigger] spec_gate_command(*resolved)[k]).len() > 0,
        decreases argv.len() - j,
    {
        let t = trimmed(argv[j].as_str());
        assert(argv@[j as int]@ == spec_gate_command(*resolved)[j as int]);
        if t.as_str().unicode_len() == 0 {
            assert(trim(spec_gate_command(*resolved)[j as int]).len() == 0);
            return Err(CiGateConfigError::EmptyArgvEntry);
        }
        j = j + 1;
    }
    Ok(CiGatePlan::Run(argv))
}

// ---------------------------------------------------------------------------
// After the CI gate ran: retry, escalate or give up
// ---------------------------------------------------------------------------

/// Automatic resumes of the agent after a failed CI gate.
pub const CI_GATE_AUTO_RETRY_LIMIT: u32 = 2;

/// Failures in a row with one and the same pattern that stop automatic retries.
pub const CI_FAILURE_ESCALATION_THRESHOLD: u32 = 3;

/// What the supervisor remembers of CI gate runs within one agent session.
#[derive(Debug, Clone)]
pub struct CiRetryState {
    /// Automatic resumes spent so far.
    pub ci_failure_retry_count: u32,
    /// The pattern of the last failure, if it had a recognised one.
    pub last_ci_error_pattern: Option<String>,
    /// How many failures in a row had that pattern.
    pub consecutive_same_error_count: u32,
}

/// The mathematical value of a `CiRetryState`.
pub struct RetryModel {
    pub retries: nat,
    pub last: Option<Seq<char>>,
    pub same: nat,
}

impl View for CiRetryState {
    type V = RetryModel;

    open spec fn view(&self) -> RetryModel {
        RetryModel {
            retries: self.ci_failure_retry_count as nat,
            last: opt_view(self.last_ci_error_pattern),
            same: self.consecutive_same_error_count as nat,
        }
    }
}

/// What the supervisor does after a CI gate run.
#[derive(Debug, Clone)]
pub enum CiGateAction {
    /// The CI gate passed: the phase goes on.
    Passed,
    /// Resume the agent's session with this message and run the CI gate again.
    Resume(String),
    /// The same failure keeps coming back: stop and hand over to the user.
    Escalate(String),
    /// Automatic resumes are spent: report the failure.
    Exhausted(CiFailure),
}

/// The pattern tracking after a run: a pass or an unrecognised failure clears
/// it; a recognised failure counts one more when it repeats the last pattern,
/// else starts a new count of one.
pub open spec fn next_tracking(m: RetryModel, success: bool, key: Option<Seq<char>>) -> RetryModel {
    if success {
        RetryModel { retries: m.retries, last: None, same: 0 }
    } else {
        match key {
            Some(k) => if m.last == Some(k) {
                RetryModel { retries: m.retries, last: Some(k), same: m.same + 1 }
            } else {
                RetryModel { retries: m.retries, last: Some(k), same: 1 }
            },
            None => RetryModel { retries: m.retries, last: None, same: 0 },
        }
    }
}

/// The kind of action a run leads to, as a number: 0 passed, 1 resume,
/// 2 escalate, 3 exhausted.
pub open spec fn spec_action_kind(m: RetryModel, success: bool, key: Option<Seq<char>>) -> int {
    let t = next_tracking(m, success, key);
    if success {
        0
    } else if t.same >= CI_FAILURE_ESCALATION_THRESHOLD {
        2
    } else if m.retries < CI_GATE_AUTO_RETRY_LIMIT {
        1
    } else {
        3
    }
}

/// The state after a run: the tracking above, and one more retry spent when
/// the agent is resumed.
pub open spec fn spec_next_state(m: RetryModel, success: bool, key: Option<Seq<char>>) -> RetryModel {
    let t = next_tracking(m, success, key);
    if spec_action_kind(m, success, key) == 1 {
        RetryModel { retries: t.retries + 1, last: t.last, same: t.same }
    } else {
        t
    }
}

/// The message that stops automatic retries on a repeated failure.
pub open spec fn spec_escalation_message(key: Seq<char>, same: nat) -> Seq<char> {
    "MANUAL INTERVENTION REQUIRED: the CI gate failed "@ + decimal(same)
        + " times in a row with the same error ("@ + key
        + "). Automatic retries have stopped; fix the cause, then run the CI gate again."@
}

pub open spec fn action_kind(a: CiGateAction) -> int {
    match a {
        CiGateAction::Passed => 0,
        CiGateAction::Resume(_) => 1,
        CiGateAction::Escalate(_) => 2,
        CiGateAction::Exhausted(_) => 3,
    }
}

/// The key that a CI result is tracked under.
pub open spec fn spec_result_key(result: CiGateResult) -> Option<Seq<char>> {
    match spec_detect_ci(result.stdout@, result.stderr@) {
        Some(p) => Some(p.kind),
        None => None,
    }
}

/// Decides what follows a CI gate run and updates the session's tracking.
pub fn ci_gate_step(state: &mut CiRetryState, resolved: &Resolved, result: &CiGateResult) -> (a:
    CiGateAction)
    requires
        old(state).ci_failure_retry_count < u32::MAX,
        old(state).consecutive_same_error_count < u32::MAX,
    ensures
        final(state)@ == spec_next_state(old(state)@, result.success, spec_result_key(*result)),
        action_kind(a) == spec_action_kind(old(state)@, result.success, spec_result_key(*result)),
        a matches CiGateAction::Resume(msg) ==> msg@ == spec_compliance_message(*resolved, *result),
        a matches CiGateAction::Escalate(msg) ==> spec_result_key(*result) matches Some(k)
            && msg@ == spec_escalation_message(k, final(state)@.same),
        a matches CiGateAction::Exhausted(f) ==> f.exit_code == result.exit_code && f.stdout@
            == result.stdout@ && f.stderr@ == result.stderr@ && match f.error_pattern {
            Some(p) => spec_result_key(*result) == Some(p@),
            None => spec_result_key(*result) is None,
        },
{
    if result.success {
        state.last_ci_error_pattern = None;
        state.consecutive_same_error_count = 0;
        return CiGateAction::Passed;
    }
    let pattern = detect_ci_error_pattern(result.stdout.as_str(), result.stderr.as_str());
    let kind: Option<&'static str> = match &pattern {
        Some(p) => Some(p.pattern_type),
        None => None,
    };
    match kind {
        Some(k) => {
            let same = match &state.last_ci_error_pattern {
                Some(last) => crate::text::str_eq(last.as_str(), k),
                None => false,
            };
            if same {
                state.consecutive_same_error_count = state.consecutive_same_error_count + 1;
            } else {
                state.last_ci_error_pattern = Some(k.to_owned());
                state.consecutive_same_error_count = 1;
            }
            if state.consecutive_same_error_count >= CI_FAILURE_ESCALATION_THRESHOLD {
                let mut msg = "MANUAL INTERVENTION REQUIRED: the CI gate failed ".to_owned();
                push_decimal(&mut msg, state.consecutive_same_error_count as u64);
                push_str(&mut msg, " times in a row with the same error (");
                push_str(&mut msg, k);
                push_str(
                    &mut msg,
                    "). Automatic retries have stopped; fix the cause, then run the CI gate again.",
                );
                return CiGateAction::Escalate(msg);
            }
        },
        None => {
            state.last_ci_error_pattern = None;
            state.consecutive_same_error_count = 0;
        },
    }
    if state.ci_failure_retry_count < CI_GATE_AUTO_RETRY_LIMIT {
        state.ci_failure_retry_count = state.ci_failure_retry_count + 1;
        CiGateAction::Resume(strict_ci_gate_compliance_message(resolved, result))
    } else {
        CiGateAction::Exhausted(
            CiFailure {
                exit_code: result.exit_code,
                stdout: result.stdout.clone(),
                stderr: result.stderr.clone(),
                error_pattern: kind,
            },
        )
    }
}

} // verus!
