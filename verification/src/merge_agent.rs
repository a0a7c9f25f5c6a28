//! The merge-agent command: validates `--task` / `--pr`, builds the JSON
//! result payload and picks the process exit code (0 success, 1 runtime
//! failure, 2 validation failure, 3 and up domain failures).
//!
//! Printing the payload (stdout) and the diagnostic line (stderr) is left to
//! the caller; everything here is computed from the arguments.
use vstd::prelude::*;
use crate::text::{trim, trimmed, push_str, push_decimal, decimal, chars_of};

verus! {

/// Result payload emitted on stdout.
#[derive(Debug, Clone)]
pub struct MergeAgentResult {
    /// Task ID that was finalized.
    pub task_id: String,
    /// PR number that was merged.
    pub pr_number: u32,
    /// Whether the merge was successful.
    pub merged: bool,
    /// Optional message (success details or error description).
    pub message: Option<String>,
}

/// Error classification for exit code determination.
#[derive(Debug, Clone)]
pub enum MergeAgentError {
    /// Validation failure (exit code 2).
    Validation(String),
    /// Runtime failure (exit code 1).
    Runtime(String),
    /// Domain-specific failure (exit code >= 3).
    Domain { code: u8, message: String },
}

/// The exit code of an error: 2, 1, or the domain code raised to at least 3.
pub open spec fn error_exit_code(e: MergeAgentError) -> int {
    match e {
        MergeAgentError::Validation(_) => 2,
        MergeAgentError::Runtime(_) => 1,
        MergeAgentError::Domain { code, .. } => if code < 3 {
            3
        } else {
            code as int
        },
    }
}

/// The text carried by an error.
pub open spec fn error_message(e: MergeAgentError) -> Seq<char> {
    match e {
        MergeAgentError::Validation(m) => m@,
        MergeAgentError::Runtime(m) => m@,
        MergeAgentError::Domain { message, .. } => message@,
    }
}

impl MergeAgentError {
    pub fn exit_code(&self) -> (r: i32)
        ensures
            r == error_exit_code(*self),
    {
        match self {
            MergeAgentError::Validation(_) => 2,
            MergeAgentError::Runtime(_) => 1,
            MergeAgentError::Domain { code, .. } => {
                if *code < 3 {
                    3
                } else {
                    *code as i32
                }
            },
        }
    }

    pub fn message(&self) -> (r: &str)
        ensures
            r@ == error_message(*self),
    {
        match self {
            MergeAgentError::Validation(msg) => msg.as_str(),
            MergeAgentError::Runtime(msg) => msg.as_str(),
            MergeAgentError::Domain { message, .. } => message.as_str(),
        }
    }
}

/// Whether `char::is_alphanumeric` holds of `c` (Unicode `Alphabetic` or
/// `Numeric`).
pub uninterp spec fn unicode_alphanumeric(c: char) -> bool;

/// ASCII letters and digits.
pub open spec fn ascii_alphanumeric(c: char) -> bool {
    let n = c as u32;
    (0x30 <= n && n <= 0x39) || (0x41 <= n && n <= 0x5a) || (0x61 <= n && n <= 0x7a)
}

/// `char::is_alphanumeric` (std). Claimed: the result is the named
/// predicate of `c`; on ASCII characters it holds exactly of letters and
/// digits, as the Unicode tables the function reads give it there.
#[verifier::external_body]
fn is_alphanumeric(c: char) -> (r: bool)
    ensures
        r == unicode_alphanumeric(c),
        (c as u32) < 0x80 ==> (r <==> ascii_alphanumeric(c)),
{
    c.is_alphanumeric()
}

/// Characters allowed in a task ID.
pub open spec fn task_id_char_ok(c: char) -> bool {
    unicode_alphanumeric(c) || c == '-' || c == '_'
}

/// The validation message for a task ID (already trimmed) that holds other
/// characters.
pub open spec fn invalid_task_id_message(t: Seq<char>) -> Seq<char> {
    "Invalid task ID format: '"@ + t + "'. Expected alphanumeric with hyphens/underscores."@
}

/// The validation failure for a task ID, if any: the trimmed ID must be
/// non-empty and made of alphanumerics, hyphens and underscores.
pub open spec fn task_id_error(task_id: Seq<char>) -> Option<Seq<char>> {
    let t = trim(task_id);
    if t.len() == 0 {
        Some("Task ID cannot be empty"@)
    } else if forall|i: int| 0 <= i < t.len() ==> task_id_char_ok(#[trigger] t[i]) {
        None
    } else {
        Some(invalid_task_id_message(t))
    }
}

/// The validation failure for a PR number, if any.
pub open spec fn pr_number_error(pr: u32) -> Option<Seq<char>> {
    if pr == 0 {
        Some("PR number must be a positive integer"@)
    } else {
        None
    }
}

/// `r` is `Ok` when `expected` is `None`, else a validation error carrying it.
pub open spec fn validation_outcome(r: Result<(), MergeAgentError>, expected: Option<Seq<char>>) -> bool {
    match expected {
        None => r is Ok,
        Some(m) => r matches Err(MergeAgentError::Validation(e)) && e@ == m,
    }
}

/// On ASCII characters, the allowed ones are exactly letters, digits, `-` and `_`.
pub open spec fn ascii_char_rule(c: char) -> bool {
    (c as u32) < 0x80 ==> (task_id_char_ok(c) <==> (ascii_alphanumeric(c) || c == '-' || c == '_'))
}

fn all_task_id_chars(v: &Vec<char>) -> (r: bool)
    ensures
        r == forall|i: int| 0 <= i < v@.len() ==> task_id_char_ok(#[trigger] v@[i]),
        forall|i: int| 0 <= i < v@.len() ==> ascii_char_rule(#[trigger] v@[i]),
{
    let mut ok = true;
    let mut i: usize = 0;
    while i < v.len()
        invariant
            i <= v@.len(),
            ok == forall|j: int| 0 <= j < i ==> task_id_char_ok(#[trigger] v@[j]),
            forall|j: int| 0 <= j < i ==> ascii_char_rule(#[trigger] v@[j]),
        decreases v.len() - i,
    {
        let c = v[i];
        let alnum = is_alphanumeric(c);
        if !(alnum || c == '-' || c == '_') {
            ok = false;
        }
        i = i + 1;
    }
    ok
}

/// Validates a task ID: non-empty after trimming, and made of alphanumerics,
/// hyphens and underscores (e.g. "RQ-0942").
pub fn validate_task_id(task_id: &str) -> (r: Result<(), MergeAgentError>)
    ensures
        validation_outcome(r, task_id_error(task_id@)),
        forall|i: int| 0 <= i < trim(task_id@).len() ==> ascii_char_rule(#[trigger] trim(task_id@)[i]),
{
    let t = trimmed(task_id);
    let v = chars_of(t.as_str());
    if v.len() == 0 {
        return Err(MergeAgentError::Validation(String::from_str("Task ID cannot be empty")));
    }
    if !all_task_id_chars(&v) {
        let mut m = String::from_str("Invalid task ID format: '");
        push_str(&mut m, t.as_str());
        push_str(&mut m, "'. Expected alphanumeric with hyphens/underscores.");
        return Err(MergeAgentError::Validation(m));
    }
    Ok(())
}

/// Validates a PR number: it must be positive.
pub fn validate_pr_number(pr: u32) -> (r: Result<(), MergeAgentError>)
    ensures
        validation_outcome(r, pr_number_error(pr)),
{
    if pr == 0 {
        return Err(MergeAgentError::Validation(String::from_str("PR number must be a positive integer")));
    }
    Ok(())
}

/// The payload reporting a successful merge.
pub fn emit_success(task_id: &str, pr_number: u32, message: Option<String>) -> (r: MergeAgentResult)
    ensures
        r.task_id@ == task_id@,
        r.pr_number == pr_number,
        r.merged,
        r.message == message,
{
    MergeAgentResult { task_id: String::from_str(task_id), pr_number, merged: true, message }
}

/// The payload reporting a failure; its message is the error's text.
pub fn emit_error(task_id: &str, pr_number: u32, error: &MergeAgentError) -> (r: MergeAgentResult)
    ensures
        r.task_id@ == task_id@,
        r.pr_number == pr_number,
        !r.merged,
        r.message matches Some(m) && m@ == error_message(*error),
{
    MergeAgentResult {
        task_id: String::from_str(task_id),
        pr_number,
        merged: false,
        message: Some(String::from_str(error.message())),
    }
}

/// What the merge-agent command does: the exit code, the diagnostic line for
/// stderr and the payload for stdout.
#[derive(Debug, Clone)]
pub struct MergeAgentOutcome {
    pub exit_code: i32,
    pub diagnostic: String,
    pub result: MergeAgentResult,
}

/// The first validation failure of the command's arguments, task ID first.
pub open spec fn merge_agent_error(task_id: Seq<char>, pr: u32) -> Option<Seq<char>> {
    match task_id_error(task_id) {
        Some(m) => Some(m),
        None => pr_number_error(pr),
    }
}

/// The diagnostic line of a validated invocation.
pub open spec fn validated_diagnostic(task_id: Seq<char>, pr: u32) -> Seq<char> {
    "merge-agent: task="@ + task_id + ", pr="@ + decimal(pr as nat)
        + " - CLI contract validated (execution in RQ-0943)"@
}

/// The success message of a validated invocation.
pub open spec fn validated_message() -> Seq<char> {
    "CLI contract validated - execution not yet implemented"@
}

/// Handles the merge-agent command. A validation failure yields exit code 2,
/// the diagnostic "Validation error: <message>" and a failure payload; valid
/// arguments yield exit code 0 and a success payload.
pub fn handle_merge_agent(task_id: &str, pr_number: u32) -> (r: MergeAgentOutcome)
    ensures
        r.result.task_id@ == task_id@,
        r.result.pr_number == pr_number,
        match merge_agent_error(task_id@, pr_number) {
            Some(m) => {
                &&& r.exit_code == 2
                &&& r.diagnostic@ == "Validation error: "@ + m
                &&& !r.result.merged
                &&& r.result.message matches Some(x) && x@ == m
            },
            None => {
                &&& r.exit_code == 0
                &&& r.diagnostic@ == validated_diagnostic(task_id@, pr_number)
                &&& r.result.merged
                &&& r.result.message matches Some(x) && x@ == validated_message()
            },
        },
{
    let checked = match validate_task_id(task_id) {
        Err(e) => Err(e),
        Ok(()) => validate_pr_number(pr_number),
    };
    match checked {
        Err(err) => {
            let mut diagnostic = String::from_str("Validation error: ");
            push_str(&mut diagnostic, err.message());
            let result = emit_error(task_id, pr_number, &err);
            MergeAgentOutcome { exit_code: err.exit_code(), diagnostic, result }
        },
        Ok(()) => {
            let mut diagnostic = String::from_str("merge-agent: task=");
            push_str(&mut diagnostic, task_id);
            push_str(&mut diagnostic, ", pr=");
            push_decimal(&mut diagnostic, pr_number as u64);
            push_str(&mut diagnostic, " - CLI contract validated (execution in RQ-0943)");
            let result = emit_success(
                task_id,
                pr_number,
                Some(String::from_str("CLI contract validated - execution not yet implemented")),
            );
            MergeAgentOutcome { exit_code: 0, diagnostic, result }
        },
    }
}

} // verus!
