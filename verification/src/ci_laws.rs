//! What holds of the CI gate's retry bookkeeping across runs.
use crate::ci::{
    spec_detect_lint, spec_detect_ci, ci_text, PatternModel, LINT_GUIDANCE,
    spec_action_kind, spec_next_state, RetryModel, CI_FAILURE_ESCALATION_THRESHOLD,
    CI_GATE_AUTO_RETRY_LIMIT,
};
use vstd::prelude::*;
use crate::text::mentions;

verus! {

/// A passing run forgets the failure pattern being tracked and spends no retry.
pub proof fn law_pass_clears_tracking(m: RetryModel, key: Option<Seq<char>>)
    ensures
        spec_next_state(m, true, key).last is None,
        spec_next_state(m, true, key).same == 0,
        spec_next_state(m, true, key).retries == m.retries,
        spec_action_kind(m, true, key) == 0,
{
}

/// A failure whose pattern differs from the last one starts a new count of one.
pub proof fn law_new_pattern_restarts_count(m: RetryModel, k: Seq<char>)
    requires
        m.last != Some(k),
    ensures
        spec_next_state(m, false, Some(k)).same == 1,
        spec_next_state(m, false, Some(k)).last == Some(k),
{
}

/// A failure that repeats the last pattern counts one more.
pub proof fn law_same_pattern_counts_up(m: RetryModel, k: Seq<char>)
    requires
        m.last == Some(k),
    ensures
        spec_next_state(m, false, Some(k)).same == m.same + 1,
{
}

/// Whatever came before, the third failure in a row with one recognised
/// pattern stops automatic retries and hands over to the user.
pub proof fn law_repeated_pattern_escalates(m: RetryModel, k: Seq<char>)
    ensures
        ({
            let m1 = spec_next_state(m, false, Some(k));
            let m2 = spec_next_state(m1, false, Some(k));
            spec_action_kind(m2, false, Some(k)) == 2
        }),
{
    assert(CI_FAILURE_ESCALATION_THRESHOLD == 3);
}

/// Starting within the limit, the supervisor never spends more automatic
/// retries than the limit allows, and each resume spends exactly one.
pub proof fn law_retries_bounded(m: RetryModel, success: bool, key: Option<Seq<char>>)
    requires
        m.retries <= CI_GATE_AUTO_RETRY_LIMIT,
    ensures
        spec_next_state(m, success, key).retries <= CI_GATE_AUTO_RETRY_LIMIT,
        spec_action_kind(m, success, key) == 1 ==> spec_next_state(m, success, key).retries
            == m.retries + 1,
        spec_action_kind(m, success, key) != 1 ==> spec_next_state(m, success, key).retries
            == m.retries,
{
}

/// Once the retries are spent, a failure that does not escalate is reported.
pub proof fn law_spent_retries_exhaust(m: RetryModel, key: Option<Seq<char>>)
    requires
        m.retries >= CI_GATE_AUTO_RETRY_LIMIT,
    ensures
        spec_action_kind(m, false, key) == 2 || spec_action_kind(m, false, key) == 3,
{
}


/// The pattern reported for a failed lint check: its kind and guidance, and
/// nothing read from the output.
pub open spec fn lint_failure_pattern() -> PatternModel {
    PatternModel {
        kind: "Lint check failure"@,
        file_path: None,
        line_number: None,
        invalid_value: None,
        valid_values: None,
        guidance: LINT_GUIDANCE@,
    }
}

/// Any output that reports a failed lint check, in either spelling and in
/// any case, is detected as a lint check failure with the lint guidance; in
/// CI output that holds no more specific pattern (TOML parse error, unknown
/// variant, ruff, failed format check), it is the pattern detected.
pub proof fn law_lint_failure_detected(s: Seq<char>, stdout: Seq<char>, stderr: Seq<char>)
    ensures
        mentions(s, "lint-check failed"@) ==> spec_detect_lint(s) == Some(lint_failure_pattern()),
        mentions(s, "lint check failed"@) ==> spec_detect_lint(s) == Some(lint_failure_pattern()),
        ({
            let t = ci_text(stdout, stderr);
            (mentions(t, "lint-check failed"@) || mentions(t, "lint check failed"@)) && !mentions(
                t,
                "toml parse error"@,
            ) && !mentions(t, "unknown variant"@) && !mentions(t, "ruff"@) && !mentions(
                t,
                "format-check failed"@,
            ) && !mentions(t, "format check failed"@) ==> spec_detect_ci(stdout, stderr) == Some(
                lint_failure_pattern(),
            )
        }),
{
}

} // verus!
