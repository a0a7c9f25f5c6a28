//! Machine-readable documents: the names of resume decisions, the queue
//! paths block and the dependency-depth default.
use vstd::prelude::*;
use crate::config::Resolved;

verus! {

/// What a resume decision does.
#[derive(Debug, Clone, Copy, PartialEq, Eq, Structural)]
pub enum ResumeStatus {
    ResumingSameSession,
    FallingBackToFreshInvocation,
    RefusingToResume,
}

/// What a resume decision is about.
#[derive(Debug, Clone, Copy, PartialEq, Eq, Structural)]
pub enum ResumeScope {
    RunSession,
    ContinueSession,
}

/// Why a resume decision was taken.
#[derive(Debug, Clone, Copy, PartialEq, Eq, Structural)]
pub enum ResumeReason {
    NoSession,
    SessionValid,
    SessionTimedOutConfirmed,
    SessionStale,
    SessionDeclined,
    ResumeConfirmationRequired,
    SessionTimedOutRequiresConfirmation,
    ExplicitTaskSelectionOverridesSession,
    ResumeTargetMissing,
    ResumeTargetTerminal,
    RunnerSessionInvalid,
    MissingRunnerSessionId,
}

pub open spec fn resume_status_name(s: ResumeStatus) -> Seq<char> {
    match s {
        ResumeStatus::ResumingSameSession => "resuming_same_session"@,
        ResumeStatus::FallingBackToFreshInvocation => "falling_back_to_fresh_invocation"@,
        ResumeStatus::RefusingToResume => "refusing_to_resume"@,
    }
}

pub open spec fn resume_scope_name(s: ResumeScope) -> Seq<char> {
    match s {
        ResumeScope::RunSession => "run_session"@,
        ResumeScope::ContinueSession => "continue_session"@,
    }
}

pub open spec fn resume_reason_name(r: ResumeReason) -> Seq<char> {
    match r {
        ResumeReason::NoSession => "no_session"@,
        ResumeReason::SessionValid => "session_valid"@,
        ResumeReason::SessionTimedOutConfirmed => "session_timed_out_confirmed"@,
        ResumeReason::SessionStale => "session_stale"@,
        ResumeReason::SessionDeclined => "session_declined"@,
        ResumeReason::ResumeConfirmationRequired => "resume_confirmation_required"@,
        ResumeReason::SessionTimedOutRequiresConfirmation => "session_timed_out_requires_confirmation"@,
        ResumeReason::ExplicitTaskSelectionOverridesSession => "explicit_task_selection_overrides_session"@,
        ResumeReason::ResumeTargetMissing => "resume_target_missing"@,
        ResumeReason::ResumeTargetTerminal => "resume_target_terminal"@,
        ResumeReason::RunnerSessionInvalid => "runner_session_invalid"@,
        ResumeReason::MissingRunnerSessionId => "missing_runner_session_id"@,
    }
}

/// The machine name of a resume status.
pub fn machine_resume_status(status: ResumeStatus) -> (r: &'static str)
    ensures
        r@ == resume_status_name(status),
{
    match status {
        ResumeStatus::ResumingSameSession => "resuming_same_session",
        ResumeStatus::FallingBackToFreshInvocation => "falling_back_to_fresh_invocation",
        ResumeStatus::RefusingToResume => "refusing_to_resume",
    }
}

/// The machine name of a resume scope.
pub fn machine_resume_scope(scope: ResumeScope) -> (r: &'static str)
    ensures
        r@ == resume_scope_name(scope),
{
    match scope {
        ResumeScope::RunSession => "run_session",
        ResumeScope::ContinueSession => "continue_session",
    }
}

/// The machine name of a resume reason.
pub fn machine_resume_reason(reason: ResumeReason) -> (r: &'static str)
    ensures
        r@ == resume_reason_name(reason),
{
    match reason {
        ResumeReason::NoSession => "no_session",
        ResumeReason::SessionValid => "session_valid",
        ResumeReason::SessionTimedOutConfirmed => "session_timed_out_confirmed",
        ResumeReason::SessionStale => "session_stale",
        ResumeReason::SessionDeclined => "session_declined",
        ResumeReason::ResumeConfirmationRequired => "resume_confirmation_required",
        ResumeReason::SessionTimedOutRequiresConfirmation => "session_timed_out_requires_confirmation",
        ResumeReason::ExplicitTaskSelectionOverridesSession => "explicit_task_selection_overrides_session",
        ResumeReason::ResumeTargetMissing => "resume_target_missing",
        ResumeReason::ResumeTargetTerminal => "resume_target_terminal",
        ResumeReason::RunnerSessionInvalid => "runner_session_invalid",
        ResumeReason::MissingRunnerSessionId => "missing_runner_session_id",
    }
}

/// The paths block of machine documents.
#[derive(Debug, Clone)]
pub struct MachineQueuePaths {
    pub repo_root: String,
    pub queue_path: String,
    pub done_path: String,
    pub project_config_path: Option<String>,
    pub global_config_path: Option<String>,
}

fn copy_opt(s: &Option<String>) -> (r: Option<String>)
    ensures
        r == *s,
{
    match s {
        Some(v) => Some(v.clone()),
        None => None,
    }
}

/// The paths of a resolved configuration, as a machine document block.
pub fn queue_paths(resolved: &Resolved) -> (r: MachineQueuePaths)
    ensures
        r.repo_root == resolved.repo_root,
        r.queue_path == resolved.queue_path,
        r.done_path == resolved.done_path,
        r.project_config_path == resolved.project_config_path,
        r.global_config_path == resolved.global_config_path,
{
    MachineQueuePaths {
        repo_root: resolved.repo_root.clone(),
        queue_path: resolved.queue_path.clone(),
        done_path: resolved.done_path.clone(),
        project_config_path: copy_opt(&resolved.project_config_path),
        global_config_path: copy_opt(&resolved.global_config_path),
    }
}

/// The dependency depth queue validation allows: the configured one, else 10.
pub fn queue_max_dependency_depth(configured: Option<u8>) -> (r: u8)
    ensures
        r == match configured {
            Some(d) => d,
            None => 10u8,
        },
{
    match configured {
        Some(d) => d,
        None => 10,
    }
}

} // verus!
