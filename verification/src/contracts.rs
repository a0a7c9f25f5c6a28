//! Shared vocabulary: agent runners and models, task status and priority,
//! and the agent settings a profile overrides.
use vstd::prelude::*;

verus! {

/// The agent CLI that runs a task.
#[derive(Debug, Clone, Copy, PartialEq, Eq, Structural)]
pub enum Runner {
    Codex,
    Opencode,
    Gemini,
    Claude,
    Cursor,
    Kimi,
}

/// A model name, either one of the well-known ones or any other.
#[derive(Debug, PartialEq, Eq)]
pub enum Model {
    Gpt52Codex,
    Gpt53,
    Gpt53Codex,
    Custom(String),
}

impl Clone for Model {
    fn clone(&self) -> (r: Self)
        ensures
            r == *self,
    {
        match self {
            Model::Gpt52Codex => Model::Gpt52Codex,
            Model::Gpt53 => Model::Gpt53,
            Model::Gpt53Codex => Model::Gpt53Codex,
            Model::Custom(name) => Model::Custom(name.clone()),
        }
    }
}

/// Lifecycle status of a task.
#[derive(Debug, Clone, Copy, PartialEq, Eq, Structural)]
pub enum TaskStatus {
    Draft,
    Todo,
    Doing,
    Done,
    Rejected,
}

/// Priority of a task.
#[derive(Debug, Clone, Copy, PartialEq, Eq, Structural)]
pub enum TaskPriority {
    Low,
    Medium,
    High,
    Critical,
}

/// Agent settings as a patch: only the fields that are `Some` override.
#[derive(Debug, PartialEq, Eq)]
pub struct AgentConfig {
    pub runner: Option<Runner>,
    pub model: Option<Model>,
    pub phases: Option<u8>,
}

impl Default for AgentConfig {
    fn default() -> (r: Self)
        ensures
            r.runner is None,
            r.model is None,
            r.phases is None,
    {
        AgentConfig { runner: None, model: None, phases: None }
    }
}

impl Clone for AgentConfig {
    fn clone(&self) -> (r: Self)
        ensures
            r == *self,
    {
        AgentConfig {
            runner: self.runner,
            model: match &self.model {
                Some(m) => Some(m.clone()),
                None => None,
            },
            phases: self.phases,
        }
    }
}

/// The CI gate run after an agent's work: whether it runs and the command.
#[derive(Debug, Clone)]
pub struct CiGateConfig {
    pub enabled: Option<bool>,
    /// Program and arguments; `make ci` when unset.
    pub argv: Option<Vec<String>>,
}

} // verus!
