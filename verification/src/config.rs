//! Resolved configuration: where the repository and its queue files are,
//! and how task ids are formed.
use crate::contracts::CiGateConfig;
use vstd::prelude::*;

verus! {

/// Resolved configuration including computed paths.
#[derive(Debug, Clone)]
pub struct Resolved {
    pub repo_root: String,
    pub queue_path: String,
    pub done_path: String,
    /// Task id prefix (`RQ` in `RQ-0001`).
    pub id_prefix: String,
    /// Digits of the task id number.
    pub id_width: usize,
    pub global_config_path: Option<String>,
    pub project_config_path: Option<String>,
    /// The agent's CI gate setting, of all the configuration the library reads.
    pub ci_gate: Option<CiGateConfig>,
}

} // verus!
