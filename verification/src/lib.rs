//! Verified core of the Ralph task-queue tooling: parallel-run state,
//! merge-agent contracts, watch-mode helpers and small text utilities.

pub mod text;
pub mod pathname;
pub mod keyed;
pub mod contracts;
pub mod config;
pub mod profiles;
pub mod parallel_state;
pub mod parallel_laws;
pub mod merge_agent;
pub mod watch;
pub mod gitignore;
pub mod init;
pub mod cli;
pub mod run_loop;
pub mod queue_lock;
pub mod phases;
pub mod bookkeeping;
pub mod app_launch;
pub mod machine;
pub mod ci;
pub mod ci_laws;
pub mod markdown;

