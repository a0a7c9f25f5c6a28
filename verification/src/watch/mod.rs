//! Watch mode: which changed files to scan, the debounce state between
//! scans, and how TODO-style comments are recognised and described.

pub mod types;
pub mod state;
pub mod paths;
pub mod comments;
pub mod tasks;
