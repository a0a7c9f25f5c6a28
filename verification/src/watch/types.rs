//! Values shared by the watch-mode modules.
use vstd::prelude::*;

verus! {

/// Kind of marker comment to look for; `All` stands for every kind (and is
/// what an unrecognised line is classified as).
#[derive(Debug, Clone, Copy, PartialEq, Eq, Structural)]
pub enum CommentType {
    Todo,
    Fixme,
    Hack,
    Xxx,
    All,
}

/// Options of a watch session.
#[derive(Debug, Clone)]
pub struct WatchOptions {
    /// Glob patterns a file name must match to be scanned.
    pub patterns: Vec<String>,
    /// Glob patterns that exclude a file name.
    pub ignore_patterns: Vec<String>,
    /// Quiet period between a change and a scan, in milliseconds.
    pub debounce_ms: u64,
    /// Add detected comments to the queue instead of only suggesting them.
    pub auto_queue: bool,
    /// Send a desktop notification for new tasks.
    pub notify: bool,
    /// Marker kinds to detect.
    pub comment_types: Vec<CommentType>,
    /// Paths to watch.
    pub paths: Vec<String>,
    /// Proceed even when the queue lock is held.
    pub force: bool,
    /// Close watch tasks whose comment disappeared.
    pub close_removed: bool,
}

/// A marker comment found in a file.
#[derive(Debug, Clone)]
pub struct DetectedComment {
    pub file_path: String,
    /// 1-based line number.
    pub line_number: usize,
    pub comment_type: CommentType,
    /// Text after the marker, trimmed.
    pub content: String,
    /// `file:line - content` summary.
    pub context: String,
}

} // verus!
