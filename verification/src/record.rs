//! One log event as this adapter sees it: severity, source position where
//! known, and the message text the call site already rendered.

use vstd::prelude::*;
use crate::level::Level;

verus! {

/// The metadata and rendered message of a single facade record. `file` and
/// `line` are absent when the call site is unknown; the formatter then
/// falls back to an empty path and line 0.
pub struct LogRecord {
    pub level: Level,
    pub file: Option<String>,
    pub line: Option<u32>,
    pub message: String,
}

impl LogRecord {
    /// Builds a record from its parts.
    pub fn new(level: Level, file: Option<String>, line: Option<u32>, message: String) -> (r:
        LogRecord)
        ensures
            r.level == level,
            r.file == file,
            r.line == line,
            r.message == message,
    {
        LogRecord { level, file, line, message }
    }
}

} // verus!
