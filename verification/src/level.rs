//! Severity levels of the logging facade, ordered from most to least severe.

use vstd::prelude::*;

verus! {

/// One record's severity. Mirrors the facade's five levels; `severity`
/// numbers them 1 (most severe) to 5 (least severe).
#[derive(Clone, Copy, Debug, PartialEq, Eq, Structural)]
pub enum Level {
    Error,
    Warn,
    Info,
    Debug,
    Trace,
}

impl Level {
    /// The canonical uppercase name, as it appears in a formatted line.
    pub open spec fn spec_name(self) -> Seq<char> {
        match self {
            Level::Error => "ERROR"@,
            Level::Warn => "WARN"@,
            Level::Info => "INFO"@,
            Level::Debug => "DEBUG"@,
            Level::Trace => "TRACE"@,
        }
    }

    /// Renders the canonical uppercase name of this level.
    pub fn name(&self) -> (r: &'static str)
        ensures
            r@ == self.spec_name(),
    {
        match self {
            Level::Error => "ERROR",
            Level::Warn => "WARN",
            Level::Info => "INFO",
            Level::Debug => "DEBUG",
            Level::Trace => "TRACE",
        }
    }

    /// The level denoted by the facade's severity number; numbers outside
    /// 1 to 5 fall back to the least severe level.
    pub open spec fn spec_from_severity(n: usize) -> Level {
        if n == 1 {
            Level::Error
        } else if n == 2 {
            Level::Warn
        } else if n == 3 {
            Level::Info
        } else if n == 4 {
            Level::Debug
        } else {
            Level::Trace
        }
    }

    /// Maps the facade's severity number (1 is most severe) to a level.
    pub fn from_severity(n: usize) -> (r: Level)
        ensures
            r == Level::spec_from_severity(n),
    {
        if n == 1 {
            Level::Error
        } else if n == 2 {
            Level::Warn
        } else if n == 3 {
            Level::Info
        } else if n == 4 {
            Level::Debug
        } else {
            Level::Trace
        }
    }
}

} // verus!
