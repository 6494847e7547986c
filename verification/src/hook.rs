//! Side-effect hooks: a narrow capability interface that every registered
//! callback implements, plus a simple in-memory hook that records what it
//! was shown.

use vstd::prelude::*;
use crate::level::Level;

verus! {

/// A registered side-effect callback. The logger invokes `observe` once per
/// record, with the record's severity and the formatted line; `history`
/// abstracts everything the hook has been shown so far, oldest first, so
/// that callers can state exactly which calls a log step added.
pub trait Hook: Sized {
    /// All (severity, formatted line) pairs this hook has observed so far.
    /// A hook whose state does not show its observations may leave the
    /// default, which abstracts them all away.
    open spec fn history(&self) -> Seq<(Level, Seq<char>)> {
        Seq::<(Level, Seq<char>)>::empty()
    }

    /// Shows one formatted record to the hook. The one observation is
    /// appended to the hook's history; nothing already observed changes.
    fn observe(&mut self, level: Level, body: &String)
        ensures
            final(self).history() == old(self).history().push((level, body@)),
    ;
}

/// A hook that keeps every (severity, formatted line) pair it is shown, in
/// the order of observation.
pub struct RecordingHook {
    pub entries: Vec<(Level, String)>,
}

/// The history entry a stored pair stands for.
pub open spec fn entry_view(p: (Level, String)) -> (Level, Seq<char>) {
    (p.0, p.1@)
}

impl RecordingHook {
    /// A recording hook that has seen nothing yet.
    pub fn new() -> (r: RecordingHook)
        ensures
            r.history() == Seq::<(Level, Seq<char>)>::empty(),
            r.entries@ == Seq::<(Level, String)>::empty(),
    {
        let r = RecordingHook { entries: Vec::new() };
        proof {
            assert(r.history() =~= Seq::<(Level, Seq<char>)>::empty());
        }
        r
    }
}

impl Hook for RecordingHook {
    /// The views of the stored pairs, in storage order.
    open spec fn history(&self) -> Seq<(Level, Seq<char>)> {
        self.entries@.map_values(|p: (Level, String)| entry_view(p))
    }

    fn observe(&mut self, level: Level, body: &String)
        ensures
            final(self).history() == old(self).history().push((level, body@)),
            final(self).entries@.len() == old(self).entries@.len() + 1,
    {
        self.entries.push((level, body.clone()));
        proof {
            assert(self.history() =~= old(self).history().push((level, body@)));
        }
    }
}

} // verus!
