//! The logger: owns the ordered hook sequence, formats each record, shows
//! the line to every hook in registration order, and installs itself as the
//! facade's single process-wide formatting callback.

use vstd::prelude::*;
use std::io::Write;
use crate::hook::Hook;
use crate::level::Level;
use crate::record::LogRecord;
use crate::render::{format_record, spec_line};

verus! {

/// Why installing the logger failed.
#[derive(Clone, Copy, Debug, PartialEq, Eq, Structural)]
pub enum InitError {
    /// A formatting callback is already installed on this process; the
    /// earlier installation, hooks included, stays active.
    AlreadyInstalled,
}

/// The record pipeline: an ordered sequence of hooks, appended to during
/// configuration and frozen once the logger is installed (`init` consumes
/// the logger, so no hook can be added afterwards).
pub struct Logger<H> {
    hooks: Vec<H>,
}

/// The outside error returned when a process-wide logger is already set.
#[verifier::external_type_specification]
#[verifier::external_body]
pub struct ExSetLoggerError(log::SetLoggerError);

impl<H: Hook> Logger<H> {
    /// The registered hooks, in registration order.
    pub closed spec fn spec_hooks(&self) -> Seq<H> {
        self.hooks@
    }

    /// A logger with no hooks registered.
    pub fn new() -> (r: Logger<H>)
        ensures
            r.spec_hooks() == Seq::<H>::empty(),
    {
        Logger { hooks: Vec::new() }
    }

    /// Appends `hook` to the sequence; it will run after every hook already
    /// registered, for every record the installed logger handles.
    pub fn add_hook(&mut self, hook: H)
        ensures
            final(self).spec_hooks() == old(self).spec_hooks().push(hook),
    {
        self.hooks.push(hook);
    }

    /// Read access to the registered hooks, in registration order.
    pub fn hooks(&self) -> (r: &Vec<H>)
        ensures
            r@ == self.spec_hooks(),
    {
        &self.hooks
    }

    /// Handles one record: formats it with the given timestamp, shows the
    /// line to every hook in registration order — each exactly once, with
    /// the record's severity — and returns the line for the sink. The
    /// caller writes the returned line only after this returns, so every
    /// hook observes the line before the sink write.
    pub fn handle(&mut self, record: &LogRecord, timestamp: &str) -> (line: String)
        ensures
            line@ == spec_line(*record, timestamp@),
            final(self).spec_hooks().len() == old(self).spec_hooks().len(),
            forall|i: int|
                0 <= i < old(self).spec_hooks().len() ==> (#[trigger] final(self).spec_hooks()[i]).history()
                    == old(self).spec_hooks()[i].history().push((record.level, line@)),
    {
        let line = format_record(record, timestamp);
        let mut i: usize = 0;
        while i < self.hooks.len()
            invariant
                i <= self.hooks.len(),
                self.hooks@.len() == old(self).spec_hooks().len(),
                forall|j: int|
                    0 <= j < i ==> (#[trigger] self.hooks@[j]).history() == old(
                        self,
                    ).spec_hooks()[j].history().push((record.level, line@)),
                forall|j: int|
                    i <= j < self.hooks@.len() ==> self.hooks@[j] == old(self).spec_hooks()[j],
            decreases self.hooks@.len() - i,
        {
            self.hooks[i].observe(record.level, &line);
            i += 1;
        }
        line
    }
}

impl<H: Hook + Send + Sync + 'static> Logger<H> {
    /// Consumes the logger and installs it as the facade's process-wide
    /// formatting callback, under the facade's environment-driven severity
    /// filter. At most one callback can ever be installed on a process: a
    /// second installation fails with `AlreadyInstalled` and leaves the
    /// first one, hooks included, active.
    pub fn init(self) -> (r: Result<(), InitError>)
        ensures
            r is Err ==> r == Result::<(), InitError>::Err(InitError::AlreadyInstalled),
    {
        match register(self) {
            Ok(_) => Ok(()),
            Err(_) => Err(InitError::AlreadyInstalled),
        }
    }
}

/// Relies on env_logger and chrono: `Builder::from_default_env` reads the
/// facade's environment-driven filter, `format` stores the callback, and
/// `try_init` registers the built logger process-wide, failing if and only
/// if a global logger is already set. For every record the facade passes
/// through its filter, the callback stamps the record with chrono's local
/// time as `YYYY-MM-DD HH:MM:SS`, hands it to the verified
/// `Logger::handle`, and writes the returned line, then a newline, to the
/// facade's sink.
#[verifier::external_body]
fn register<H: Hook + Send + Sync + 'static>(logger: Logger<H>) -> (r: Result<
    (),
    log::SetLoggerError,
>) {
    let cell = std::sync::Mutex::new(logger);
    env_logger::Builder::from_default_env()
        .format(move |buf, record| {
            let ts = chrono::Local::now().format("%Y-%m-%d %H:%M:%S").to_string();
            let level = Level::from_severity(record.level() as usize);
            let file = record.file().map(|f| f.to_owned());
            let rec = LogRecord::new(level, file, record.line(), record.args().to_string());
            let line = cell.lock().unwrap().handle(&rec, ts.as_str());
            writeln!(buf, "{}", line)
        })
        .try_init()
}

} // verus!
