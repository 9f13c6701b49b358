//! Client command logic: the request that `debug set-log-filter` sends, the subcommand
//! that `debug hydration` runs, and how `log what-up` reads an event log.
use vstd::prelude::*;

verus! {

/// Change the log filter that's currently applied by the daemon.
pub struct SetLogFilterCommand {
    /// The log filter to apply.
    pub log_filter: String,
    /// Whether not to apply it to the daemon.
    pub no_daemon: bool,
    /// Whether not to apply it to the forkserver.
    pub no_forkserver: bool,
}

/// The request sent to the daemon to change the log filter.
#[derive(PartialEq, Eq, Debug)]
pub struct SetLogFilterRequest {
    /// The log filter to apply.
    pub log_filter: String,
    /// Whether to apply it to the daemon.
    pub daemon: bool,
    /// Whether to apply it to the forkserver.
    pub forkserver: bool,
}

impl SetLogFilterCommand {
    /// The command only talks to an already running daemon (and shows no console).
    pub fn existing_only() -> (r: bool)
        ensures
            r,
    {
        true
    }

    /// The request that the command sends: the filter, applied where not opted out.
    pub fn request(self) -> (r: SetLogFilterRequest)
        ensures
            r.log_filter@ == self.log_filter@,
            r.daemon == !self.no_daemon,
            r.forkserver == !self.no_forkserver,
    {
        SetLogFilterRequest {
            log_filter: self.log_filter,
            daemon: !self.no_daemon,
            forkserver: !self.no_forkserver,
        }
    }
}

/// Page out all hydrated values to disk (a no-op unless the daemon has storage
/// configured).
#[derive(PartialEq, Eq, Structural, Clone, Copy, Debug)]
pub struct HydrationPageOutCommand {}

/// Subcommands of `debug hydration`.
#[derive(PartialEq, Eq, Structural, Clone, Copy, Debug)]
pub enum HydrationCommand {
    /// Serialize the hydrated values to disk and replace them in memory by markers.
    PageOut(HydrationPageOutCommand),
}

impl HydrationPageOutCommand {
    /// The command only talks to an already running daemon.
    pub fn existing_only() -> (r: bool)
        ensures
            r,
    {
        true
    }
}

impl HydrationCommand {
    /// The streaming command to run for this subcommand.
    pub fn exec(self) -> (r: HydrationPageOutCommand)
        ensures
            self == HydrationCommand::PageOut(r),
    {
        match self {
            HydrationCommand::PageOut(cmd) => cmd,
        }
    }
}

/// A wall-clock time: seconds since the Unix epoch (negative before it) and nanoseconds
/// within the second.
#[derive(PartialEq, Eq, Structural, Clone, Copy, Debug)]
pub struct Timestamp {
    /// Whole seconds since the epoch.
    pub secs: i64,
    /// Nanoseconds, below one billion.
    pub nanos: u32,
}

/// The time in nanoseconds since the epoch.
pub open spec fn nanos_of(t: Timestamp) -> int {
    t.secs * 1_000_000_000 + t.nanos
}

/// `later` is earlier than `earlier`, by `behind_nanos`.
#[derive(PartialEq, Eq, Structural, Clone, Copy, Debug)]
pub struct SystemTimeError {
    /// How far the later time lies before the earlier one, in nanoseconds.
    pub behind_nanos: u128,
}

/// Whether reading stops at an event: it does once more than `after_nanos` elapsed since
/// the first event. An event before the first one is an error.
pub fn should_stop_reading(after_nanos: u128, event: Timestamp, first: Timestamp) -> (r: Result<bool, SystemTimeError>)
    requires
        event.nanos < 1_000_000_000,
        first.nanos < 1_000_000_000,
    ensures
        nanos_of(event) < nanos_of(first) ==> (r matches Err(e)
            && e.behind_nanos == nanos_of(first) - nanos_of(event)),
        nanos_of(event) >= nanos_of(first) ==> (r matches Ok(stop) && stop == (nanos_of(event)
            - nanos_of(first) > after_nanos)),
{
    let secs = event.secs as i128 - first.secs as i128;
    proof {
        assert(-0x1_0000_0000_0000_0000 < secs < 0x1_0000_0000_0000_0000);
        assert(secs * 1_000_000_000 < 0x1_0000_0000_0000_0000 * 1_000_000_000) by (nonlinear_arith)
            requires
                secs < 0x1_0000_0000_0000_0000,
        ;
        assert(secs * 1_000_000_000 > -0x1_0000_0000_0000_0000 * 1_000_000_000) by (nonlinear_arith)
            requires
                secs > -0x1_0000_0000_0000_0000,
        ;
        assert(nanos_of(event) - nanos_of(first) == secs * 1_000_000_000 + event.nanos
            - first.nanos) by (nonlinear_arith)
            requires
                secs == event.secs - first.secs,
        ;
    }
    let elapsed: i128 = secs * 1_000_000_000 + event.nanos as i128 - first.nanos as i128;
    if elapsed < 0 {
        return Err(SystemTimeError { behind_nanos: (0 - elapsed) as u128 });
    }
    Ok(elapsed as u128 > after_nanos)
}

/// Show the spans that were open when the log ended (or after a given time).
pub struct WhatUpCommand {
    /// Show spans after this many milliseconds since the first event.
    pub after: Option<u64>,
}

/// A value read from an event log.
#[derive(PartialEq, Eq, Structural, Clone, Copy, Debug)]
pub enum LogValue {
    /// An event with its timestamp.
    Event(Timestamp),
    /// A partial result.
    PartialResult,
    /// The command's result: the log ends here.
    Result,
}

/// What the reader does with a value read from the log.
#[derive(PartialEq, Eq, Structural, Clone, Copy, Debug)]
pub enum WhatUpAction {
    /// Feed the event to the console state and read on.
    Observe,
    /// Ignore the value and read on.
    Skip,
    /// Stop reading and render the spans open now.
    Stop,
    /// Emit the result's errors, render, report that no spans were open, and finish.
    FinishWithResult,
    /// Fail: the event lies before the first one.
    Failed(SystemTimeError),
}

/// The state of reading a log: the cutoff (in nanoseconds after the first event) and the
/// first event's timestamp once seen.
pub struct WhatUpReader {
    /// The cutoff, if any.
    pub cutoff_nanos: Option<u128>,
    /// The first event's timestamp, once an event was seen while a cutoff is set.
    pub first_timestamp: Option<Timestamp>,
}

impl WhatUpCommand {
    /// The reader for this command: the cutoff is the given number of milliseconds.
    pub fn reader(&self) -> (r: WhatUpReader)
        ensures
            r.cutoff_nanos == match self.after {
                Some(ms) => Some((ms * 1_000_000) as u128),
                None => None::<u128>,
            },
            r.first_timestamp is None,
    {
        let cutoff_nanos = match self.after {
            Some(ms) => Some(ms as u128 * 1_000_000),
            None => None,
        };
        WhatUpReader { cutoff_nanos, first_timestamp: None }
    }
}

/// The line printed when the log's result is reached: no spans were open when it ended.
pub fn no_open_spans_message() -> (r: &'static str)
    ensures
        r@ == "No open spans to render when log ended"@,
{
    "No open spans to render when log ended"
}

impl WhatUpReader {
    /// Decides what to do with a value read from the log. With a cutoff, the first event
    /// fixes the start time and reading stops at the first event more than the cutoff
    /// after it.
    pub fn step(&mut self, value: LogValue) -> (action: WhatUpAction)
        requires
            old(self).first_timestamp matches Some(f) ==> f.nanos < 1_000_000_000,
            value matches LogValue::Event(t) ==> t.nanos < 1_000_000_000,
        ensures
            final(self).cutoff_nanos == old(self).cutoff_nanos,
            final(self).first_timestamp matches Some(f) ==> f.nanos < 1_000_000_000,
            match value {
                LogValue::PartialResult => action == WhatUpAction::Skip && final(self).first_timestamp
                    == old(self).first_timestamp,
                LogValue::Result => action == WhatUpAction::FinishWithResult
                    && final(self).first_timestamp == old(self).first_timestamp,
                LogValue::Event(t) => match old(self).cutoff_nanos {
                    None => action == WhatUpAction::Observe && final(self).first_timestamp
                        == old(self).first_timestamp,
                    Some(c) => {
                        let first = match old(self).first_timestamp {
                            Some(f) => f,
                            None => t,
                        };
                        &&& final(self).first_timestamp == Some(first)
                        &&& (nanos_of(t) < nanos_of(first) ==> action == WhatUpAction::Failed(
                            SystemTimeError {
                                behind_nanos: (nanos_of(first) - nanos_of(t)) as u128,
                            },
                        ))
                        &&& (nanos_of(t) >= nanos_of(first) ==> action == if nanos_of(t)
                            - nanos_of(first) > c {
                            WhatUpAction::Stop
                        } else {
                            WhatUpAction::Observe
                        })
                    },
                },
            },
    {
        match value {
            LogValue::Event(t) => match self.cutoff_nanos {
                Some(cutoff) => {
                    let first = match self.first_timestamp {
                        Some(f) => f,
                        None => t,
                    };
                    self.first_timestamp = Some(first);
                    match should_stop_reading(cutoff, t, first) {
                        Err(e) => WhatUpAction::Failed(e),
                        Ok(true) => WhatUpAction::Stop,
                        Ok(false) => WhatUpAction::Observe,
                    }
                },
                None => WhatUpAction::Observe,
            },
            LogValue::PartialResult => WhatUpAction::Skip,
            LogValue::Result => WhatUpAction::FinishWithResult,
        }
    }
}

} // verus!
