//! The supervisor's decisions. The program around the library sleeps,
//! spawns the display and waits for it; each time one of these finishes it
//! reports an event, and the supervisor answers with what to do next.

use vstd::prelude::*;
use crate::config::SessionConfig;
use crate::launch::{display_args, launch_args, strings_view};

verus! {

/// Spawn failures in a row after which the supervisor gives up.
pub const MAX_CONSECUTIVE_FAILURES: u32 = 3;

/// Exit code when the display program is not where it should be.
pub const EXIT_DISPLAY_MISSING: i32 = 2;

/// Exit code after too many spawn failures in a row.
pub const EXIT_TOO_MANY_FAILURES: i32 = 1;

/// What the program around the supervisor reports.
#[derive(Clone, Copy, Debug, PartialEq, Eq, Structural)]
pub enum Event {
    /// The supervisor starts; the display program was looked for.
    Started { display_found: bool },
    /// The pause between two reminders is over.
    SleepElapsed,
    /// The display ran and its process ended, with this exit code if it had one.
    DisplayExited { code: Option<i32> },
    /// The display could not be started.
    SpawnFailed,
}

/// What the supervisor asks the program around it to do next.
#[derive(Clone, Debug, PartialEq, Eq)]
pub enum Directive {
    /// Sleep this many seconds, then report `SleepElapsed`.
    Sleep { seconds: u64 },
    /// Start the display program with these arguments and wait for it.
    Launch { args: Vec<String> },
    /// End the process with this exit code.
    Exit { code: i32 },
}

/// The failure count after an event: a display that ran resets it, a spawn
/// failure adds one (up to the limit), other events leave it alone.
pub open spec fn failures_after(f: nat, e: Event) -> nat {
    match e {
        Event::DisplayExited { .. } => 0,
        Event::SpawnFailed => if f < MAX_CONSECUTIVE_FAILURES {
            f + 1
        } else {
            f
        },
        _ => f,
    }
}

/// The failure count of a fresh supervisor after a run of events.
pub open spec fn failures_after_all(es: Seq<Event>) -> nat
    decreases es.len(),
{
    if es.len() == 0 {
        0
    } else {
        failures_after(failures_after_all(es.drop_last()), es.last())
    }
}

/// How many spawn failures end a run of events with no display run in
/// between; events other than launch outcomes do not break the run.
pub open spec fn consecutive_failures(es: Seq<Event>) -> nat
    decreases es.len(),
{
    if es.len() == 0 {
        0
    } else {
        match es.last() {
            Event::SpawnFailed => consecutive_failures(es.drop_last()) + 1,
            Event::DisplayExited { .. } => 0,
            _ => consecutive_failures(es.drop_last()),
        }
    }
}

/// Whether an event, at a given failure count, ends the process: a missing
/// display at start, or the spawn failure that reaches the limit.
pub open spec fn exits(f: nat, e: Event) -> bool {
    match e {
        Event::Started { display_found } => !display_found,
        Event::SpawnFailed => f + 1 >= MAX_CONSECUTIVE_FAILURES,
        _ => false,
    }
}

/// The directive `d` is the answer to event `e` at failure count `f`.
pub open spec fn directs(cfg: SessionConfig, f: nat, e: Event, d: Directive) -> bool {
    let sleep = Directive::Sleep { seconds: cfg.spec_sleep_seconds() as u64 };
    match e {
        Event::Started { display_found } => if display_found {
            d == sleep
        } else {
            d == Directive::Exit { code: EXIT_DISPLAY_MISSING }
        },
        Event::SleepElapsed => d matches Directive::Launch { args } && strings_view(args@)
            == launch_args(cfg.gui),
        Event::DisplayExited { .. } => d == sleep,
        Event::SpawnFailed => if exits(f, e) {
            d == Directive::Exit { code: EXIT_TOO_MANY_FAILURES }
        } else {
            d == sleep
        },
    }
}

/// The supervisor: its settings and the number of spawn failures in a row.
pub struct Supervisor {
    pub config: SessionConfig,
    pub failures: u32,
}

impl Supervisor {
    pub open spec fn wf(&self) -> bool {
        &&& self.config.wf()
        &&& self.failures <= MAX_CONSECUTIVE_FAILURES
    }

    /// A supervisor that has seen no failure yet.
    pub fn new(config: SessionConfig) -> (r: Supervisor)
        requires
            config.wf(),
        ensures
            r.wf(),
            r.config == config,
            r.failures == 0,
    {
        Supervisor { config, failures: 0 }
    }

    /// Takes one event and answers with the next thing to do.
    pub fn step(&mut self, event: Event) -> (r: Directive)
        requires
            old(self).wf(),
        ensures
            final(self).wf(),
            final(self).config == old(self).config,
            final(self).failures == failures_after(old(self).failures as nat, event),
            directs(old(self).config, old(self).failures as nat, event, r),
            r is Exit <==> exits(old(self).failures as nat, event),
    {
        match event {
            Event::Started { display_found } => {
                if display_found {
                    Directive::Sleep { seconds: self.config.sleep_seconds() }
                } else {
                    Directive::Exit { code: EXIT_DISPLAY_MISSING }
                }
            },
            Event::SleepElapsed => Directive::Launch { args: display_args(&self.config.gui) },
            Event::DisplayExited { .. } => {
                self.failures = 0;
                Directive::Sleep { seconds: self.config.sleep_seconds() }
            },
            Event::SpawnFailed => {
                let exit = self.failures + 1 >= MAX_CONSECUTIVE_FAILURES;
                if self.failures < MAX_CONSECUTIVE_FAILURES {
                    self.failures = self.failures + 1;
                }
                if exit {
                    Directive::Exit { code: EXIT_TOO_MANY_FAILURES }
                } else {
                    Directive::Sleep { seconds: self.config.sleep_seconds() }
                }
            },
        }
    }
}

/// The failure count of a fresh supervisor is the number of spawn failures
/// in a row at the end of what it was told, capped at the limit: a display
/// that ran in between resets it.
pub proof fn lemma_failures_are_consecutive(es: Seq<Event>)
    ensures
        failures_after_all(es) == if consecutive_failures(es) < MAX_CONSECUTIVE_FAILURES {
            consecutive_failures(es)
        } else {
            MAX_CONSECUTIVE_FAILURES as nat
        },
    decreases es.len(),
{
    if es.len() > 0 {
        lemma_failures_are_consecutive(es.drop_last());
    }
}

/// A spawn failure ends the process exactly when it is the third in a row:
/// failures with a display run between them never add up.
pub proof fn lemma_exit_on_third_consecutive_failure(es: Seq<Event>)
    ensures
        exits(failures_after_all(es), Event::SpawnFailed) <==> consecutive_failures(
            es.push(Event::SpawnFailed),
        ) >= MAX_CONSECUTIVE_FAILURES,
{
    lemma_failures_are_consecutive(es);
    assert(es.push(Event::SpawnFailed).drop_last() =~= es);
}

} // verus!
