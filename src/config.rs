//! The settings of one reminder session.

use vstd::prelude::*;

verus! {

/// The shortest countdown the display accepts, in seconds.
pub const MIN_WAIT_SECONDS: u32 = 1;

/// The longest countdown the display accepts, in seconds.
pub const MAX_WAIT_SECONDS: u32 = 3600;

/// The shortest pause between two reminders, in minutes.
pub const MIN_INTERVAL_MINUTES: u64 = 1;

/// The longest pause between two reminders, in minutes (one day).
pub const MAX_INTERVAL_MINUTES: u64 = 1440;

/// What the display process is told: keep the window on top, how long to
/// count down, and an optional line of reminder text.
#[derive(Clone, Debug)]
pub struct GuiArgs {
    pub top_enable: bool,
    pub wait_seconds: u32,
    pub remind: Option<String>,
}

/// A setting outside the range that the program accepts.
#[derive(Clone, Copy, Debug, PartialEq, Eq, Structural)]
pub enum ConfigError {
    WaitSecondsOutOfRange(u32),
    IntervalOutOfRange(u64),
}

/// Whether a countdown length lies in the accepted range.
pub open spec fn wait_in_range(wait_seconds: u32) -> bool {
    MIN_WAIT_SECONDS <= wait_seconds <= MAX_WAIT_SECONDS
}

/// Whether a pause between reminders lies in the accepted range.
pub open spec fn interval_in_range(interval_minutes: u64) -> bool {
    MIN_INTERVAL_MINUTES <= interval_minutes <= MAX_INTERVAL_MINUTES
}

impl GuiArgs {
    pub open spec fn wf(&self) -> bool {
        wait_in_range(self.wait_seconds)
    }

    /// Display settings, refused when the countdown length is out of range.
    pub fn new(top_enable: bool, wait_seconds: u32, remind: Option<String>)
        -> (r: Result<GuiArgs, ConfigError>)
        ensures
            wait_in_range(wait_seconds) <==> r is Ok,
            r matches Ok(g) ==> g.wf() && g.top_enable == top_enable && g.wait_seconds
                == wait_seconds && g.remind == remind,
            r matches Err(e) ==> e == ConfigError::WaitSecondsOutOfRange(wait_seconds),
    {
        if wait_seconds < MIN_WAIT_SECONDS || wait_seconds > MAX_WAIT_SECONDS {
            Err(ConfigError::WaitSecondsOutOfRange(wait_seconds))
        } else {
            Ok(GuiArgs { top_enable, wait_seconds, remind })
        }
    }
}

/// The supervisor's settings: the display settings it forwards, and the pause
/// between two reminders.
#[derive(Clone, Debug)]
pub struct SessionConfig {
    pub gui: GuiArgs,
    pub interval_minutes: u64,
}

impl SessionConfig {
    pub open spec fn wf(&self) -> bool {
        &&& self.gui.wf()
        &&& interval_in_range(self.interval_minutes)
    }

    /// The pause between two reminders, in seconds.
    pub open spec fn spec_sleep_seconds(&self) -> nat {
        (self.interval_minutes * 60) as nat
    }

    /// Session settings, refused when a value is out of range. The countdown
    /// length is checked first.
    pub fn new(gui: GuiArgs, interval_minutes: u64) -> (r: Result<SessionConfig, ConfigError>)
        ensures
            (wait_in_range(gui.wait_seconds) && interval_in_range(interval_minutes)) <==> r is Ok,
            r matches Ok(c) ==> c.wf() && c.gui == gui && c.interval_minutes == interval_minutes,
            r matches Err(e) ==> e == (if !wait_in_range(gui.wait_seconds) {
                ConfigError::WaitSecondsOutOfRange(gui.wait_seconds)
            } else {
                ConfigError::IntervalOutOfRange(interval_minutes)
            }),
    {
        if gui.wait_seconds < MIN_WAIT_SECONDS || gui.wait_seconds > MAX_WAIT_SECONDS {
            Err(ConfigError::WaitSecondsOutOfRange(gui.wait_seconds))
        } else if interval_minutes < MIN_INTERVAL_MINUTES || interval_minutes
            > MAX_INTERVAL_MINUTES {
            Err(ConfigError::IntervalOutOfRange(interval_minutes))
        } else {
            Ok(SessionConfig { gui, interval_minutes })
        }
    }

    /// The pause between two reminders, in seconds.
    pub fn sleep_seconds(&self) -> (r: u64)
        requires
            self.wf(),
        ensures
            r == self.spec_sleep_seconds(),
    {
        self.interval_minutes * 60
    }
}

} // verus!
