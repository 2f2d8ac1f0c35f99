//! The display's countdown: a counter that a one-second tick lowers and a key
//! press can end early.

use vstd::prelude::*;
use crate::config::GuiArgs;
use crate::text::{timer_label, timer_text};

verus! {

/// A key as far as the countdown cares about it.
#[derive(Clone, Copy, Debug, PartialEq, Eq, Structural)]
pub enum Key {
    Escape,
    Other,
}

/// An event that reaches the display: a tick of the one-second timer, or a
/// key press.
#[derive(Clone, Copy, Debug, PartialEq, Eq, Structural)]
pub enum Message {
    Tick,
    KeyPressed(Key),
}

/// Where the countdown stands: seconds left, or over.
#[derive(Clone, Copy, Debug, PartialEq, Eq, Structural)]
pub enum Countdown {
    Running(u32),
    Closed,
}

/// Why the display window closed.
#[derive(Clone, Copy, Debug, PartialEq, Eq, Structural)]
pub enum CloseReason {
    /// The countdown ran out.
    TimedOut,
    /// The user pressed the cancel key.
    Cancelled,
}

/// What the window has to do after an event.
#[derive(Clone, Copy, Debug, PartialEq, Eq, Structural)]
pub enum Action {
    /// Nothing changed on screen.
    Continue,
    /// The seconds left changed: draw the counter again.
    Redraw,
    /// Close the window and end the process.
    Close(CloseReason),
}

/// The colour band of the counter, from relaxed to urgent.
#[derive(Clone, Copy, Debug, PartialEq, Eq, Structural)]
pub enum Tone {
    Calm,
    Notice,
    Urgent,
}

/// One tick: the counter goes down by one, and the countdown closes when it
/// reaches zero or was at zero already, so that it never goes below zero.
pub open spec fn tick(s: Countdown) -> Countdown {
    match s {
        Countdown::Running(r) => if r <= 1 {
            Countdown::Closed
        } else {
            Countdown::Running((r - 1) as u32)
        },
        Countdown::Closed => Countdown::Closed,
    }
}

/// The countdown after `n` ticks.
pub open spec fn ticks(s: Countdown, n: nat) -> Countdown
    decreases n,
{
    if n == 0 {
        s
    } else {
        tick(ticks(s, (n - 1) as nat))
    }
}

/// The countdown after an event: a tick lowers it, the cancel key closes it,
/// other keys leave it as it is.
pub open spec fn next(s: Countdown, m: Message) -> Countdown {
    match m {
        Message::Tick => tick(s),
        Message::KeyPressed(Key::Escape) => Countdown::Closed,
        Message::KeyPressed(Key::Other) => s,
    }
}

/// What the window does after an event. Once closed, nothing more happens.
pub open spec fn action_for(s: Countdown, m: Message) -> Action {
    match s {
        Countdown::Closed => Action::Continue,
        Countdown::Running(r) => match m {
            Message::Tick => if r <= 1 {
                Action::Close(CloseReason::TimedOut)
            } else {
                Action::Redraw
            },
            Message::KeyPressed(Key::Escape) => Action::Close(CloseReason::Cancelled),
            Message::KeyPressed(Key::Other) => Action::Continue,
        },
    }
}

/// The exit code of a display that closed: zero when the countdown ran out,
/// one when the user cancelled it.
pub open spec fn spec_exit_code(reason: CloseReason) -> i32 {
    match reason {
        CloseReason::TimedOut => 0,
        CloseReason::Cancelled => 1,
    }
}

/// The colour band for a number of seconds left: calm above ten, a notice
/// above five, urgent from five down.
pub open spec fn tone_for(remaining: u32) -> Tone {
    if remaining > 10 {
        Tone::Calm
    } else if remaining > 5 {
        Tone::Notice
    } else {
        Tone::Urgent
    }
}

impl CloseReason {
    /// The exit code that the display process ends with.
    pub fn exit_code(self) -> (r: i32)
        ensures
            r == spec_exit_code(self),
    {
        match self {
            CloseReason::TimedOut => 0,
            CloseReason::Cancelled => 1,
        }
    }
}

/// The colour band of the counter for a number of seconds left.
pub fn timer_tone(remaining: u32) -> (r: Tone)
    ensures
        r == tone_for(remaining),
{
    if remaining > 10 {
        Tone::Calm
    } else if remaining > 5 {
        Tone::Notice
    } else {
        Tone::Urgent
    }
}

/// The display's state: its settings and where the countdown stands.
pub struct EyeProtect {
    pub config: GuiArgs,
    pub state: Countdown,
}

impl EyeProtect {
    /// A display that starts counting down from the configured number of
    /// seconds.
    pub fn new(config: GuiArgs) -> (r: EyeProtect)
        ensures
            r.state == Countdown::Running(config.wait_seconds),
            r.config == config,
    {
        let state = Countdown::Running(config.wait_seconds);
        EyeProtect { config, state }
    }

    /// Handles one event and says what the window has to do.
    pub fn update(&mut self, message: Message) -> (r: Action)
        ensures
            final(self).state == next(old(self).state, message),
            final(self).config == old(self).config,
            r == action_for(old(self).state, message),
    {
        match self.state {
            Countdown::Closed => Action::Continue,
            Countdown::Running(remaining) => match message {
                Message::Tick => match remaining.checked_sub(1) {
                    Some(0) | None => {
                        self.state = Countdown::Closed;
                        Action::Close(CloseReason::TimedOut)
                    },
                    Some(r) => {
                        self.state = Countdown::Running(r);
                        Action::Redraw
                    },
                },
                Message::KeyPressed(Key::Escape) => {
                    self.state = Countdown::Closed;
                    Action::Close(CloseReason::Cancelled)
                },
                Message::KeyPressed(Key::Other) => Action::Continue,
            },
        }
    }

    /// The seconds left; zero once the countdown is over.
    pub fn remaining(&self) -> (r: u32)
        ensures
            r == match self.state {
                Countdown::Running(n) => n,
                Countdown::Closed => 0u32,
            },
    {
        match self.state {
            Countdown::Running(n) => n,
            Countdown::Closed => 0,
        }
    }

    /// Whether the countdown is over.
    pub fn is_closed(&self) -> (r: bool)
        ensures
            r == (self.state == Countdown::Closed),
    {
        match self.state {
            Countdown::Running(_) => false,
            Countdown::Closed => true,
        }
    }

    /// The counter as drawn: the seconds left, two digits at least, and the
    /// unit.
    pub fn label(&self) -> (r: String)
        ensures
            r@ == timer_text(
                match self.state {
                    Countdown::Running(n) => n as nat,
                    Countdown::Closed => 0,
                },
            ),
    {
        timer_label(self.remaining())
    }
}

/// Ticks never take the counter below zero: after `k` ticks from `n`, with
/// `k < n`, exactly `n - k` seconds are left.
pub proof fn lemma_ticks_count_down(n: u32, k: nat)
    requires
        k < n,
    ensures
        ticks(Countdown::Running(n), k) == Countdown::Running((n - k) as u32),
    decreases k,
{
    if k > 0 {
        lemma_ticks_count_down(n, (k - 1) as nat);
    }
}

/// A countdown started from `n > 0` seconds is closed after exactly `n`
/// ticks, and still running after fewer.
pub proof fn lemma_closes_after_wait(n: u32)
    requires
        n > 0,
    ensures
        ticks(Countdown::Running(n), n as nat) == Countdown::Closed,
        forall|k: nat| k < n ==> #[trigger] ticks(Countdown::Running(n), k) is Running,
{
    lemma_ticks_count_down(n, (n - 1) as nat);
    assert forall|k: nat| k < n implies #[trigger] ticks(Countdown::Running(n), k) is Running by {
        lemma_ticks_count_down(n, k);
    }
}

/// The cancel key closes the countdown whenever it comes, whatever the
/// seconds left `k` of a countdown started from `n`: on the state itself,
/// and on the state reached after the `n - k` ticks that lead there.
pub proof fn lemma_cancel_closes(n: u32, k: u32)
    requires
        k <= n,
    ensures
        next(Countdown::Running(k), Message::KeyPressed(Key::Escape)) == Countdown::Closed,
        action_for(Countdown::Running(k), Message::KeyPressed(Key::Escape)) == Action::Close(
            CloseReason::Cancelled,
        ),
        next(ticks(Countdown::Running(n), (n - k) as nat), Message::KeyPressed(Key::Escape))
            == Countdown::Closed,
        k > 0 ==> ticks(Countdown::Running(n), (n - k) as nat) == Countdown::Running(k),
{
    if k > 0 {
        lemma_ticks_count_down(n, (n - k) as nat);
    }
}

/// A tick at zero seconds left closes the countdown; it never wraps round to
/// a large value.
pub proof fn lemma_tick_at_zero_closes()
    ensures
        tick(Countdown::Running(0)) == Countdown::Closed,
        action_for(Countdown::Running(0), Message::Tick) == Action::Close(CloseReason::TimedOut),
{
}

} // verus!
