use eye_protect::config::GuiArgs;
use eye_protect::countdown::{
    timer_tone, Action, CloseReason, Countdown, EyeProtect, Key, Message, Tone,
};

fn display(wait_seconds: u32, remind: Option<&str>) -> EyeProtect {
    let args = GuiArgs::new(false, wait_seconds, remind.map(|s| s.to_string())).unwrap();
    EyeProtect::new(args)
}

#[test]
fn starts_at_wait_seconds() {
    let d = display(15, Some("stretch"));
    assert_eq!(d.state, Countdown::Running(15));
    assert_eq!(d.remaining(), 15);
    assert!(!d.is_closed());
    assert_eq!(d.config.remind.as_deref(), Some("stretch"));
}

#[test]
fn closes_after_exactly_n_ticks() {
    for n in [1u32, 2, 5, 20, 60] {
        let mut d = display(n, None);
        for k in 1..n {
            assert_eq!(d.update(Message::Tick), Action::Redraw);
            assert_eq!(d.state, Countdown::Running(n - k));
        }
        assert_eq!(d.update(Message::Tick), Action::Close(CloseReason::TimedOut));
        assert_eq!(d.state, Countdown::Closed);
        assert!(d.is_closed());
        assert_eq!(d.remaining(), 0);
    }
}

#[test]
fn cancel_closes_at_any_point() {
    let n = 6u32;
    for k in 0..=n {
        let mut d = display(n, None);
        for _ in 0..(n - k) {
            d.update(Message::Tick);
        }
        let before_closed = d.is_closed();
        let action = d.update(Message::KeyPressed(Key::Escape));
        assert_eq!(d.state, Countdown::Closed);
        if !before_closed {
            assert_eq!(action, Action::Close(CloseReason::Cancelled));
        } else {
            assert_eq!(action, Action::Continue);
        }
    }
}

#[test]
fn tick_at_zero_saturates() {
    let mut d = EyeProtect {
        config: GuiArgs { top_enable: false, wait_seconds: 1, remind: None },
        state: Countdown::Running(0),
    };
    assert_eq!(d.update(Message::Tick), Action::Close(CloseReason::TimedOut));
    assert_eq!(d.state, Countdown::Closed);
    assert_eq!(d.remaining(), 0);
}

#[test]
fn other_keys_are_ignored() {
    let mut d = display(5, None);
    assert_eq!(d.update(Message::KeyPressed(Key::Other)), Action::Continue);
    assert_eq!(d.state, Countdown::Running(5));
}

#[test]
fn closed_display_ignores_events() {
    let mut d = display(1, None);
    assert_eq!(d.update(Message::Tick), Action::Close(CloseReason::TimedOut));
    assert_eq!(d.update(Message::Tick), Action::Continue);
    assert_eq!(d.update(Message::KeyPressed(Key::Escape)), Action::Continue);
    assert_eq!(d.state, Countdown::Closed);
}

#[test]
fn exit_codes_tell_timeout_from_cancel() {
    assert_eq!(CloseReason::TimedOut.exit_code(), 0);
    assert_eq!(CloseReason::Cancelled.exit_code(), 1);
}

#[test]
fn tone_bands() {
    assert_eq!(timer_tone(60), Tone::Calm);
    assert_eq!(timer_tone(11), Tone::Calm);
    assert_eq!(timer_tone(10), Tone::Notice);
    assert_eq!(timer_tone(6), Tone::Notice);
    assert_eq!(timer_tone(5), Tone::Urgent);
    assert_eq!(timer_tone(0), Tone::Urgent);
}

#[test]
fn label_follows_the_countdown() {
    let mut d = display(10, None);
    assert_eq!(d.label(), "10 s");
    d.update(Message::Tick);
    assert_eq!(d.label(), "09 s");
}
