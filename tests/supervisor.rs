use eye_protect::config::{GuiArgs, SessionConfig};
use eye_protect::countdown::{Action, CloseReason, EyeProtect, Message};
use eye_protect::supervisor::{
    Directive, Event, Supervisor, EXIT_DISPLAY_MISSING, EXIT_TOO_MANY_FAILURES,
};

fn supervisor(interval_minutes: u64, wait_seconds: u32) -> Supervisor {
    let g = GuiArgs::new(false, wait_seconds, None).unwrap();
    Supervisor::new(SessionConfig::new(g, interval_minutes).unwrap())
}

#[test]
fn missing_display_exits_before_sleeping() {
    let mut s = supervisor(10, 20);
    let d = s.step(Event::Started { display_found: false });
    assert_eq!(d, Directive::Exit { code: EXIT_DISPLAY_MISSING });
    assert_ne!(EXIT_DISPLAY_MISSING, 0);
}

#[test]
fn found_display_starts_with_sleep() {
    let mut s = supervisor(10, 20);
    assert_eq!(s.step(Event::Started { display_found: true }), Directive::Sleep { seconds: 600 });
}

#[test]
fn three_failures_in_a_row_exit() {
    let mut s = supervisor(1, 20);
    s.step(Event::Started { display_found: true });
    assert_eq!(s.step(Event::SpawnFailed), Directive::Sleep { seconds: 60 });
    assert_eq!(s.step(Event::SpawnFailed), Directive::Sleep { seconds: 60 });
    assert_eq!(s.step(Event::SpawnFailed), Directive::Exit { code: EXIT_TOO_MANY_FAILURES });
    assert_ne!(EXIT_TOO_MANY_FAILURES, 0);
}

#[test]
fn a_success_resets_the_failure_count() {
    let mut s = supervisor(1, 20);
    let outcomes = [
        Event::SpawnFailed,
        Event::SpawnFailed,
        Event::DisplayExited { code: Some(0) },
        Event::SpawnFailed,
        Event::SpawnFailed,
        Event::DisplayExited { code: Some(1) },
        Event::SpawnFailed,
    ];
    for e in outcomes {
        assert_eq!(s.step(Event::SleepElapsed), Directive::Launch { args: vec!["-w".to_string(), "20".to_string()] });
        assert_eq!(s.step(e), Directive::Sleep { seconds: 60 });
    }
    assert_eq!(s.failures, 1);
}

#[test]
fn exit_code_of_display_does_not_count_as_failure() {
    let mut s = supervisor(1, 20);
    s.step(Event::SpawnFailed);
    s.step(Event::SpawnFailed);
    assert_eq!(s.step(Event::DisplayExited { code: None }), Directive::Sleep { seconds: 60 });
    assert_eq!(s.failures, 0);
}

#[test]
fn end_to_end_cycle() {
    let mut s = supervisor(1, 5);
    assert_eq!(s.step(Event::Started { display_found: true }), Directive::Sleep { seconds: 60 });
    let args = match s.step(Event::SleepElapsed) {
        Directive::Launch { args } => args,
        other => panic!("expected a launch, got {:?}", other),
    };
    assert_eq!(args, vec!["-w", "5"]);
    let wait: u32 = args[1].parse().unwrap();
    let mut d = EyeProtect::new(GuiArgs::new(false, wait, None).unwrap());
    let mut ticks = 0;
    let code = loop {
        ticks += 1;
        match d.update(Message::Tick) {
            Action::Close(reason) => break reason.exit_code(),
            Action::Redraw => {}
            Action::Continue => panic!("running countdown must redraw or close"),
        }
    };
    assert_eq!(ticks, 5);
    assert_eq!(code, CloseReason::TimedOut.exit_code());
    assert_eq!(s.step(Event::DisplayExited { code: Some(code) }), Directive::Sleep { seconds: 60 });
}
