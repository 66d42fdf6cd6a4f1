use render_core::window::react;
use render_core::window::Reaction;
use render_core::window::Signal;

#[test]
fn close_request_ends_the_loop() {
    assert_eq!(react(Signal::CloseRequested), Reaction::Exit);
}

#[test]
fn idle_loop_draws() {
    assert_eq!(react(Signal::AboutToWait), Reaction::Draw);
}

#[test]
fn other_events_are_ignored() {
    assert_eq!(react(Signal::Other), Reaction::Ignore);
}

#[test]
fn frames_are_drawn_until_the_window_closes() {
    let signals = [
        Signal::Other,
        Signal::AboutToWait,
        Signal::Other,
        Signal::AboutToWait,
        Signal::AboutToWait,
        Signal::CloseRequested,
        Signal::AboutToWait,
    ];
    let mut frames = 0;
    for signal in signals {
        match react(signal) {
            Reaction::Exit => break,
            Reaction::Draw => frames += 1,
            Reaction::Ignore => (),
        }
    }
    assert_eq!(frames, 3);
}
