use panel_menu::debounce::{Button, Event, Sample, Wiring, SETTLE_MS};

/// Logical level of a line that is held from `from_ms` up to, but not
/// including, `until_ms`.
fn held_between(from_ms: u32, until_ms: u32, at_ms: u32) -> bool {
    from_ms <= at_ms && at_ms < until_ms
}

/// Polls `button` at `at_ms` the way a control loop does: sample, wait out
/// the settle window if the button asks for it, sample again.
fn poll_at(button: &mut Button, from_ms: u32, until_ms: u32, at_ms: u32) -> Event {
    let now = held_between(from_ms, until_ms, at_ms);
    let settled = if button.needs_settle(now) {
        held_between(from_ms, until_ms, at_ms + SETTLE_MS)
    } else {
        now
    };
    button.poll(now, settled)
}

#[test]
fn settle_window_is_thirty_milliseconds() {
    assert_eq!(SETTLE_MS, 30);
}

#[test]
fn new_button_is_at_rest() {
    let button = Button::new();
    assert!(!button.is_pressed());
}

#[test]
fn check_commits_the_level_without_an_event() {
    let mut button = Button::new();
    button.check(true);
    assert!(button.is_pressed());
    assert_eq!(button.poll(true, true), Event::Nothing);
    button.check(false);
    assert!(!button.is_pressed());
}

#[test]
fn active_low_wiring_reads_low_as_pressed() {
    assert!(Wiring::ActiveLow.pressed(true));
    assert!(!Wiring::ActiveLow.pressed(false));
}

#[test]
fn active_high_wiring_reads_high_as_pressed() {
    assert!(Wiring::ActiveHigh.pressed(false));
    assert!(!Wiring::ActiveHigh.pressed(true));
}

#[test]
fn needs_settle_only_on_a_candidate_edge() {
    let mut button = Button::new();
    assert!(button.needs_settle(true));
    assert!(!button.needs_settle(false));
    button.check(true);
    assert!(!button.needs_settle(true));
    assert!(button.needs_settle(false));
}

#[test]
fn short_toggle_is_rejected() {
    // Held for 10 ms only: gone again when the settle window ends.
    let mut button = Button::new();
    assert_eq!(poll_at(&mut button, 0, 10, 0), Event::Nothing);
    assert!(!button.is_pressed());
    assert_eq!(poll_at(&mut button, 0, 10, 31), Event::Nothing);
    assert!(!button.is_pressed());
}

#[test]
fn short_release_is_rejected() {
    let mut button = Button::new();
    button.check(true);
    assert_eq!(button.poll(false, true), Event::Nothing);
    assert!(button.is_pressed());
}

#[test]
fn held_press_is_reported_exactly_once() {
    // Held from 0 ms on, far past the settle window.
    let mut button = Button::new();
    assert_eq!(poll_at(&mut button, 0, 10_000, 0), Event::Pressed);
    assert!(button.is_pressed());
    let mut at_ms: u32 = 31;
    while at_ms < 1_000 {
        assert_eq!(poll_at(&mut button, 0, 10_000, at_ms), Event::Nothing);
        assert!(button.is_pressed());
        at_ms += 7;
    }
}

#[test]
fn release_is_reported_exactly_once() {
    let mut button = Button::new();
    assert_eq!(button.poll(true, true), Event::Pressed);
    assert_eq!(button.poll(false, false), Event::Released);
    assert!(!button.is_pressed());
    assert_eq!(button.poll(false, false), Event::Nothing);
    assert_eq!(button.poll(false, true), Event::Nothing);
}

#[test]
fn settled_sample_is_ignored_without_a_candidate_edge() {
    let mut button = Button::new();
    assert_eq!(button.poll(false, true), Event::Nothing);
    assert!(!button.is_pressed());
    button.check(true);
    assert_eq!(button.poll(true, false), Event::Nothing);
    assert!(button.is_pressed());
}

#[test]
fn poll_table_is_complete() {
    // (stable, pressed_now, settled) -> (event, stable afterwards)
    let table = [
        (false, false, false, Event::Nothing, false),
        (false, false, true, Event::Nothing, false),
        (false, true, false, Event::Nothing, false),
        (false, true, true, Event::Pressed, true),
        (true, false, false, Event::Released, false),
        (true, false, true, Event::Nothing, true),
        (true, true, false, Event::Nothing, true),
        (true, true, true, Event::Nothing, true),
    ];
    for (stable, now, settled, event, after) in table {
        let mut button = Button::new();
        button.check(stable);
        assert_eq!(button.poll(now, settled), event);
        assert_eq!(button.is_pressed(), after);
    }
}

#[test]
fn bounces_never_produce_an_event() {
    // Every poll reads the resting level at once or after the window.
    let polls = vec![
        Sample { pressed_now: true, settled: false },
        Sample { pressed_now: false, settled: true },
        Sample { pressed_now: true, settled: false },
        Sample { pressed_now: false, settled: false },
        Sample { pressed_now: true, settled: false },
    ];
    let mut button = Button::new();
    for sample in polls {
        assert_eq!(button.poll(sample.pressed_now, sample.settled), Event::Nothing);
        assert!(!button.is_pressed());
    }
}
