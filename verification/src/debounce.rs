//! Debouncing of one momentary switch.
//!
//! A switch is polled with two samples of its logical level: the level at the
//! moment of the poll and the level after the settle window. The second
//! sample is only looked at when the first one differs from the confirmed
//! level, so a caller waits and samples again only when
//! [`Button::needs_settle`] says so.

use vstd::prelude::*;

verus! {

/// Length of the settle window in milliseconds.
pub const SETTLE_MS: u32 = 30;

/// What one poll of a switch reports.
#[derive(Clone, Copy, Debug, PartialEq, Eq, Structural)]
pub enum Event {
    Pressed,
    Released,
    Nothing,
}

/// How a switch is wired to its input line.
#[derive(Clone, Copy, Debug, PartialEq, Eq, Structural)]
pub enum Wiring {
    /// Pull-up wiring: the line reads low while the switch is held.
    ActiveLow,
    /// Pull-down wiring: the line reads high while the switch is held.
    ActiveHigh,
}

impl Wiring {
    /// Logical level of a switch whose line currently reads `line_low`.
    pub open spec fn level(self, line_low: bool) -> bool {
        match self {
            Wiring::ActiveLow => line_low,
            Wiring::ActiveHigh => !line_low,
        }
    }

    /// Says whether the switch is held when its line reads `line_low`.
    pub fn pressed(self, line_low: bool) -> (held: bool)
        ensures
            held == self.level(line_low),
    {
        match self {
            Wiring::ActiveLow => line_low,
            Wiring::ActiveHigh => !line_low,
        }
    }
}

/// True when a poll that reads `pressed_now` has met a candidate edge and
/// must wait out the settle window before it can decide.
pub open spec fn edge_candidate(stable: bool, pressed_now: bool) -> bool {
    stable != pressed_now
}

/// True when a poll commits the level `pressed_now`: it differs from the
/// confirmed level and is still read after the settle window.
pub open spec fn edge_confirmed(stable: bool, pressed_now: bool, settled: bool) -> bool {
    edge_candidate(stable, pressed_now) && settled == pressed_now
}

/// The confirmed level after a poll.
pub open spec fn poll_level(stable: bool, pressed_now: bool, settled: bool) -> bool {
    if edge_confirmed(stable, pressed_now, settled) {
        pressed_now
    } else {
        stable
    }
}

/// The event that a poll reports.
pub open spec fn poll_event(stable: bool, pressed_now: bool, settled: bool) -> Event {
    if edge_confirmed(stable, pressed_now, settled) {
        if pressed_now {
            Event::Pressed
        } else {
            Event::Released
        }
    } else {
        Event::Nothing
    }
}

/// The two samples that one poll takes of a switch.
#[derive(Clone, Copy, Debug, PartialEq, Eq, Structural)]
pub struct Sample {
    /// Logical level at the moment of the poll.
    pub pressed_now: bool,
    /// Logical level after the settle window.
    pub settled: bool,
}

/// The samples of a poll that starts at time `at_ms` on a line whose logical
/// level over time is `signal`: one at once, one when the settle window is
/// over.
pub open spec fn sample_at(signal: spec_fn(int) -> bool, at_ms: int) -> Sample {
    Sample { pressed_now: signal(at_ms), settled: signal(at_ms + SETTLE_MS) }
}

/// The samples of the polls that start at the times `times_ms`.
pub open spec fn samples_at(signal: spec_fn(int) -> bool, times_ms: Seq<int>) -> Seq<Sample> {
    Seq::new(times_ms.len(), |i: int| sample_at(signal, times_ms[i]))
}

/// The confirmed level after the polls `polls`, taken in order from the
/// confirmed level `stable`.
pub open spec fn level_after(stable: bool, polls: Seq<Sample>) -> bool
    decreases polls.len(),
{
    if polls.len() == 0 {
        stable
    } else {
        poll_level(
            level_after(stable, polls.drop_last()),
            polls.last().pressed_now,
            polls.last().settled,
        )
    }
}

/// The event that poll number `i` of `polls` reports.
pub open spec fn event_at(stable: bool, polls: Seq<Sample>, i: int) -> Event {
    poll_event(level_after(stable, polls.take(i)), polls[i].pressed_now, polls[i].settled)
}

/// Debounce state of one physical switch: its last confirmed logical level.
#[derive(Clone, Copy, Debug)]
pub struct Button {
    pressed: bool,
}

impl Button {
    /// The last confirmed logical level: `true` while the switch counts as held.
    pub closed spec fn stable_pressed(&self) -> bool {
        self.pressed
    }

    /// A switch at rest: the confirmed level is "not held".
    pub fn new() -> (button: Button)
        ensures
            !button.stable_pressed(),
    {
        Button { pressed: false }
    }

    /// The last confirmed logical level.
    pub fn is_pressed(&self) -> (held: bool)
        ensures
            held == self.stable_pressed(),
    {
        self.pressed
    }

    /// Takes `level` as the confirmed level without reporting an event.
    pub fn check(&mut self, level: bool)
        ensures
            final(self).stable_pressed() == level,
    {
        self.pressed = level;
    }

    /// Says whether a poll that reads `pressed_now` has to wait for
    /// [`SETTLE_MS`] and sample the line again before it can decide.
    pub fn needs_settle(&self, pressed_now: bool) -> (wait: bool)
        ensures
            wait == edge_candidate(self.stable_pressed(), pressed_now),
    {
        self.pressed != pressed_now
    }

    /// One poll of the switch.
    ///
    /// `pressed_now` is the logical level at the moment of the poll and
    /// `settled` the level sampled after the settle window; `settled` is
    /// ignored unless `pressed_now` differs from the confirmed level. An edge
    /// that is still there after the window is committed and reported; one
    /// that is gone leaves the state as it was and reports nothing.
    pub fn poll(&mut self, pressed_now: bool, settled: bool) -> (event: Event)
        ensures
            event == poll_event(old(self).stable_pressed(), pressed_now, settled),
            final(self).stable_pressed() == poll_level(
                old(self).stable_pressed(),
                pressed_now,
                settled,
            ),
    {
        if !self.pressed && pressed_now {
            if settled {
                self.pressed = true;
                Event::Pressed
            } else {
                Event::Nothing
            }
        } else if self.pressed && !pressed_now {
            if !settled {
                self.pressed = false;
                Event::Released
            } else {
                Event::Nothing
            }
        } else {
            Event::Nothing
        }
    }
}

} // verus!
