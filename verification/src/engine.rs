//! The engine state and the three per-tick steps that work on it: the
//! rotation tracker, the press classifier and the event arbiter.
//!
//! Every step is a total function of the state and of what was sampled. Its
//! meaning is given by a pair of spec functions, one for the state after the
//! step and one for what the step reports.

use vstd::prelude::*;
use crate::level::Level;
use crate::event::{
    Ec11Direction, Ec11Event, Ec11Moment, Ec11Position, Ec11PressStatus, Ec11RotateStatus,
    DOUBLE_PRESSED_DURATION,
};

verus! {

/// The integer `x` reduced into the range of a position, as two's complement
/// wrapping does it.
pub open spec fn wrap_position(x: int) -> Ec11Position {
    ((x + 0x8000_0000) % 0x1_0000_0000 - 0x8000_0000) as Ec11Position
}

/// Whether a change of level survives the settle delay: the first sample and
/// the sample taken after the delay both differ from the accepted level.
pub open spec fn spec_is_confirmed(accepted: Level, sample: Level, settled: Level) -> bool {
    sample != accepted && settled != accepted
}

/// The debounced edge detector. `sample` is the level just read, `settled`
/// the level read again after the settle delay, `accepted` the level the pin
/// was last accepted at. A change counts only if it is still there after the
/// delay; anything else is noise.
#[verifier::when_used_as_spec(spec_is_confirmed)]
pub fn is_confirmed(accepted: Level, sample: Level, settled: Level) -> (b: bool)
    ensures
        b == spec_is_confirmed(accepted, sample, settled),
{
    sample != accepted && settled != accepted
}

/// What a confirmed transition of phase A to level `a` means, given the level
/// `b` of phase B at that instant. Phase A acts as the clock and phase B as
/// the data line: a falling A begins a step, a rising A completes it, and B
/// tells the direction.
pub open spec fn spec_decode_rotation(a: Level, b: Level) -> Ec11RotateStatus {
    match (a, b) {
        (Level::Low, Level::High) => Ec11RotateStatus::CwStart,
        (Level::Low, Level::Low) => Ec11RotateStatus::CcwStart,
        (Level::High, Level::Low) => Ec11RotateStatus::CwEnd,
        (Level::High, Level::High) => Ec11RotateStatus::CcwEnd,
    }
}

/// Decodes a confirmed transition of phase A to level `a`, with phase B at
/// level `b`.
#[verifier::when_used_as_spec(spec_decode_rotation)]
pub fn decode_rotation(a: Level, b: Level) -> (status: Ec11RotateStatus)
    ensures
        status == spec_decode_rotation(a, b),
{
    match a {
        Level::Low => match b {
            Level::High => Ec11RotateStatus::CwStart,
            Level::Low => Ec11RotateStatus::CcwStart,
        },
        Level::High => match b {
            Level::Low => Ec11RotateStatus::CwEnd,
            Level::High => Ec11RotateStatus::CcwEnd,
        },
    }
}

/// The position after a rotation status: one more after a clockwise end, one
/// less after a counter-clockwise end, unchanged after a start.
pub open spec fn position_after(position: Ec11Position, status: Ec11RotateStatus) -> Ec11Position {
    match status {
        Ec11RotateStatus::CwEnd => wrap_position(position + 1),
        Ec11RotateStatus::CcwEnd => wrap_position(position - 1),
        _ => position,
    }
}

/// Whether a press at `now` comes soon enough after the release at
/// `released` to count as the second press of a double press. With no
/// release on record there is nothing to be second to.
pub open spec fn spec_is_double_press(released: Option<Ec11Moment>, now: Ec11Moment) -> bool {
    released matches Some(t) && now - t <= DOUBLE_PRESSED_DURATION
}

/// Whether a press at `now` is the second press of a double press, given the
/// moment of the last first release.
#[verifier::when_used_as_spec(spec_is_double_press)]
pub fn is_double_press(released: Option<Ec11Moment>, now: Ec11Moment) -> (b: bool)
    ensures
        b == spec_is_double_press(released, now),
{
    match released {
        Some(t) => now <= t || now - t <= DOUBLE_PRESSED_DURATION,
        None => false,
    }
}

/// The event for one tick, from the two statuses of that tick, the position
/// after the tick's rotation, and whether a rotation happened during the
/// current hold.
pub open spec fn spec_combine(
    rotate: Option<Ec11RotateStatus>,
    press: Option<Ec11PressStatus>,
    position: Ec11Position,
    rotated_while_held: bool,
) -> Ec11Event {
    match (rotate, press) {
        (None, Some(Ec11PressStatus::Released)) => if rotated_while_held {
            Ec11Event::Empty
        } else {
            Ec11Event::Clicked
        },
        (None, Some(Ec11PressStatus::TwiceReleased)) => Ec11Event::DoubleClicked,
        (Some(Ec11RotateStatus::CwEnd), None) => Ec11Event::Rotate(Ec11Direction::Cw, position, 1i8),
        (Some(Ec11RotateStatus::CcwEnd), None) => Ec11Event::Rotate(
            Ec11Direction::Ccw,
            position,
            -1i8,
        ),
        (Some(Ec11RotateStatus::CwEnd), Some(Ec11PressStatus::Pressed)) => Ec11Event::ClickedRotate(
            Ec11Direction::Cw,
            position,
            1i8,
        ),
        (Some(Ec11RotateStatus::CcwEnd), Some(Ec11PressStatus::Pressed)) => Ec11Event::ClickedRotate(
            Ec11Direction::Ccw,
            position,
            -1i8,
        ),
        _ => Ec11Event::Empty,
    }
}

/// Everything the engine remembers from one tick to the next.
#[derive(Clone, Copy, Debug, PartialEq, Eq)]
pub struct Ec11Engine {
    /// The level phase A was last accepted at.
    pub a_previous: Level,
    /// The level the button was last accepted at. The button is active low.
    pub key_previous: Level,
    /// The running position.
    pub position: Ec11Position,
    /// When the button was last released after a first press, if ever.
    pub first_released_moment: Option<Ec11Moment>,
    /// Whether the button is down.
    pub is_held: bool,
    /// Whether phase A moved during the current hold.
    pub rotated_while_held: bool,
    /// Whether the current hold is the second press of a double press.
    pub is_second_press: bool,
}

impl Ec11Engine {
    /// What holds of the state between ticks: a held button was accepted low,
    /// and the two flags that describe a hold are set only during one.
    pub open spec fn inv(self) -> bool {
        &&& self.is_held ==> self.key_previous is Low
        &&& self.is_second_press ==> self.is_held
        &&& self.rotated_while_held ==> self.is_held
    }

    /// The state at the start of a scan.
    pub open spec fn spec_new(a: Level, key: Level) -> Ec11Engine {
        Ec11Engine {
            a_previous: a,
            key_previous: key,
            position: 0,
            first_released_moment: None,
            is_held: false,
            rotated_while_held: false,
            is_second_press: false,
        }
    }

    /// An engine at position 0 with nothing held, given the levels that phase
    /// A and the button are at when the scan starts.
    #[verifier::when_used_as_spec(spec_new)]
    pub fn new(a: Level, key: Level) -> (engine: Ec11Engine)
        ensures
            engine == Ec11Engine::spec_new(a, key),
            engine.inv(),
    {
        Ec11Engine {
            a_previous: a,
            key_previous: key,
            position: 0,
            first_released_moment: None,
            is_held: false,
            rotated_while_held: false,
            is_second_press: false,
        }
    }

    /// The rotation status of a tick in which phase A was sampled at `a`,
    /// then at `a_settled` after the settle delay, with phase B at `b`.
    pub open spec fn rotation(self, a: Level, a_settled: Level, b: Level) -> Option<
        Ec11RotateStatus,
    > {
        if spec_is_confirmed(self.a_previous, a, a_settled) {
            Some(spec_decode_rotation(a_settled, b))
        } else {
            None
        }
    }

    /// The state after the rotation tracker has seen those samples.
    pub open spec fn after_rotation(self, a: Level, a_settled: Level, b: Level) -> Ec11Engine {
        if spec_is_confirmed(self.a_previous, a, a_settled) {
            Ec11Engine {
                a_previous: a_settled,
                position: position_after(self.position, spec_decode_rotation(a_settled, b)),
                ..self
            }
        } else {
            self
        }
    }

    /// The quadrature rotation tracker. Debounces phase A and, if its
    /// transition is confirmed, accepts the new level, decodes the transition
    /// against phase B and moves the position on a completed step. Noise
    /// changes nothing and reports nothing.
    pub fn scan_rotation(&mut self, a: Level, a_settled: Level, b: Level) -> (status: Option<
        Ec11RotateStatus,
    >)
        ensures
            status == old(self).rotation(a, a_settled, b),
            *final(self) == old(self).after_rotation(a, a_settled, b),
    {
        if !is_confirmed(self.a_previous, a, a_settled) {
            return None;
        }
        self.a_previous = a_settled;
        let status = decode_rotation(a_settled, b);
        match status {
            Ec11RotateStatus::CwEnd => {
                self.position = self.position.wrapping_add(1);
            },
            Ec11RotateStatus::CcwEnd => {
                self.position = self.position.wrapping_sub(1);
            },
            _ => {},
        }
        Some(status)
    }

    /// The press status of a tick in which the button was sampled at `key`,
    /// then at `key_settled` after the settle delay, with the clock at `now`.
    /// A button that is held and did not move still reports `Pressed`.
    pub open spec fn press(self, key: Level, key_settled: Level, now: Ec11Moment) -> Option<
        Ec11PressStatus,
    > {
        if spec_is_confirmed(self.key_previous, key, key_settled) {
            if key_settled is Low {
                if spec_is_double_press(self.first_released_moment, now) {
                    Some(Ec11PressStatus::TwicePressed)
                } else {
                    Some(Ec11PressStatus::Pressed)
                }
            } else {
                if self.is_second_press {
                    Some(Ec11PressStatus::TwiceReleased)
                } else {
                    Some(Ec11PressStatus::Released)
                }
            }
        } else if self.is_held {
            Some(Ec11PressStatus::Pressed)
        } else {
            None
        }
    }

    /// The state after the press classifier has seen those samples.
    pub open spec fn after_press(self, key: Level, key_settled: Level, now: Ec11Moment) -> Ec11Engine {
        if spec_is_confirmed(self.key_previous, key, key_settled) {
            if key_settled is Low {
                Ec11Engine {
                    key_previous: key_settled,
                    is_held: true,
                    is_second_press: self.is_second_press || spec_is_double_press(
                        self.first_released_moment,
                        now,
                    ),
                    ..self
                }
            } else {
                Ec11Engine {
                    key_previous: key_settled,
                    is_held: false,
                    is_second_press: false,
                    first_released_moment: if self.is_second_press {
                        self.first_released_moment
                    } else {
                        Some(now)
                    },
                    ..self
                }
            }
        } else {
            self
        }
    }

    /// The press classifier. Debounces the button and, if its transition is
    /// confirmed, accepts the new level and classifies it: going low is a
    /// press, or a second press if it follows the last first release closely
    /// enough; going high is a release, of the kind that matches the press.
    /// A first release records `now` for the next press to be measured
    /// against. Without a confirmed transition the state stays as it is and
    /// the report is `Pressed` for as long as the button is held.
    pub fn scan_press(&mut self, key: Level, key_settled: Level, now: Ec11Moment) -> (status:
        Option<Ec11PressStatus>)
        ensures
            status == old(self).press(key, key_settled, now),
            *final(self) == old(self).after_press(key, key_settled, now),
    {
        if !is_confirmed(self.key_previous, key, key_settled) {
            return if self.is_held {
                Some(Ec11PressStatus::Pressed)
            } else {
                None
            };
        }
        self.key_previous = key_settled;
        match key_settled {
            Level::Low => {
                self.is_held = true;
                if is_double_press(self.first_released_moment, now) {
                    self.is_second_press = true;
                    Some(Ec11PressStatus::TwicePressed)
                } else {
                    Some(Ec11PressStatus::Pressed)
                }
            },
            Level::High => {
                self.is_held = false;
                if self.is_second_press {
                    self.is_second_press = false;
                    Some(Ec11PressStatus::TwiceReleased)
                } else {
                    self.first_released_moment = Some(now);
                    Some(Ec11PressStatus::Released)
                }
            },
        }
    }

    /// Whether a rotation counts as having happened during the current hold,
    /// once this tick's rotation status is taken into account.
    pub open spec fn rotated_in_hold(self, rotate: Option<Ec11RotateStatus>) -> bool {
        self.rotated_while_held || (self.is_held && rotate is Some)
    }

    /// The event the arbiter makes of the two statuses of a tick.
    pub open spec fn arbitration(
        self,
        rotate: Option<Ec11RotateStatus>,
        press: Option<Ec11PressStatus>,
    ) -> Ec11Event {
        spec_combine(rotate, press, self.position, self.rotated_in_hold(rotate))
    }

    /// The state after the arbiter has combined the two statuses.
    pub open spec fn after_arbitration(
        self,
        rotate: Option<Ec11RotateStatus>,
        press: Option<Ec11PressStatus>,
    ) -> Ec11Engine {
        Ec11Engine {
            rotated_while_held: match press {
                Some(Ec11PressStatus::Released) | Some(Ec11PressStatus::TwiceReleased) => false,
                _ => self.rotated_in_hold(rotate),
            },
            ..self
        }
    }

    /// The event arbiter. Takes the rotation status and the press status of
    /// one tick, after the tracker and the classifier have updated the state,
    /// and makes one event of them. A rotation status during a hold is
    /// remembered until the release, so that the release that ends such a
    /// hold is not taken for a click. Combinations with no meaning of their
    /// own give `Empty`.
    pub fn arbitrate(
        &mut self,
        rotate: Option<Ec11RotateStatus>,
        press: Option<Ec11PressStatus>,
    ) -> (event: Ec11Event)
        ensures
            event == old(self).arbitration(rotate, press),
            *final(self) == old(self).after_arbitration(rotate, press),
    {
        if self.is_held && rotate.is_some() {
            self.rotated_while_held = true;
        }
        let event = match rotate {
            None => match press {
                Some(Ec11PressStatus::Released) => {
                    if self.rotated_while_held {
                        Ec11Event::Empty
                    } else {
                        Ec11Event::Clicked
                    }
                },
                Some(Ec11PressStatus::TwiceReleased) => Ec11Event::DoubleClicked,
                _ => Ec11Event::Empty,
            },
            Some(status) => match status {
                Ec11RotateStatus::CwEnd | Ec11RotateStatus::CcwEnd => {
                    let direction = status.direction();
                    match press {
                        None => Ec11Event::Rotate(direction, self.position, direction.delta()),
                        Some(Ec11PressStatus::Pressed) => Ec11Event::ClickedRotate(
                            direction,
                            self.position,
                            direction.delta(),
                        ),
                        _ => Ec11Event::Empty,
                    }
                },
                _ => Ec11Event::Empty,
            },
        };
        match press {
            Some(Ec11PressStatus::Released) | Some(Ec11PressStatus::TwiceReleased) => {
                self.rotated_while_held = false;
            },
            _ => {},
        }
        event
    }
}

} // verus!
