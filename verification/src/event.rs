//! The statuses derived within one scan tick and the events published from them.

use vstd::prelude::*;

verus! {

/// Cumulative encoder position since the engine was created. It wraps
/// silently at both ends of its range.
pub type Ec11Position = i32;

/// The contribution of one completed rotation step: `+1` or `-1`.
pub type Ec11PositionDelta = i8;

/// A moment of the monotonic clock, in nanoseconds since the scan began.
pub type Ec11Moment = u128;

/// Longest gap between a release and the next press for the two presses to
/// count as a double press, in nanoseconds.
pub const DOUBLE_PRESSED_DURATION: u128 = 200_000_000;

/// How long a changed level has to persist before it is accepted, in nanoseconds.
pub const SETTLE_DURATION: u64 = 1_000_000;

/// Pause between two scan ticks, in nanoseconds.
pub const TICK_DURATION: u64 = 1_000_000;

/// Direction of a rotation.
#[derive(Clone, Copy, Debug, PartialEq, Eq, Structural)]
pub enum Ec11Direction {
    /// Clockwise.
    Cw,
    /// Counter-clockwise.
    Ccw,
}

/// What a confirmed transition of phase A means for the rotation.
#[derive(Clone, Copy, Debug, PartialEq, Eq, Structural)]
pub enum Ec11RotateStatus {
    /// A clockwise step began.
    CwStart,
    /// A clockwise step completed.
    CwEnd,
    /// A counter-clockwise step began.
    CcwStart,
    /// A counter-clockwise step completed.
    CcwEnd,
}

/// What the button is doing in one tick.
#[derive(Clone, Copy, Debug, PartialEq, Eq, Structural)]
pub enum Ec11PressStatus {
    /// The button went down, or is being held down.
    Pressed,
    /// The button came up after a first press.
    Released,
    /// The button went down again shortly after a release.
    TwicePressed,
    /// The button came up after such a second press.
    TwiceReleased,
}

/// The outcome of one scan tick.
#[derive(Clone, Copy, Debug, PartialEq, Eq, Structural)]
pub enum Ec11Event {
    /// The button was pressed and released without a rotation in between.
    Clicked,
    /// The button was pressed and released twice in quick succession.
    DoubleClicked,
    /// A rotation step completed while the button was held. Carries the
    /// direction, the position after the step, and the step itself.
    ClickedRotate(Ec11Direction, Ec11Position, Ec11PositionDelta),
    /// A rotation step completed with the button up.
    Rotate(Ec11Direction, Ec11Position, Ec11PositionDelta),
    /// Nothing to report for this tick. Never published.
    Empty,
}

impl Ec11RotateStatus {
    /// Whether this status completes a step, and so moves the position.
    pub open spec fn is_end(self) -> bool {
        self is CwEnd || self is CcwEnd
    }

    /// The direction this status belongs to.
    pub open spec fn spec_direction(self) -> Ec11Direction {
        match self {
            Ec11RotateStatus::CwStart | Ec11RotateStatus::CwEnd => Ec11Direction::Cw,
            Ec11RotateStatus::CcwStart | Ec11RotateStatus::CcwEnd => Ec11Direction::Ccw,
        }
    }

    /// The direction this status belongs to.
    #[verifier::when_used_as_spec(spec_direction)]
    pub fn direction(self) -> (d: Ec11Direction)
        ensures
            d == self.spec_direction(),
    {
        match self {
            Ec11RotateStatus::CwStart | Ec11RotateStatus::CwEnd => Ec11Direction::Cw,
            Ec11RotateStatus::CcwStart | Ec11RotateStatus::CcwEnd => Ec11Direction::Ccw,
        }
    }
}

impl Ec11Direction {
    /// The step that one completed rotation in this direction adds to the
    /// position.
    pub open spec fn spec_delta(self) -> Ec11PositionDelta {
        match self {
            Ec11Direction::Cw => 1i8,
            Ec11Direction::Ccw => -1i8,
        }
    }

    /// The step that one completed rotation in this direction adds to the
    /// position.
    #[verifier::when_used_as_spec(spec_delta)]
    pub fn delta(self) -> (d: Ec11PositionDelta)
        ensures
            d == self.spec_delta(),
    {
        match self {
            Ec11Direction::Cw => 1,
            Ec11Direction::Ccw => -1,
        }
    }
}

impl Ec11Event {
    /// Whether this event is worth publishing, that is, anything but `Empty`.
    pub open spec fn spec_is_published(self) -> bool {
        !(self is Empty)
    }

    /// Whether this event is worth publishing, that is, anything but `Empty`.
    #[verifier::when_used_as_spec(spec_is_published)]
    pub fn is_published(self) -> (b: bool)
        ensures
            b == self.spec_is_published(),
    {
        match self {
            Ec11Event::Empty => false,
            _ => true,
        }
    }
}

} // verus!
