//! Input engine for an EC11 rotary encoder with a push button.
//!
//! The engine turns raw samples of three digital inputs (the two quadrature
//! phases and the button) into one semantic event per scan tick: a click, a
//! double click, a rotation, or a rotation while the button is held.
//!
//! Nothing in this crate touches hardware. The caller samples the pins, reads
//! the clock and sleeps; the crate decides what those samples mean.
//!
//! - [`engine`] holds the state and the three steps of a tick: the rotation
//!   tracker, the press classifier and the event arbiter.
//! - [`tick`] puts the steps together into whole ticks, and ticks into runs.
//! - [`scanner`] is the scan loop as a step machine, for a caller that owns
//!   the pins.
//! - [`laws`] states and proves what holds of all of this.

use vstd::prelude::*;

pub mod level;
pub mod event;
pub mod engine;
pub mod tick;
pub mod scanner;
pub mod laws;

pub use crate::engine::Ec11Engine;
pub use crate::event::{
    Ec11Direction, Ec11Event, Ec11Moment, Ec11Position, Ec11PositionDelta, Ec11PressStatus,
    Ec11RotateStatus,
};
pub use crate::level::Level;
pub use crate::scanner::{Ec11Action, Ec11Reply, Ec11Scanner};
pub use crate::tick::Ec11Sample;

verus! {

/// The encoder service on a recording. Starts with phase A at `a` and the
/// button at `key`, at position 0 with nothing held, runs one tick for each
/// of `samples`, and returns what it published, in order.
pub fn ec11_service(a: Level, key: Level, samples: &Vec<Ec11Sample>) -> (sink: Vec<Ec11Event>)
    ensures
        sink@ == Ec11Engine::spec_new(a, key).run_published(samples@),
{
    let mut engine = Ec11Engine::new(a, key);
    let mut sink = Vec::new();
    engine.run(samples, &mut sink);
    sink
}

} // verus!
