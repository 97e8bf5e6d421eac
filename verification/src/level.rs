//! Logic levels of a digital input.

use vstd::prelude::*;

verus! {

/// The level sampled on a digital input.
#[derive(Clone, Copy, Debug, PartialEq, Eq, Structural)]
pub enum Level {
    Low,
    High,
}

} // verus!
