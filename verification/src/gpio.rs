use vstd::prelude::*;

verus! {

/// Logic level of a digital pin.
#[derive(Clone, Copy, Debug, PartialEq, Eq, Structural)]
pub enum Level {
    Low,
    High,
}

/// Pull resistor configuration of an input pin.
#[derive(Clone, Copy, Debug, PartialEq, Eq, Structural)]
pub enum Pull {
    /// No pull resistor (embassy's `Pull::None`).
    NoPull,
    Up,
    Down,
}

/// The level that drives a pin high exactly when `high` holds.
pub open spec fn level_of(high: bool) -> Level {
    if high {
        Level::High
    } else {
        Level::Low
    }
}

} // verus!
