use vstd::prelude::*;
use crate::gpio::{Level, Pull};

verus! {

/// A key wired to an input pin with the given pull resistor. Its state is
/// read from the level of the pin.
pub struct Key {
    pull: Pull,
}

impl Key {
    /// The pull resistor the key's input is configured with.
    pub closed spec fn pull_spec(&self) -> Pull {
        self.pull
    }

    /// A key whose input uses the pull resistor `initial_value`.
    pub fn new(initial_value: Pull) -> (r: Self)
        ensures
            r.pull_spec() == initial_value,
    {
        Key { pull: initial_value }
    }

    /// The pull resistor the key's input is configured with.
    pub fn pull(&self) -> (r: Pull)
        ensures
            r == self.pull_spec(),
    {
        self.pull
    }

    /// Whether the key's input reads high.
    pub fn is_up(&self, level: Level) -> (r: bool)
        ensures
            r == (level == Level::High),
    {
        level == Level::High
    }

    /// Whether the key's input reads low.
    pub fn is_down(&self, level: Level) -> (r: bool)
        ensures
            r == (level == Level::Low),
    {
        level == Level::Low
    }
}

/// A key is down exactly when it is not up.
pub proof fn law_down_iff_not_up(level: Level)
    ensures
        (level == Level::Low) == !(level == Level::High),
{
}

} // verus!
