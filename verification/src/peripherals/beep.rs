use vstd::prelude::*;
use crate::gpio::{Level, level_of};

verus! {

/// The beeper, driven by a push-pull output: it sounds while the output is
/// high. The struct holds the level the output is driven at.
pub struct Beep {
    level: Level,
}

impl Beep {
    /// The level the beeper's output is driven at.
    pub closed spec fn driven(&self) -> Level {
        self.level
    }

    /// A beeper whose output starts high when `enable` holds, low otherwise.
    pub fn new(enable: bool) -> (r: Self)
        ensures
            r.driven() == level_of(enable),
    {
        Beep {
            level: if enable {
                Level::High
            } else {
                Level::Low
            },
        }
    }

    /// Drives the output high.
    pub fn enable(&mut self)
        ensures
            final(self).driven() == Level::High,
    {
        self.level = Level::High;
    }

    /// Drives the output low.
    pub fn disable(&mut self)
        ensures
            final(self).driven() == Level::Low,
    {
        self.level = Level::Low;
    }

    /// The level to put on the output pin.
    pub fn level(&self) -> (r: Level)
        ensures
            r == self.driven(),
    {
        self.level
    }
}

} // verus!
