use vstd::prelude::*;
use crate::gpio::Level;
use crate::timing::{millis_to_ticks, ticks_from_millis};

verus! {

/// Time each LED stays in one state, in milliseconds.
pub const HALF_PERIOD_MS: u64 = 500;

/// The LEDs are lit by a low output.
pub open spec fn led_level(lit: bool) -> Level {
    if lit {
        Level::Low
    } else {
        Level::High
    }
}

/// The output level that lights (or darkens) a low-active LED.
pub fn led_level_for(lit: bool) -> (r: Level)
    ensures
        r == led_level(lit),
{
    if lit {
        Level::Low
    } else {
        Level::High
    }
}

/// One half period of the blink: which LED is lit, and how long to hold.
pub struct BlinkAction {
    pub led0_lit: bool,
    pub led1_lit: bool,
    pub hold_ticks: u64,
}

/// The two LEDs blink in turn: first LED 0 is lit and LED 1 dark, then the
/// other way round.
pub struct Blinker {
    led0_turn: bool,
}

impl Blinker {
    /// Whether the next half period lights LED 0.
    pub closed spec fn led0_turn(&self) -> bool {
        self.led0_turn
    }

    /// A blinker that lights LED 0 first. Both LEDs start dark.
    pub fn new() -> (r: Self)
        ensures
            r.led0_turn(),
    {
        Blinker { led0_turn: true }
    }

    /// The next half period: the LED whose turn it is lit, the other dark,
    /// held for `HALF_PERIOD_MS`; then the turn passes to the other LED.
    pub fn step(&mut self) -> (r: BlinkAction)
        ensures
            r.led0_lit == old(self).led0_turn(),
            r.led1_lit == !old(self).led0_turn(),
            r.hold_ticks == ticks_from_millis(HALF_PERIOD_MS as nat),
            final(self).led0_turn() == !old(self).led0_turn(),
    {
        let hold_ticks = match millis_to_ticks(HALF_PERIOD_MS) {
            Some(t) => t,
            None => 0,
        };
        let action = BlinkAction {
            led0_lit: self.led0_turn,
            led1_lit: !self.led0_turn,
            hold_ticks,
        };
        self.led0_turn = !self.led0_turn;
        action
    }
}

/// In every half period the two LEDs are driven at different levels: one
/// lit, the other dark.
pub proof fn law_one_led_lit(led0_turn: bool)
    ensures
        led_level(led0_turn) != led_level(!led0_turn),
{
}

} // verus!
