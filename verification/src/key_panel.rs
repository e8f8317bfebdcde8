use vstd::prelude::*;
use crate::gpio::Level;

verus! {

/// Which keys read as pressed in one poll. The keys pull up, so a pressed
/// key reads low.
#[derive(Clone, Copy, Debug, PartialEq, Eq, Structural)]
pub struct KeyPresses {
    pub up: bool,
    pub key1: bool,
    pub key2: bool,
    pub key3: bool,
}

/// Whether the beeper and the two LEDs are switched on.
#[derive(Clone, Copy, Debug, PartialEq, Eq, Structural)]
pub struct Indicators {
    pub beep: bool,
    pub led0: bool,
    pub led1: bool,
}

/// The state after one poll: the up key toggles the beeper, key 1 toggles
/// LED 0, key 2 toggles LED 1 and key 3 toggles both LEDs.
pub open spec fn updated(s: Indicators, p: KeyPresses) -> Indicators {
    Indicators {
        beep: s.beep != p.up,
        led0: s.led0 != (p.key1 != p.key3),
        led1: s.led1 != (p.key2 != p.key3),
    }
}

impl KeyPresses {
    /// The presses read from the four keys' levels: a key is pressed when
    /// its input is low.
    pub fn from_levels(up: Level, key1: Level, key2: Level, key3: Level) -> (r: Self)
        ensures
            r.up == (up == Level::Low),
            r.key1 == (key1 == Level::Low),
            r.key2 == (key2 == Level::Low),
            r.key3 == (key3 == Level::Low),
    {
        KeyPresses {
            up: up == Level::Low,
            key1: key1 == Level::Low,
            key2: key2 == Level::Low,
            key3: key3 == Level::Low,
        }
    }

    /// No key pressed.
    pub open spec fn none() -> Self {
        KeyPresses { up: false, key1: false, key2: false, key3: false }
    }
}

impl Indicators {
    /// At start-up both LEDs are on and the beeper is off.
    pub fn initial() -> (r: Self)
        ensures
            r == (Indicators { beep: false, led0: true, led1: true }),
    {
        Indicators { beep: false, led0: true, led1: true }
    }

    /// Applies one poll of the keys, in the order the panel checks them.
    pub fn update(self, p: KeyPresses) -> (r: Self)
        ensures
            r == updated(self, p),
            r.beep == (self.beep != p.up),
            r.led0 == (self.led0 != (p.key1 != p.key3)),
            r.led1 == (self.led1 != (p.key2 != p.key3)),
    {
        let mut beep = self.beep;
        let mut led0 = self.led0;
        let mut led1 = self.led1;
        if p.up {
            beep = !beep;
        }
        if p.key1 {
            led0 = !led0;
        }
        if p.key2 {
            led1 = !led1;
        }
        if p.key3 {
            led0 = !led0;
            led1 = !led1;
        }
        Indicators { beep, led0, led1 }
    }
}

/// A poll with no key pressed leaves the state unchanged.
pub proof fn law_no_press_keeps_state(s: Indicators)
    ensures
        updated(s, KeyPresses::none()) == s,
{
}

/// The same presses applied twice restore the state: every key toggles.
pub proof fn law_presses_are_toggles(s: Indicators, p: KeyPresses)
    ensures
        updated(updated(s, p), p) == s,
{
}

/// The order of two polls does not matter.
pub proof fn law_polls_commute(s: Indicators, p: KeyPresses, q: KeyPresses)
    ensures
        updated(updated(s, p), q) == updated(updated(s, q), p),
{
}

/// Key 3 alone acts as keys 1 and 2 together, and with key 1 and key 2 it
/// cancels their effect on the LEDs.
pub proof fn law_key3_is_key1_and_key2(s: Indicators, up: bool)
    ensures
        updated(s, KeyPresses { up, key1: false, key2: false, key3: true })
            == updated(s, KeyPresses { up, key1: true, key2: true, key3: false }),
        updated(s, KeyPresses { up, key1: true, key2: true, key3: true })
            == updated(s, KeyPresses { up, key1: false, key2: false, key3: false }),
{
}

/// Each key acts on its own outputs whatever the other keys do: flipping
/// the up key in a poll flips the beeper and leaves both LEDs as they were;
/// flipping key 1 flips LED 0 only; flipping key 2 flips LED 1 only; flipping
/// key 3 flips both LEDs and leaves the beeper.
pub proof fn law_keys_act_independently(s: Indicators, p: KeyPresses)
    ensures
        updated(s, KeyPresses { up: !p.up, ..p }).beep != updated(s, p).beep,
        updated(s, KeyPresses { up: !p.up, ..p }).led0 == updated(s, p).led0,
        updated(s, KeyPresses { up: !p.up, ..p }).led1 == updated(s, p).led1,
        updated(s, KeyPresses { key1: !p.key1, ..p }).led0 != updated(s, p).led0,
        updated(s, KeyPresses { key1: !p.key1, ..p }).led1 == updated(s, p).led1,
        updated(s, KeyPresses { key1: !p.key1, ..p }).beep == updated(s, p).beep,
        updated(s, KeyPresses { key2: !p.key2, ..p }).led1 != updated(s, p).led1,
        updated(s, KeyPresses { key2: !p.key2, ..p }).led0 == updated(s, p).led0,
        updated(s, KeyPresses { key2: !p.key2, ..p }).beep == updated(s, p).beep,
        updated(s, KeyPresses { key3: !p.key3, ..p }).led0 != updated(s, p).led0,
        updated(s, KeyPresses { key3: !p.key3, ..p }).led1 != updated(s, p).led1,
        updated(s, KeyPresses { key3: !p.key3, ..p }).beep == updated(s, p).beep,
{
}

/// A poll changes an output exactly when an odd number of the keys acting on
/// it are pressed: the beeper changes iff the up key is pressed, LED 0 iff
/// exactly one of keys 1 and 3 is, LED 1 iff exactly one of keys 2 and 3 is.
pub proof fn law_output_changes_by_parity(s: Indicators, p: KeyPresses)
    ensures
        (updated(s, p).beep != s.beep) == p.up,
        (updated(s, p).led0 != s.led0) == (p.key1 != p.key3),
        (updated(s, p).led1 != s.led1) == (p.key2 != p.key3),
{
}

} // verus!
