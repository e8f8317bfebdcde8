//! Board peripherals: the beeper output and the key inputs.
pub mod beep;
pub mod key;
