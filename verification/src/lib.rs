//! Verified logic of a set of STM32F407 board programs: blinking LEDs, a
//! key panel that toggles LEDs and a beeper, external-interrupt key events,
//! serial echo, ADC averaging and a breathing PWM ramp.
//!
//! Everything that touches the hardware (pins, timers, DMA, the serial port,
//! the executor) lives in the application around this crate; the library
//! holds the decisions, the arithmetic and the state machines, each with its
//! contract.
pub mod gpio;
pub mod timing;

pub mod adc;
pub mod blink;
pub mod echo;
pub mod exti;
pub mod key_panel;
pub mod peripherals;
pub mod pwm;
