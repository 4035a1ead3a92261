//! Servo PWM driver for the 16-bit timer/counters of an AVR microcontroller.
//!
//! The library maps a shaft angle onto the output-compare value of a timer
//! running a 50 Hz PWM period, under two clock-prescale regimes, and keeps a
//! register-level model of each timer so that every register write it makes
//! is stated and proved.

pub mod max7219;
pub mod servo;
pub mod timer;
pub mod timing;
