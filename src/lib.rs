//! # Watch
//!
//! The logic of a low-power wristwatch built around an STM32L0x3 microcontroller:
//!
//! - state-tagged handles for the ADC, the RTC and the piezo buzzer, whose legal
//!   operations depend on the mode the peripheral is in;
//! - the conversion of raw ADC samples into millivolts and degrees Celsius;
//! - persistence of the ADC calibration factor in the RTC backup domain;
//! - the fixed-priority task set that reacts to the 1 Hz RTC tick and to button presses.
//!
//! Register access stays with the firmware that drives the hardware; every
//! function here works on plain values and is verified.

pub mod adc;
pub mod buzzer;
pub mod measurement;
pub mod power;
pub mod rtc;
pub mod scheduler;
pub mod segment;
pub mod system;

pub use adc::Adc;
pub use buzzer::Buzzer;
pub use rtc::Rtc;
pub use scheduler::Scheduler;
