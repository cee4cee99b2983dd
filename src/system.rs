//! # System configuration
//!
//! The system clock runs off the multispeed internal oscillator, set to 65.536 kHz.

use vstd::prelude::*;

verus! {

/// The system clock frequency (Hz)
pub const CLK_FREQ: usize = 65536;

} // verus!
