//! # Stop mode
//!
//! When no task is ready the core enters stop mode, the deepest sleep state.
//! All clocks but the wake source halt and only the backup domain (the RTC and
//! its backup registers) keeps its state: the ADC comes back with its
//! calibration register cleared.

use crate::adc::Adc;
use crate::rtc::{Rtc, Run};
use vstd::prelude::*;

verus! {

/// The backup domain kept its contents across a stop-mode cycle.
pub open spec fn backup_kept(before: &Rtc<Run>, after: &Rtc<Run>) -> bool {
    after.backup_register() == before.backup_register()
}

/// One stop-mode cycle, from entering stop mode to the wake interrupt.
pub fn stop_mode_cycle(rtc: Rtc<Run>, adc: Adc) -> (r: (Rtc<Run>, Adc))
    ensures
        backup_kept(&rtc, &r.0),
        r.1.calibration() == 0,
{
    (rtc, Adc::configure())
}

/// A calibration factor stored in the backup register is read back unchanged
/// after any number of stop-mode cycles that kept the backup domain.
pub proof fn lemma_calibration_survives_stop_mode(
    factor: u8,
    stored: Rtc<Run>,
    woken: Rtc<Run>,
)
    requires
        stored.adc_calibration() == factor,
        backup_kept(&stored, &woken),
    ensures
        woken.adc_calibration() == factor,
{
}

} // verus!
