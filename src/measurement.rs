//! Engineering units for the ADC's samples.

use crate::adc::{celsius, millivolts, temperature_c, voltage_mv, FactoryCalibration};
use vstd::prelude::*;

verus! {

/// An ADC temperature reading, in degrees Celsius
pub struct Temperature(i32);

impl Temperature {
    pub closed spec fn celsius(&self) -> i32 {
        self.0
    }

    /// Convert the raw ADC reading into degrees C
    pub fn from_raw(raw: u16, cal: &FactoryCalibration) -> (r: Temperature)
        requires
            cal.wf(),
        ensures
            r.celsius() == celsius(cal.ts_cal1 as int, cal.ts_cal2 as int, raw as int),
    {
        Temperature(temperature_c(cal.ts_cal1, cal.ts_cal2, raw))
    }

    /// The temperature in degrees Celsius
    pub fn value(&self) -> (r: i32)
        ensures
            r == self.celsius(),
    {
        self.0
    }
}

impl Default for Temperature {
    fn default() -> (r: Temperature)
        ensures
            r.celsius() == 0,
    {
        Temperature(0)
    }
}

/// An ADC voltage reading, in millivolts
pub struct Voltage(u32);

impl Voltage {
    pub closed spec fn millivolts(&self) -> u32 {
        self.0
    }

    /// Convert the raw VREFINT reading into millivolts
    pub fn from_raw(raw: u16, cal: &FactoryCalibration) -> (r: Voltage)
        requires
            raw != 0,
        ensures
            r.millivolts() == millivolts(cal.vrefint_cal as int, raw as int),
    {
        Voltage(voltage_mv(cal.vrefint_cal, raw))
    }

    /// The voltage in millivolts
    pub fn value(&self) -> (r: u32)
        ensures
            r == self.millivolts(),
    {
        self.0
    }
}

impl Default for Voltage {
    fn default() -> (r: Voltage)
        ensures
            r.millivolts() == 0,
    {
        Voltage(0)
    }
}

} // verus!
