//! # Analogue to digital converter (ADC)
//!
//! The ADC reads the internal reference voltage (VREFINT) and the temperature
//! sensor back to back in one conversion sequence.
//!
//! ## Calibrating
//!
//! The ADC's self-calibration produces an 8-bit factor. The ADC's own
//! calibration register does not survive a disable/enable cycle, so the factor
//! is persisted in the RTC backup register and re-applied before each
//! measurement.

use crate::rtc::Rtc;
use vstd::prelude::*;

verus! {

/// Reference voltage (mV) at which the factory measured `VREFINT_CAL`.
pub const VREFINT_CAL_VREF: u32 = 3000;

/// Temperature (°C) of the first factory calibration point.
pub const TS_CAL1_TEMP: u32 = 30;

/// Temperature (°C) of the second factory calibration point.
pub const TS_CAL2_TEMP: u32 = 130;

/// Supply voltage in millivolts for a VREFINT sample: `3000 * vrefint_cal / vrefint`,
/// with floor division.
pub open spec fn millivolts(vrefint_cal: int, vrefint: int) -> int {
    (VREFINT_CAL_VREF * vrefint_cal) / vrefint
}

/// Gradient (°C per ADC step) between the two factory calibration points,
/// truncated to an integer.
pub open spec fn gradient(ts_cal1: int, ts_cal2: int) -> int {
    (TS_CAL2_TEMP - TS_CAL1_TEMP) / (ts_cal2 - ts_cal1)
}

/// Temperature in degrees Celsius for a temperature-sensor sample:
/// `gradient * (raw - ts_cal1) + 30`.
pub open spec fn celsius(ts_cal1: int, ts_cal2: int, raw: int) -> int {
    gradient(ts_cal1, ts_cal2) * (raw - ts_cal1) + TS_CAL1_TEMP
}

/// Factory calibration values, read from system memory by the firmware.
pub struct FactoryCalibration {
    /// VREFINT sample taken at 3.0 V
    pub vrefint_cal: u16,
    /// Temperature sensor sample taken at 30 °C
    pub ts_cal1: u16,
    /// Temperature sensor sample taken at 130 °C
    pub ts_cal2: u16,
}

impl FactoryCalibration {
    /// The temperature points are usable: the sensor rises from the first to the second.
    pub open spec fn wf(&self) -> bool {
        self.ts_cal1 < self.ts_cal2
    }
}

/// The results of an ADC measurement
pub struct AdcMeasurement {
    vrefint: u16,
    tsense: u16,
}

impl AdcMeasurement {
    /// A measurement from a VREFINT sample and a temperature-sensor sample.
    pub fn new(vrefint: u16, tsense: u16) -> (r: AdcMeasurement)
        ensures
            r.vrefint() == vrefint,
            r.tsense() == tsense,
    {
        AdcMeasurement { vrefint, tsense }
    }

    pub closed spec fn vrefint(&self) -> u16 {
        self.vrefint
    }

    pub closed spec fn tsense(&self) -> u16 {
        self.tsense
    }

    /// The raw VREFINT sample
    pub fn vrefint_raw(&self) -> (r: u16)
        ensures
            r == self.vrefint(),
    {
        self.vrefint
    }

    /// The raw temperature sensor sample
    pub fn tsense_raw(&self) -> (r: u16)
        ensures
            r == self.tsense(),
    {
        self.tsense
    }

    /// Get the battery voltage in millivolts
    pub fn voltage(&self, cal: &FactoryCalibration) -> (r: u32)
        requires
            self.vrefint() != 0,
        ensures
            r == millivolts(cal.vrefint_cal as int, self.vrefint() as int),
    {
        voltage_mv(cal.vrefint_cal, self.vrefint)
    }

    /// Get the temperature in degrees celsius
    pub fn temperature(&self, cal: &FactoryCalibration) -> (r: i32)
        requires
            cal.wf(),
        ensures
            r == celsius(cal.ts_cal1 as int, cal.ts_cal2 as int, self.tsense() as int),
    {
        temperature_c(cal.ts_cal1, cal.ts_cal2, self.tsense)
    }
}

/// Supply voltage in millivolts for a VREFINT sample.
pub fn voltage_mv(vrefint_cal: u16, vrefint: u16) -> (r: u32)
    requires
        vrefint != 0,
    ensures
        r == millivolts(vrefint_cal as int, vrefint as int),
{
    (VREFINT_CAL_VREF * vrefint_cal as u32) / (vrefint as u32)
}

/// Temperature in degrees Celsius for a temperature-sensor sample.
pub fn temperature_c(ts_cal1: u16, ts_cal2: u16, raw: u16) -> (r: i32)
    requires
        ts_cal1 < ts_cal2,
    ensures
        r == celsius(ts_cal1 as int, ts_cal2 as int, raw as int),
{
    let g: u32 = (TS_CAL2_TEMP - TS_CAL1_TEMP) / ((ts_cal2 - ts_cal1) as u32);
    assert(g <= 100);
    let delta: i32 = raw as i32 - ts_cal1 as i32;
    assert(-6553500 <= g * delta <= 6553500) by (nonlinear_arith)
        requires
            g <= 100,
            -65535 <= delta <= 65535,
    ;
    (g as i32) * delta + TS_CAL1_TEMP as i32
}

/// The ADC's modes.
#[derive(Clone, Copy, Debug, PartialEq, Eq, Structural)]
pub enum AdcMode {
    Disabled,
    Enabled,
}

/// The operations of an ADC handle.
#[derive(Clone, Copy, Debug, PartialEq, Eq, Structural)]
pub enum AdcOp {
    Enable,
    Disable,
    Calibrate,
    Measure,
}

/// Which operations each mode allows: self-calibration and enabling only while
/// disabled, measuring and disabling only while enabled.
pub open spec fn adc_allowed(mode: AdcMode, op: AdcOp) -> bool {
    match op {
        AdcOp::Enable => mode == AdcMode::Disabled,
        AdcOp::Calibrate => mode == AdcMode::Disabled,
        AdcOp::Disable => mode == AdcMode::Enabled,
        AdcOp::Measure => mode == AdcMode::Enabled,
    }
}

/// The mode after an allowed operation.
pub open spec fn adc_next(mode: AdcMode, op: AdcOp) -> AdcMode {
    match op {
        AdcOp::Enable => AdcMode::Enabled,
        AdcOp::Disable => AdcMode::Disabled,
        _ => mode,
    }
}

/// # ADC
///
/// The disabled ADC. The handle keeps the ADC's own calibration register, which
/// does not survive a disable/enable cycle.
pub struct Adc {
    calfact: u8,
}

impl Adc {
    pub open spec fn mode(&self) -> AdcMode {
        AdcMode::Disabled
    }

    /// Contents of the ADC's calibration register.
    pub closed spec fn calibration(&self) -> u8 {
        self.calfact
    }

    /// Configure the ADC to sample VREFINT and the temperature sensor. The
    /// calibration register holds its reset value.
    pub fn configure() -> (r: Adc)
        ensures
            r.calibration() == 0,
    {
        Adc { calfact: 0 }
    }

    /// Enable the ADC: the references and the conversion block are powered and
    /// the ready flag has been seen. The calibration register starts cleared.
    pub fn enabled(self) -> (r: Enabled)
        ensures
            adc_allowed(self.mode(), AdcOp::Enable),
            r.mode() == adc_next(self.mode(), AdcOp::Enable),
            r.calibration() == 0,
    {
        Enabled { calfact: 0 }
    }

    /// Record a completed self-calibration: `factor` is what the calibration
    /// left in the calibration register. It is persisted in the RTC backup
    /// register.
    pub fn calibrate<S>(&mut self, factor: u8, rtc: &mut Rtc<S>)
        ensures
            adc_allowed(old(self).mode(), AdcOp::Calibrate),
            final(self).calibration() == factor,
            final(rtc).adc_calibration() == factor,
    {
        self.calfact = factor;
        rtc.set_adc_calibration(factor);
    }

    /// Contents of the ADC's calibration register.
    pub fn calibration_factor(&self) -> (r: u8)
        ensures
            r == self.calibration(),
    {
        self.calfact
    }
}

/// ADC enabled implementation
pub struct Enabled {
    calfact: u8,
}

/// A conversion sequence that may start: the calibration factor to write to the
/// ADC's calibration register before it does.
pub struct Conversion {
    calfact: u8,
}

impl Conversion {
    pub closed spec fn calibration(&self) -> u8 {
        self.calfact
    }

    /// The factor to write to the calibration register.
    pub fn calibration_factor(&self) -> (r: u8)
        ensures
            r == self.calibration(),
    {
        self.calfact
    }

    /// The sequence is over: VREFINT was converted first, then the temperature sensor.
    pub fn complete(self, vrefint: u16, tsense: u16) -> (r: AdcMeasurement)
        ensures
            r.vrefint() == vrefint,
            r.tsense() == tsense,
    {
        AdcMeasurement::new(vrefint, tsense)
    }
}

impl Enabled {
    pub open spec fn mode(&self) -> AdcMode {
        AdcMode::Enabled
    }

    /// Contents of the ADC's calibration register.
    pub closed spec fn calibration(&self) -> u8 {
        self.calfact
    }

    /// Apply the calibration stored in the RTC backup register
    fn apply_calibration<S>(&mut self, rtc: &Rtc<S>)
        ensures
            final(self).calibration() == rtc.adc_calibration(),
    {
        self.calfact = rtc.get_adc_calibration();
    }

    /// Perform a measurement: reload the persisted calibration factor, then
    /// convert VREFINT and the temperature sensor in one sequence.
    pub fn measure<S>(&mut self, rtc: &Rtc<S>) -> (r: Conversion)
        ensures
            adc_allowed(old(self).mode(), AdcOp::Measure),
            final(self).calibration() == rtc.adc_calibration(),
            r.calibration() == rtc.adc_calibration(),
    {
        self.apply_calibration(rtc);
        Conversion { calfact: self.calfact }
    }

    /// Disable the ADC: references off, conversion block powered down. The
    /// calibration register is lost.
    pub fn disable(self) -> (r: Adc)
        ensures
            adc_allowed(self.mode(), AdcOp::Disable),
            r.mode() == adc_next(self.mode(), AdcOp::Disable),
            r.calibration() == 0,
    {
        Adc { calfact: 0 }
    }

    /// Contents of the ADC's calibration register.
    pub fn calibration_factor(&self) -> (r: u8)
        ensures
            r == self.calibration(),
    {
        self.calfact
    }
}

/// At the first calibration point the reading is exactly 30 °C.
pub proof fn lemma_temperature_at_first_point(ts_cal1: u16, ts_cal2: u16)
    requires
        ts_cal1 < ts_cal2,
    ensures
        celsius(ts_cal1 as int, ts_cal2 as int, ts_cal1 as int) == 30,
{
}

/// At the second calibration point the reading is exactly 130 °C whenever the
/// truncated gradient is exact, that is when the distance between the two
/// points divides 100.
pub proof fn lemma_temperature_at_second_point(ts_cal1: u16, ts_cal2: u16)
    requires
        ts_cal1 < ts_cal2,
        100int % (ts_cal2 - ts_cal1) as int == 0,
    ensures
        celsius(ts_cal1 as int, ts_cal2 as int, ts_cal2 as int) == 130,
{
    let d = (ts_cal2 - ts_cal1) as int;
    assert((100int / d) * d == 100) by (nonlinear_arith)
        requires
            d > 0,
            100int % d == 0,
    ;
}

/// Between the two calibration points the temperature never decreases as the
/// raw sample grows.
pub proof fn lemma_temperature_monotonic(ts_cal1: u16, ts_cal2: u16, a: u16, b: u16)
    requires
        ts_cal1 < ts_cal2,
        ts_cal1 <= a <= b <= ts_cal2,
    ensures
        celsius(ts_cal1 as int, ts_cal2 as int, a as int) <= celsius(
            ts_cal1 as int,
            ts_cal2 as int,
            b as int,
        ),
{
    let g = gradient(ts_cal1 as int, ts_cal2 as int);
    assert(g >= 0);
    assert(g * (a - ts_cal1) <= g * (b - ts_cal1)) by (nonlinear_arith)
        requires
            g >= 0,
            a <= b,
    ;
}

} // verus!
