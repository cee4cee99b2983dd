//! # Piezo buzzer
//!
//! The buzzer is driven by TIM2 channel 1 in PWM mode. The timer's prescaler is
//! fixed so that its base tick is 1 Hz; the auto reload value sets the frequency
//! and the compare value the duty cycle. Both can be written in either state.

use crate::system::CLK_FREQ;
use core::marker::PhantomData;
use vstd::prelude::*;

verus! {

/// Timer prescaler value to give a 1 Hz tick
pub const PRESCALER: u16 = 65535;

/// The auto reload value for a frequency (Hz): `clock / (freq * (prescaler + 1)) - 1`.
pub open spec fn arr_for(freq: int) -> int {
    CLK_FREQ as int / (freq * (PRESCALER + 1)) - 1
}

/// The compare value for a duty cycle (%) and an auto reload value:
/// `duty * arr / 100`.
pub open spec fn ccr_for(duty: int, arr: int) -> int {
    duty * arr / 100
}

/// Calculate the value for the auto reload register from a frequency (Hz)
///
/// With the 1 Hz base tick only frequencies up to the tick rate give a
/// positive period.
pub fn arr_from_frequency(freq: usize) -> (r: u16)
    requires
        0 < freq,
        freq * (PRESCALER + 1) <= CLK_FREQ,
    ensures
        r == arr_for(freq as int),
{
    let d: usize = freq * (PRESCALER as usize + 1);
    assert(d == freq * 65536);
    let q: usize = CLK_FREQ / d;
    assert(1 <= (CLK_FREQ as int) / (d as int) <= CLK_FREQ) by (nonlinear_arith)
        requires
            0 < d <= CLK_FREQ,
    ;
    (q - 1) as u16
}

/// Calculate the value for the compare capture register from a duty cycle (%)
/// and an auto reload value ([`arr_from_frequency`])
pub fn ccr_from_duty(duty: usize, aar: u16) -> (r: u16)
    requires
        duty <= 100,
    ensures
        r == ccr_for(duty as int, aar as int),
        r <= aar,
{
    assert(duty * aar <= 100 * aar) by (nonlinear_arith)
        requires
            duty <= 100,
    ;
    let prod: u32 = duty as u32 * aar as u32;
    (prod / 100) as u16
}

/// The buzzer's modes.
#[derive(Clone, Copy, Debug, PartialEq, Eq, Structural)]
pub enum BuzzerMode {
    Stopped,
    Running,
}

/// The operations of a buzzer handle.
#[derive(Clone, Copy, Debug, PartialEq, Eq, Structural)]
pub enum BuzzerOp {
    Start,
    Stop,
    SetArr,
    SetCcr,
}

/// Which operations each mode allows: start only when stopped, stop only when
/// running, frequency and duty in either mode.
pub open spec fn buzzer_allowed(mode: BuzzerMode, op: BuzzerOp) -> bool {
    match op {
        BuzzerOp::Start => mode == BuzzerMode::Stopped,
        BuzzerOp::Stop => mode == BuzzerMode::Running,
        BuzzerOp::SetArr => true,
        BuzzerOp::SetCcr => true,
    }
}

/// The mode after an allowed operation.
pub open spec fn buzzer_next(mode: BuzzerMode, op: BuzzerOp) -> BuzzerMode {
    match op {
        BuzzerOp::Start => BuzzerMode::Running,
        BuzzerOp::Stop => BuzzerMode::Stopped,
        _ => mode,
    }
}

/// Tag of a sounding buzzer
pub struct Running;

/// Tag of a silent buzzer
pub struct Stopped;

/// Piezo buzzer
///
/// The handle keeps the values of the timer registers it writes: the prescaler,
/// the auto reload value and the channel 1 compare value. The counter-enable bit
/// is the tag `S`.
pub struct Buzzer<S> {
    psc: u16,
    arr: u16,
    ccr: u16,
    state: PhantomData<S>,
}

impl<S> Buzzer<S> {
    pub closed spec fn prescaler(&self) -> u16 {
        self.psc
    }

    pub closed spec fn auto_reload(&self) -> u16 {
        self.arr
    }

    pub closed spec fn compare(&self) -> u16 {
        self.ccr
    }

    /// Set the auto reload register.
    ///
    /// This value correlates to the frequency of the buzzer and can be calculated
    /// using [`arr_from_frequency`]. ARR can be set at any time.
    pub fn arr(&mut self, arr: u16)
        ensures
            final(self).auto_reload() == arr,
            final(self).compare() == old(self).compare(),
            final(self).prescaler() == old(self).prescaler(),
    {
        self.arr = arr;
    }

    /// Set the capture compare register.
    ///
    /// This value correlates to the duty cycle of the buzzer and can be calculated
    /// using [`ccr_from_duty`]. CCR can be set at any time.
    pub fn ccr(&mut self, ccr: u16)
        ensures
            final(self).compare() == ccr,
            final(self).auto_reload() == old(self).auto_reload(),
            final(self).prescaler() == old(self).prescaler(),
    {
        self.ccr = ccr;
    }

    /// The auto reload value written last.
    pub fn auto_reload_value(&self) -> (r: u16)
        ensures
            r == self.auto_reload(),
    {
        self.arr
    }

    /// The compare value written last.
    pub fn compare_value(&self) -> (r: u16)
        ensures
            r == self.compare(),
    {
        self.ccr
    }

    /// The prescaler value.
    pub fn prescaler_value(&self) -> (r: u16)
        ensures
            r == self.prescaler(),
    {
        self.psc
    }
}

impl Buzzer<Stopped> {
    pub open spec fn mode(&self) -> BuzzerMode {
        BuzzerMode::Stopped
    }

    /// Configure the buzzer: the prescaler gives a 1 Hz tick, the auto reload
    /// and compare registers hold their reset values, the counter is stopped.
    pub fn configure() -> (r: Buzzer<Stopped>)
        ensures
            r.prescaler() == PRESCALER,
            r.auto_reload() == u16::MAX,
            r.compare() == 0,
    {
        Buzzer { psc: PRESCALER, arr: u16::MAX, ccr: 0, state: PhantomData }
    }

    /// Start the buzzer
    pub fn start(self) -> (r: Buzzer<Running>)
        ensures
            buzzer_allowed(self.mode(), BuzzerOp::Start),
            r.mode() == buzzer_next(self.mode(), BuzzerOp::Start),
            r.prescaler() == self.prescaler(),
            r.auto_reload() == self.auto_reload(),
            r.compare() == self.compare(),
    {
        Buzzer { psc: self.psc, arr: self.arr, ccr: self.ccr, state: PhantomData }
    }
}

impl Buzzer<Running> {
    pub open spec fn mode(&self) -> BuzzerMode {
        BuzzerMode::Running
    }

    /// Stop the buzzer
    pub fn stop(self) -> (r: Buzzer<Stopped>)
        ensures
            buzzer_allowed(self.mode(), BuzzerOp::Stop),
            r.mode() == buzzer_next(self.mode(), BuzzerOp::Stop),
            r.prescaler() == self.prescaler(),
            r.auto_reload() == self.auto_reload(),
            r.compare() == self.compare(),
    {
        Buzzer { psc: self.psc, arr: self.arr, ccr: self.ccr, state: PhantomData }
    }
}

} // verus!
