//! # Real time clock (RTC)
//!
//! The RTC measures wall time from the external 32.768 kHz crystal and uses 24
//! hour notation. It has two modes: in [`Run`] mode it counts and its time
//! registers are read only; in [`Init`] mode it is stopped and the time can be set.
//!
//! ## Reading the time
//!
//! The bus that reads the time register runs far slower than the RTC itself, so
//! a tick may land between two reads. The firmware reads the register twice; if
//! the seconds differ, a third read is authoritative (see [`Rtc::time`]).
//!
//! ## Backup register
//!
//! Backup register 0 lives in the always-powered backup domain: it keeps its
//! contents through stop mode and resets. It holds the ADC calibration factor.

use core::marker::PhantomData;
use vstd::prelude::*;

verus! {

/// Binary coded decimal representation of the time
#[derive(Clone, Copy, Debug, PartialEq, Eq, Structural)]
pub struct Time {
    /// hour tens digit (0-2)
    pub hour_tens: u8,
    /// hour units digit (0-9)
    pub hour_units: u8,
    /// minute tens digit (0-5)
    pub minute_tens: u8,
    /// minute units digit (0-9)
    pub minute_units: u8,
    /// seconds tens digit (0-5)
    pub seconds_tens: u8,
    /// seconds units digit (0-9)
    pub seconds_units: u8,
}

/// Seconds in a day.
pub const SECONDS_PER_DAY: u32 = 86400;

impl Time {
    /// Every digit is in range and the hour is at most 23.
    pub open spec fn wf(&self) -> bool {
        &&& self.hour_tens <= 2
        &&& self.hour_units <= 9
        &&& (self.hour_tens == 2 ==> self.hour_units <= 3)
        &&& self.minute_tens <= 5
        &&& self.minute_units <= 9
        &&& self.seconds_tens <= 5
        &&& self.seconds_units <= 9
    }

    pub open spec fn hour(&self) -> int {
        self.hour_tens * 10 + self.hour_units
    }

    pub open spec fn minute(&self) -> int {
        self.minute_tens * 10 + self.minute_units
    }

    pub open spec fn second(&self) -> int {
        self.seconds_tens * 10 + self.seconds_units
    }

    /// Seconds since midnight.
    pub open spec fn seconds_of_day(&self) -> int {
        (self.hour() * 60 + self.minute()) * 60 + self.second()
    }

    /// Midnight, 00:00:00.
    pub fn midnight() -> (r: Time)
        ensures
            r.wf(),
            r.seconds_of_day() == 0,
    {
        Time {
            hour_tens: 0,
            hour_units: 0,
            minute_tens: 0,
            minute_units: 0,
            seconds_tens: 0,
            seconds_units: 0,
        }
    }

    /// Whether every digit is in range and the hour is at most 23.
    pub fn is_valid(&self) -> (r: bool)
        ensures
            r == self.wf(),
    {
        self.hour_tens <= 2 && self.hour_units <= 9 && (self.hour_tens != 2 || self.hour_units
            <= 3) && self.minute_tens <= 5 && self.minute_units <= 9 && self.seconds_tens <= 5
            && self.seconds_units <= 9
    }

    /// Whether this is exactly the top of an hour (minutes and seconds are zero).
    pub fn is_top_of_hour(&self) -> (r: bool)
        ensures
            r == (self.minute() == 0 && self.second() == 0),
    {
        self.minute_tens == 0 && self.minute_units == 0 && self.seconds_tens == 0
            && self.seconds_units == 0
    }

    /// The time one second later, wrapping from 23:59:59 to 00:00:00.
    pub fn next_second(&self) -> (r: Time)
        requires
            self.wf(),
        ensures
            r.wf(),
            r.seconds_of_day() == (self.seconds_of_day() + 1) % (SECONDS_PER_DAY as int),
    {
        let mut t = *self;
        if t.seconds_units < 9 {
            t.seconds_units = t.seconds_units + 1;
        } else if t.seconds_tens < 5 {
            t.seconds_tens = t.seconds_tens + 1;
            t.seconds_units = 0;
        } else if t.minute_units < 9 {
            t.minute_units = t.minute_units + 1;
            t.seconds_tens = 0;
            t.seconds_units = 0;
        } else if t.minute_tens < 5 {
            t.minute_tens = t.minute_tens + 1;
            t.minute_units = 0;
            t.seconds_tens = 0;
            t.seconds_units = 0;
        } else if (t.hour_tens < 2 && t.hour_units < 9) || (t.hour_tens == 2 && t.hour_units < 3) {
            t = Time { hour_tens: t.hour_tens, hour_units: t.hour_units + 1, ..Time::midnight() };
        } else if t.hour_tens < 2 {
            t = Time { hour_tens: t.hour_tens + 1, ..Time::midnight() };
        } else {
            t = Time::midnight();
        }
        t
    }
}

/// The outcome of two consecutive reads of the time register.
#[derive(Clone, Copy, Debug, PartialEq, Eq, Structural)]
pub enum TimeRead {
    /// Both reads agree on the seconds: this time is consistent.
    Settled(Time),
    /// A tick landed between the reads; a third read is authoritative.
    ReadAgain,
}

/// Whether a tick of the seconds counter separates two reads.
pub open spec fn reads_torn(first: Time, second: Time) -> bool {
    first.seconds_units != second.seconds_units
}

/// The RTC's modes.
#[derive(Clone, Copy, Debug, PartialEq, Eq, Structural)]
pub enum RtcMode {
    Run,
    Init,
}

/// The operations of an RTC handle.
#[derive(Clone, Copy, Debug, PartialEq, Eq, Structural)]
pub enum RtcOp {
    ReadTime,
    SetTime,
    EnterInit,
    EnterRun,
    Backup,
}

/// Which operations each mode allows: reading the time and entering
/// initialisation only in run mode, setting the time and entering run mode
/// only in initialisation mode, the backup register in both.
pub open spec fn rtc_allowed(mode: RtcMode, op: RtcOp) -> bool {
    match op {
        RtcOp::ReadTime => mode == RtcMode::Run,
        RtcOp::EnterInit => mode == RtcMode::Run,
        RtcOp::SetTime => mode == RtcMode::Init,
        RtcOp::EnterRun => mode == RtcMode::Init,
        RtcOp::Backup => true,
    }
}

/// The mode after an allowed operation.
pub open spec fn rtc_next(mode: RtcMode, op: RtcOp) -> RtcMode {
    match op {
        RtcOp::EnterInit => RtcMode::Init,
        RtcOp::EnterRun => RtcMode::Run,
        _ => mode,
    }
}

/// RTC initialisation mode
///
/// RTC is stopped; the time registers become writeable allowing the time to be set.
pub struct Init;

/// RTC run mode
///
/// RTC is measuring time; the time registers are read only.
pub struct Run;

/// A time that cannot be written to the time register.
#[derive(Clone, Copy, Debug, PartialEq, Eq, Structural)]
pub struct InvalidTime;

/// # RTC
///
/// The RTC has two states, [`Run`] mode and [`Init`] mode. The handle keeps the
/// contents of backup register 0.
pub struct Rtc<S> {
    backup: u32,
    mode: PhantomData<S>,
}

/// The backup register word that holds a calibration factor.
pub open spec fn store_calibration(factor: u8) -> u32 {
    factor as u32
}

/// The calibration factor held by a backup register word (its low byte).
pub open spec fn load_calibration(word: u32) -> u8 {
    (word % 256) as u8
}

impl Rtc<Run> {
    pub open spec fn mode(&self) -> RtcMode {
        RtcMode::Run
    }

    /// Configure the RTC. `backup` is what backup register 0 holds at boot: the
    /// backup domain survives resets.
    pub fn configure(backup: u32) -> (r: Rtc<Run>)
        ensures
            r.backup_register() == backup,
    {
        Rtc { backup, mode: PhantomData }
    }

    /// Get the current time from two consecutive reads of the time register.
    ///
    /// When the seconds differ a tick occurred during the reads, and neither is
    /// returned: the caller reads a third time and that read is the time.
    pub fn time(&self, first: Time, second: Time) -> (r: TimeRead)
        ensures
            rtc_allowed(self.mode(), RtcOp::ReadTime),
            reads_torn(first, second) ==> r == TimeRead::ReadAgain,
            !reads_torn(first, second) ==> r == TimeRead::Settled(second),
    {
        if first.seconds_units != second.seconds_units {
            TimeRead::ReadAgain
        } else {
            TimeRead::Settled(second)
        }
    }

    /// Enter initialisation mode
    pub fn init(self) -> (r: Rtc<Init>)
        ensures
            rtc_allowed(self.mode(), RtcOp::EnterInit),
            r.mode() == rtc_next(self.mode(), RtcOp::EnterInit),
            r.backup_register() == self.backup_register(),
    {
        Rtc { backup: self.backup, mode: PhantomData }
    }
}

impl Rtc<Init> {
    pub open spec fn mode(&self) -> RtcMode {
        RtcMode::Init
    }

    /// Set the RTC to the given time. A time with a digit out of range is refused.
    pub fn set_time(&mut self, time: &Time) -> (r: Result<(), InvalidTime>)
        ensures
            rtc_allowed(old(self).mode(), RtcOp::SetTime),
            r is Ok <==> time.wf(),
            final(self).backup_register() == old(self).backup_register(),
    {
        if time.is_valid() {
            Ok(())
        } else {
            Err(InvalidTime)
        }
    }

    /// Enter run mode
    pub fn run(self) -> (r: Rtc<Run>)
        ensures
            rtc_allowed(self.mode(), RtcOp::EnterRun),
            r.mode() == rtc_next(self.mode(), RtcOp::EnterRun),
            r.backup_register() == self.backup_register(),
    {
        Rtc { backup: self.backup, mode: PhantomData }
    }
}

impl<S> Rtc<S> {
    /// Contents of backup register 0.
    pub closed spec fn backup_register(&self) -> u32 {
        self.backup
    }

    /// The ADC calibration factor held in backup register 0.
    pub open spec fn adc_calibration(&self) -> u8 {
        load_calibration(self.backup_register())
    }

    /// Contents of backup register 0.
    pub fn backup_word(&self) -> (r: u32)
        ensures
            r == self.backup_register(),
    {
        self.backup
    }

    /// Write ADC calibration to RTC backup register 0
    pub fn set_adc_calibration(&mut self, calibration: u8)
        ensures
            final(self).backup_register() == store_calibration(calibration),
    {
        self.backup = calibration as u32;
    }

    /// Read ADC calibration from RTC backup register 0
    pub fn get_adc_calibration(&self) -> (r: u8)
        ensures
            r == self.adc_calibration(),
    {
        (self.backup % 256) as u8
    }
}

/// Reading a calibration factor back from the backup register gives the factor
/// that was stored, for every factor.
pub proof fn lemma_calibration_round_trip(factor: u8)
    ensures
        load_calibration(store_calibration(factor)) == factor,
{
}

} // verus!
