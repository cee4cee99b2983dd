use watch::rtc::{InvalidTime, Rtc, Time, TimeRead};

fn t(h: u8, m: u8, s: u8) -> Time {
    Time {
        hour_tens: h / 10,
        hour_units: h % 10,
        minute_tens: m / 10,
        minute_units: m % 10,
        seconds_tens: s / 10,
        seconds_units: s % 10,
    }
}

#[test]
fn consistent_reads_return_the_second_read() {
    let rtc = Rtc::configure(0);
    assert_eq!(rtc.time(t(12, 34, 56), t(12, 34, 56)), TimeRead::Settled(t(12, 34, 56)));
}

#[test]
fn torn_read_asks_for_a_third_read() {
    let rtc = Rtc::configure(0);
    // a tick between the reads: 00:00:09 then 00:00:10
    assert_eq!(rtc.time(t(0, 0, 9), t(0, 0, 10)), TimeRead::ReadAgain);
    // the seconds rolled over into a new hour
    assert_eq!(rtc.time(t(0, 59, 59), t(1, 0, 0)), TimeRead::ReadAgain);
    assert_eq!(rtc.time(t(0, 0, 1), t(0, 0, 2)), TimeRead::ReadAgain);
}

#[test]
fn next_second_carries() {
    assert_eq!(t(0, 0, 0).next_second(), t(0, 0, 1));
    assert_eq!(t(0, 0, 9).next_second(), t(0, 0, 10));
    assert_eq!(t(0, 0, 59).next_second(), t(0, 1, 0));
    assert_eq!(t(0, 9, 59).next_second(), t(0, 10, 0));
    assert_eq!(t(0, 59, 59).next_second(), t(1, 0, 0));
    assert_eq!(t(9, 59, 59).next_second(), t(10, 0, 0));
    assert_eq!(t(19, 59, 59).next_second(), t(20, 0, 0));
    assert_eq!(t(22, 59, 59).next_second(), t(23, 0, 0));
    assert_eq!(t(23, 59, 59).next_second(), Time::midnight());
}

#[test]
fn top_of_hour() {
    assert!(t(1, 0, 0).is_top_of_hour());
    assert!(t(0, 0, 0).is_top_of_hour());
    assert!(!t(0, 59, 59).is_top_of_hour());
    assert!(!t(1, 0, 1).is_top_of_hour());
    assert!(!t(1, 10, 0).is_top_of_hour());
}

#[test]
fn time_validity() {
    assert!(t(23, 59, 59).is_valid());
    assert!(!t(24, 0, 0).is_valid());
    assert!(!t(12, 60, 0).is_valid());
    assert!(!t(12, 0, 60).is_valid());
    let bad_units = Time { hour_units: 10, ..t(0, 0, 0) };
    assert!(!bad_units.is_valid());
}

#[test]
fn set_time_only_accepts_valid_times() {
    let mut rtc = Rtc::configure(0x1234).init();
    assert_eq!(rtc.set_time(&t(7, 30, 0)), Ok(()));
    assert_eq!(rtc.set_time(&t(25, 0, 0)), Err(InvalidTime));
    let rtc = rtc.run();
    assert_eq!(rtc.backup_word(), 0x1234);
}

#[test]
fn calibration_round_trip_for_every_factor() {
    let mut rtc = Rtc::configure(0xFFFF_FFFF);
    for f in 0..=255u8 {
        rtc.set_adc_calibration(f);
        assert_eq!(rtc.get_adc_calibration(), f);
        assert_eq!(rtc.backup_word(), f as u32);
    }
}

#[test]
fn backup_register_survives_mode_changes() {
    let mut rtc = Rtc::configure(0);
    rtc.set_adc_calibration(0x42);
    let mut init = rtc.init();
    assert_eq!(init.get_adc_calibration(), 0x42);
    init.set_adc_calibration(0x43);
    let rtc = init.run();
    assert_eq!(rtc.get_adc_calibration(), 0x43);
}

#[test]
fn calibration_is_the_low_byte_of_the_backup_word() {
    let rtc = Rtc::configure(0xABCD_0112);
    assert_eq!(rtc.get_adc_calibration(), 0x12);
}
