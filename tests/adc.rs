use watch::adc::{temperature_c, voltage_mv, Adc, AdcMeasurement, FactoryCalibration};
use watch::measurement::{Temperature, Voltage};
use watch::power::stop_mode_cycle;
use watch::rtc::Rtc;

fn cal(vrefint_cal: u16, ts_cal1: u16, ts_cal2: u16) -> FactoryCalibration {
    FactoryCalibration { vrefint_cal, ts_cal1, ts_cal2 }
}

#[test]
fn voltage_is_exact_at_the_calibration_sample() {
    let m = AdcMeasurement::new(1670, 0);
    assert_eq!(m.voltage(&cal(1670, 600, 700)), 3000);
}

#[test]
fn voltage_truncates_towards_zero() {
    // 3000 * 1670 / 1671 = 2998.2...
    assert_eq!(voltage_mv(1670, 1671), 2998);
    // 3000 / 7 = 428.57...
    assert_eq!(voltage_mv(1, 7), 428);
    // 3000 * 2 / 3 divides exactly
    assert_eq!(voltage_mv(2, 3), 2000);
    // 3000 * 65535 / 1, the largest value
    assert_eq!(voltage_mv(65535, 1), 196_605_000);
    assert_eq!(voltage_mv(0, 1234), 0);
}

#[test]
fn temperature_at_both_calibration_points() {
    let c = cal(0, 600, 700);
    assert_eq!(AdcMeasurement::new(1, 600).temperature(&c), 30);
    assert_eq!(AdcMeasurement::new(1, 700).temperature(&c), 130);
    let c = cal(0, 650, 700);
    assert_eq!(temperature_c(c.ts_cal1, c.ts_cal2, 650), 30);
    assert_eq!(temperature_c(c.ts_cal1, c.ts_cal2, 700), 130);
}

#[test]
fn temperature_gradient_truncates() {
    // 100 / 230 truncates to 0: every sample reads 30 °C
    assert_eq!(temperature_c(670, 900, 900), 30);
    assert_eq!(temperature_c(670, 900, 1000), 30);
    // 100 / 30 truncates to 3
    assert_eq!(temperature_c(600, 630, 630), 120);
}

#[test]
fn temperature_below_the_first_point() {
    assert_eq!(temperature_c(600, 700, 550), -20);
    assert_eq!(temperature_c(600, 601, 0), 30 - 100 * 600);
}

#[test]
fn temperature_is_monotonic_between_the_points() {
    let mut last = i32::MIN;
    for raw in 650u16..=700 {
        let t = temperature_c(650, 700, raw);
        assert!(t >= last);
        last = t;
    }
    assert_eq!(temperature_c(650, 700, 675), 80);
}

#[test]
fn measurement_types_convert_raw_samples() {
    let c = cal(1670, 600, 700);
    assert_eq!(Temperature::from_raw(625, &c).value(), 55);
    assert_eq!(Voltage::from_raw(1670, &c).value(), 3000);
    assert_eq!(Temperature::default().value(), 0);
    assert_eq!(Voltage::default().value(), 0);
}

#[test]
fn measurement_keeps_sample_order() {
    let m = AdcMeasurement::new(1500, 640);
    assert_eq!(m.vrefint_raw(), 1500);
    assert_eq!(m.tsense_raw(), 640);
}

#[test]
fn calibration_is_persisted_and_applied_before_measuring() {
    let mut rtc = Rtc::configure(0);
    let mut adc = Adc::configure();
    assert_eq!(adc.calibration_factor(), 0);
    adc.calibrate(0x5A, &mut rtc);
    assert_eq!(adc.calibration_factor(), 0x5A);
    assert_eq!(rtc.get_adc_calibration(), 0x5A);

    // Enabling loses the ADC's own copy
    let mut enabled = adc.enabled();
    assert_eq!(enabled.calibration_factor(), 0);
    let conversion = enabled.measure(&rtc);
    assert_eq!(conversion.calibration_factor(), 0x5A);
    assert_eq!(enabled.calibration_factor(), 0x5A);
    let m = conversion.complete(1600, 620);
    assert_eq!(m.vrefint_raw(), 1600);
    assert_eq!(m.tsense_raw(), 620);

    let adc = enabled.disable();
    assert_eq!(adc.calibration_factor(), 0);
}

#[test]
fn calibration_survives_stop_mode() {
    let mut rtc = Rtc::configure(0);
    let mut adc = Adc::configure();
    adc.calibrate(0x7F, &mut rtc);
    let (rtc, adc) = stop_mode_cycle(rtc, adc);
    assert_eq!(adc.calibration_factor(), 0);
    assert_eq!(rtc.get_adc_calibration(), 0x7F);
    let mut enabled = adc.enabled();
    assert_eq!(enabled.measure(&rtc).calibration_factor(), 0x7F);
}
