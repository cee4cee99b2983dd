use watch::rtc::Time;
use watch::scheduler::{
    priority, Action, BeepPhase, CalibratePhase, Scheduler, Task, BEEP_SECONDS,
    CALIBRATION_INTERVAL,
};

fn t(h: u8, m: u8, s: u8) -> Time {
    Time {
        hour_tens: h / 10,
        hour_units: h % 10,
        minute_tens: m / 10,
        minute_units: m % 10,
        seconds_tens: s / 10,
        seconds_units: s % 10,
    }
}

fn booted() -> Scheduler {
    let mut s = Scheduler::new();
    s.run_ready();
    s
}

#[test]
fn priorities_are_strictly_ordered() {
    assert!(priority(Task::Wakeup) > priority(Task::AlarmBtn));
    assert!(priority(Task::AlarmBtn) > priority(Task::Beep));
    assert!(priority(Task::Beep) > priority(Task::Calibrate));
    assert!(priority(Task::Calibrate) > 0);
}

#[test]
fn calibration_runs_at_boot_then_every_interval() {
    let mut s = Scheduler::new();
    assert!(s.buzzer_enabled());
    assert_eq!(s.state().calibrate, CalibratePhase::Ready);
    let boot = s.run_ready();
    assert_eq!(
        boot,
        vec![
            Action::Calibrate,
            Action::Delay { task: Task::Calibrate, seconds: CALIBRATION_INTERVAL },
        ]
    );
    assert_eq!(s.state().calibrate, CalibratePhase::Waiting);
    assert_eq!(CALIBRATION_INTERVAL, 15 * 60);
    assert_eq!(s.delay_elapsed(Task::Calibrate), boot);
}

#[test]
fn top_of_hour_beeps_once_and_discards_a_second_request() {
    let mut s = booted();
    let before = t(0, 59, 59);
    assert_eq!(s.wakeup(&before), vec![Action::ClearWakeupFlag]);
    let now = before.next_second();
    assert_eq!(now, t(1, 0, 0));
    let first = s.wakeup(&now);
    assert_eq!(
        first,
        vec![
            Action::ClearWakeupFlag,
            Action::BuzzerOn,
            Action::Delay { task: Task::Beep, seconds: BEEP_SECONDS },
        ]
    );
    assert_eq!(first.iter().filter(|a| **a == Action::BuzzerOn).count(), 1);
    assert_eq!(s.state().beep, BeepPhase::Sounding);

    let second = s.wakeup(&now);
    assert_eq!(second, vec![Action::ClearWakeupFlag, Action::BeepDiscarded]);
    assert_eq!(s.state().beep, BeepPhase::Sounding);

    assert_eq!(s.delay_elapsed(Task::Beep), vec![Action::BuzzerOff]);
    assert_eq!(s.state().beep, BeepPhase::Inactive);
}

#[test]
fn alarm_button_during_beep_delay() {
    let mut s = booted();
    s.wakeup(&t(13, 0, 0));
    assert_eq!(s.state().beep, BeepPhase::Sounding);
    assert_eq!(s.alarm_button(), vec![Action::ClearAlarmFlag]);
    assert!(!s.buzzer_enabled());
    assert_eq!(s.state().beep, BeepPhase::Sounding);
    assert_eq!(s.delay_elapsed(Task::Beep), vec![Action::BuzzerOff]);
    assert_eq!(s.state().beep, BeepPhase::Inactive);
}

#[test]
fn alarm_button_toggles_the_buzzer() {
    let mut s = booted();
    assert_eq!(s.alarm_button(), vec![Action::ClearAlarmFlag]);
    assert!(!s.buzzer_enabled());
    assert_eq!(s.wakeup(&t(2, 0, 0)), vec![Action::ClearWakeupFlag]);
    assert_eq!(s.state().beep, BeepPhase::Inactive);
    s.alarm_button();
    assert!(s.buzzer_enabled());
    assert_eq!(s.wakeup(&t(3, 0, 0)).len(), 3);
}

#[test]
fn no_beep_off_the_hour() {
    let mut s = booted();
    assert_eq!(s.wakeup(&t(3, 0, 1)), vec![Action::ClearWakeupFlag]);
    assert_eq!(s.wakeup(&t(3, 30, 0)), vec![Action::ClearWakeupFlag]);
    assert_eq!(s.state().beep, BeepPhase::Inactive);
}

#[test]
fn beep_runs_before_calibrate_when_both_are_ready() {
    // before the first dispatch, calibrate is ready; a top-of-hour wakeup
    // readies beep too
    let mut s = Scheduler::new();
    let actions = s.wakeup(&t(0, 0, 0));
    assert_eq!(
        actions,
        vec![
            Action::ClearWakeupFlag,
            Action::BuzzerOn,
            Action::Delay { task: Task::Beep, seconds: BEEP_SECONDS },
            Action::Calibrate,
            Action::Delay { task: Task::Calibrate, seconds: CALIBRATION_INTERVAL },
        ]
    );
}

#[test]
fn spurious_delay_end_does_nothing() {
    let mut s = booted();
    assert_eq!(s.delay_elapsed(Task::Beep), vec![]);
    assert_eq!(s.delay_elapsed(Task::Wakeup), vec![]);
    assert_eq!(s.state().beep, BeepPhase::Inactive);
}
