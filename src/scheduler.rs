//! # Task scheduler
//!
//! The watch runs a fixed set of tasks on one core with fixed priorities:
//!
//! | Task        | Trigger                  | Priority |
//! |-------------|--------------------------|----------|
//! | `wakeup`    | RTC 1 Hz tick interrupt  | 4        |
//! | `alarm_btn` | alarm button edge        | 3        |
//! | `beep`      | spawned by `wakeup`      | 2        |
//! | `calibrate` | spawned at boot, forever | 1        |
//!
//! Interrupt-bound tasks run to completion as soon as their interrupt arrives.
//! Software tasks run when no higher priority work is pending, and suspend only
//! at their delay points; while suspended the core is free. `beep` has a single
//! instance: a request while it is active is discarded.
//!
//! [`Scheduler`] holds the shared state and the progress of each software task.
//! Each event is processed to quiescence and yields the actions that the
//! firmware performs on the hardware, in order.

use crate::rtc::Time;
use vstd::prelude::*;

verus! {

/// How long `beep` sounds the buzzer (seconds).
pub const BEEP_SECONDS: u32 = 1;

/// Interval between two runs of the ADC calibration (seconds).
pub const CALIBRATION_INTERVAL: u32 = 900;

/// The tasks of the watch.
#[derive(Clone, Copy, Debug, PartialEq, Eq, Structural)]
pub enum Task {
    Calibrate,
    Beep,
    AlarmBtn,
    Wakeup,
}

/// A task's fixed priority; a higher number preempts a lower one, and the idle
/// context is 0.
pub open spec fn priority_of(task: Task) -> u8 {
    match task {
        Task::Calibrate => 1,
        Task::Beep => 2,
        Task::AlarmBtn => 3,
        Task::Wakeup => 4,
    }
}

/// A task's fixed priority.
pub fn priority(task: Task) -> (r: u8)
    ensures
        r == priority_of(task),
{
    match task {
        Task::Calibrate => 1,
        Task::Beep => 2,
        Task::AlarmBtn => 3,
        Task::Wakeup => 4,
    }
}

/// What the firmware does on the hardware, in order.
#[derive(Clone, Copy, Debug, PartialEq, Eq, Structural)]
pub enum Action {
    /// Clear the RTC wakeup flag.
    ClearWakeupFlag,
    /// Clear the alarm button's pending interrupt.
    ClearAlarmFlag,
    /// Start the buzzer.
    BuzzerOn,
    /// Stop the buzzer.
    BuzzerOff,
    /// A `beep` request found `beep` active and was dropped (log it).
    BeepDiscarded,
    /// Enable the temperature reference, self-calibrate the ADC, take a
    /// temperature reading and disable the reference.
    Calibrate,
    /// `task` suspends; report [`Scheduler::delay_elapsed`] after `seconds`.
    Delay { task: Task, seconds: u32 },
}

/// Progress of the `beep` task.
#[derive(Clone, Copy, Debug, PartialEq, Eq, Structural)]
pub enum BeepPhase {
    /// Not running; a request spawns it.
    Inactive,
    /// Requested, waiting to be dispatched.
    Spawned,
    /// Buzzer on, suspended at its delay.
    Sounding,
    /// Delay over, waiting to be dispatched to stop the buzzer.
    Resumed,
}

/// Progress of the `calibrate` task.
#[derive(Clone, Copy, Debug, PartialEq, Eq, Structural)]
pub enum CalibratePhase {
    /// Waiting to be dispatched for a calibration run.
    Ready,
    /// Suspended until the next interval.
    Waiting,
}

/// The state shared between tasks and the progress of each software task.
#[derive(Clone, Copy, Debug, PartialEq, Eq, Structural)]
pub struct SchedulerState {
    /// Whether the buzzer may sound (toggled by the alarm button)
    pub buzzer_enabled: bool,
    pub beep: BeepPhase,
    pub calibrate: CalibratePhase,
}

/// Whether a software task waits to be dispatched.
pub open spec fn ready(s: SchedulerState, task: Task) -> bool {
    match task {
        Task::Beep => s.beep == BeepPhase::Spawned || s.beep == BeepPhase::Resumed,
        Task::Calibrate => s.calibrate == CalibratePhase::Ready,
        _ => false,
    }
}

/// No software task waits: every one is inactive or suspended.
pub open spec fn quiescent(s: SchedulerState) -> bool {
    !ready(s, Task::Beep) && !ready(s, Task::Calibrate)
}

/// Whether `beep` is running (dispatched or suspended) or waiting to run.
pub open spec fn beep_active(s: SchedulerState) -> bool {
    s.beep != BeepPhase::Inactive
}

/// One run of a ready software task, up to its next delay point or its end.
pub open spec fn run_segment(s: SchedulerState, task: Task) -> (SchedulerState, Seq<Action>) {
    match task {
        Task::Beep => match s.beep {
            BeepPhase::Spawned => (
                SchedulerState { beep: BeepPhase::Sounding, ..s },
                seq![Action::BuzzerOn, Action::Delay { task: Task::Beep, seconds: BEEP_SECONDS }],
            ),
            BeepPhase::Resumed => (
                SchedulerState { beep: BeepPhase::Inactive, ..s },
                seq![Action::BuzzerOff],
            ),
            _ => (s, seq![]),
        },
        Task::Calibrate => if s.calibrate == CalibratePhase::Ready {
            (
                SchedulerState { calibrate: CalibratePhase::Waiting, ..s },
                seq![
                    Action::Calibrate,
                    Action::Delay { task: Task::Calibrate, seconds: CALIBRATION_INTERVAL },
                ],
            )
        } else {
            (s, seq![])
        },
        _ => (s, seq![]),
    }
}

/// Run the ready software tasks in priority order: `beep` before `calibrate`.
pub open spec fn dispatch(s: SchedulerState) -> (SchedulerState, Seq<Action>) {
    let (s1, a1) = if ready(s, Task::Beep) {
        run_segment(s, Task::Beep)
    } else {
        (s, seq![])
    };
    let (s2, a2) = if ready(s1, Task::Calibrate) {
        run_segment(s1, Task::Calibrate)
    } else {
        (s1, seq![])
    };
    (s2, a1 + a2)
}

/// A `beep` request: spawned when inactive, discarded otherwise.
pub open spec fn request_beep(s: SchedulerState) -> (SchedulerState, Seq<Action>) {
    if beep_active(s) {
        (s, seq![Action::BeepDiscarded])
    } else {
        (SchedulerState { beep: BeepPhase::Spawned, ..s }, seq![])
    }
}

/// Whether the `wakeup` handler requests a beep at time `now`.
pub open spec fn wants_beep(s: SchedulerState, now: Time) -> bool {
    s.buzzer_enabled && now.minute() == 0 && now.second() == 0
}

/// The `wakeup` handler followed by the dispatch of software tasks.
pub open spec fn on_wakeup(s: SchedulerState, now: Time) -> (SchedulerState, Seq<Action>) {
    let (s1, a1) = if wants_beep(s, now) {
        request_beep(s)
    } else {
        (s, seq![])
    };
    let (s2, a2) = dispatch(s1);
    (s2, seq![Action::ClearWakeupFlag] + a1 + a2)
}

/// The `alarm_btn` handler followed by the dispatch of software tasks.
pub open spec fn on_alarm_button(s: SchedulerState) -> (SchedulerState, Seq<Action>) {
    let s1 = SchedulerState { buzzer_enabled: !s.buzzer_enabled, ..s };
    let (s2, a2) = dispatch(s1);
    (s2, seq![Action::ClearAlarmFlag] + a2)
}

/// A software task's delay is over: it becomes ready again, then the dispatch.
pub open spec fn on_delay_elapsed(s: SchedulerState, task: Task) -> (
    SchedulerState,
    Seq<Action>,
) {
    let s1 = match task {
        Task::Beep => if s.beep == BeepPhase::Sounding {
            SchedulerState { beep: BeepPhase::Resumed, ..s }
        } else {
            s
        },
        Task::Calibrate => if s.calibrate == CalibratePhase::Waiting {
            SchedulerState { calibrate: CalibratePhase::Ready, ..s }
        } else {
            s
        },
        _ => s,
    };
    dispatch(s1)
}

/// The scheduler of the watch's tasks.
pub struct Scheduler {
    state: SchedulerState,
}

impl View for Scheduler {
    type V = SchedulerState;

    closed spec fn view(&self) -> SchedulerState {
        self.state
    }
}

impl Scheduler {
    /// The state at boot: the buzzer is enabled, `beep` is inactive and
    /// `calibrate` has been spawned.
    pub fn new() -> (r: Scheduler)
        ensures
            r@ == (SchedulerState {
                buzzer_enabled: true,
                beep: BeepPhase::Inactive,
                calibrate: CalibratePhase::Ready,
            }),
    {
        Scheduler {
            state: SchedulerState {
                buzzer_enabled: true,
                beep: BeepPhase::Inactive,
                calibrate: CalibratePhase::Ready,
            },
        }
    }

    /// The shared state and the progress of each software task.
    pub fn state(&self) -> (r: SchedulerState)
        ensures
            r == self@,
    {
        self.state
    }

    /// Whether the buzzer may sound.
    pub fn buzzer_enabled(&self) -> (r: bool)
        ensures
            r == self@.buzzer_enabled,
    {
        self.state.buzzer_enabled
    }

    fn run_segment(&mut self, task: Task, actions: &mut Vec<Action>)
        ensures
            final(self)@ == run_segment(old(self)@, task).0,
            final(actions)@ == old(actions)@ + run_segment(old(self)@, task).1,
    {
        match task {
            Task::Beep => match self.state.beep {
                BeepPhase::Spawned => {
                    self.state.beep = BeepPhase::Sounding;
                    actions.push(Action::BuzzerOn);
                    actions.push(Action::Delay { task: Task::Beep, seconds: BEEP_SECONDS });
                },
                BeepPhase::Resumed => {
                    self.state.beep = BeepPhase::Inactive;
                    actions.push(Action::BuzzerOff);
                },
                _ => {},
            },
            Task::Calibrate => {
                if self.state.calibrate == CalibratePhase::Ready {
                    self.state.calibrate = CalibratePhase::Waiting;
                    actions.push(Action::Calibrate);
                    actions.push(
                        Action::Delay { task: Task::Calibrate, seconds: CALIBRATION_INTERVAL },
                    );
                }
            },
            _ => {},
        }
        assert(final(actions)@ =~= old(actions)@ + run_segment(old(self)@, task).1);
    }

    fn is_ready(&self, task: Task) -> (r: bool)
        ensures
            r == ready(self@, task),
    {
        match task {
            Task::Beep => self.state.beep == BeepPhase::Spawned || self.state.beep
                == BeepPhase::Resumed,
            Task::Calibrate => self.state.calibrate == CalibratePhase::Ready,
            _ => false,
        }
    }

    fn dispatch(&mut self, actions: &mut Vec<Action>)
        ensures
            final(self)@ == dispatch(old(self)@).0,
            final(actions)@ == old(actions)@ + dispatch(old(self)@).1,
    {
        let ghost s = self@;
        let ghost a = actions@;
        if self.is_ready(Task::Beep) {
            self.run_segment(Task::Beep, actions);
        }
        if self.is_ready(Task::Calibrate) {
            self.run_segment(Task::Calibrate, actions);
        }
        assert(actions@ =~= a + dispatch(s).1);
    }

    /// The RTC 1 Hz tick: clear the flag; at the top of the hour, with the
    /// buzzer enabled, request `beep`. `now` is the time read in the handler.
    pub fn wakeup(&mut self, now: &Time) -> (r: Vec<Action>)
        ensures
            final(self)@ == on_wakeup(old(self)@, *now).0,
            r@ == on_wakeup(old(self)@, *now).1,
    {
        let ghost s = self@;
        let mut actions: Vec<Action> = Vec::new();
        actions.push(Action::ClearWakeupFlag);
        if self.state.buzzer_enabled && now.is_top_of_hour() {
            if self.state.beep != BeepPhase::Inactive {
                actions.push(Action::BeepDiscarded);
            } else {
                self.state.beep = BeepPhase::Spawned;
            }
        }
        self.dispatch(&mut actions);
        assert(actions@ =~= on_wakeup(s, *now).1);
        actions
    }

    /// The alarm button: clear its pending interrupt and toggle whether the
    /// buzzer may sound.
    pub fn alarm_button(&mut self) -> (r: Vec<Action>)
        ensures
            final(self)@ == on_alarm_button(old(self)@).0,
            r@ == on_alarm_button(old(self)@).1,
    {
        let ghost s = self@;
        let mut actions: Vec<Action> = Vec::new();
        actions.push(Action::ClearAlarmFlag);
        self.state.buzzer_enabled = !self.state.buzzer_enabled;
        self.dispatch(&mut actions);
        assert(actions@ =~= on_alarm_button(s).1);
        actions
    }

    /// The delay of `task` is over: it resumes after its delay point.
    pub fn delay_elapsed(&mut self, task: Task) -> (r: Vec<Action>)
        ensures
            final(self)@ == on_delay_elapsed(old(self)@, task).0,
            r@ == on_delay_elapsed(old(self)@, task).1,
    {
        let ghost s = self@;
        match task {
            Task::Beep => {
                if self.state.beep == BeepPhase::Sounding {
                    self.state.beep = BeepPhase::Resumed;
                }
            },
            Task::Calibrate => {
                if self.state.calibrate == CalibratePhase::Waiting {
                    self.state.calibrate = CalibratePhase::Ready;
                }
            },
            _ => {},
        }
        let mut actions: Vec<Action> = Vec::new();
        self.dispatch(&mut actions);
        assert(actions@ =~= on_delay_elapsed(s, task).1);
        actions
    }

    /// Run the software tasks that are ready, such as `calibrate` after boot.
    pub fn run_ready(&mut self) -> (r: Vec<Action>)
        ensures
            final(self)@ == dispatch(old(self)@).0,
            r@ == dispatch(old(self)@).1,
    {
        let mut actions: Vec<Action> = Vec::new();
        self.dispatch(&mut actions);
        assert(actions@ =~= dispatch(old(self)@).1);
        actions
    }
}

/// After any event every software task is inactive or suspended: dispatch
/// runs each ready task up to its next delay point or its end.
pub proof fn lemma_events_end_quiescent(s: SchedulerState, now: Time, task: Task)
    ensures
        quiescent(dispatch(s).0),
        quiescent(on_wakeup(s, now).0),
        quiescent(on_alarm_button(s).0),
        quiescent(on_delay_elapsed(s, task).0),
{
}

/// Across priority levels the order is strict: when `beep` and `calibrate` are
/// both ready, `beep` (the higher priority) runs first, and `calibrate`'s run
/// comes after all of `beep`'s actions.
pub proof fn lemma_dispatch_in_priority_order(s: SchedulerState)
    requires
        ready(s, Task::Beep),
        ready(s, Task::Calibrate),
    ensures
        priority_of(Task::Beep) > priority_of(Task::Calibrate),
        dispatch(s).1 == run_segment(s, Task::Beep).1 + run_segment(
            run_segment(s, Task::Beep).0,
            Task::Calibrate,
        ).1,
{
}

/// An alarm-button interrupt that arrives while `beep` is suspended at its delay
/// is handled at once: its only action is to clear its flag, it toggles whether
/// the buzzer may sound, and it leaves `beep` suspended. When the delay ends,
/// `beep` resumes exactly as it would have without the interrupt.
pub proof fn lemma_alarm_during_beep_delay(s: SchedulerState)
    requires
        quiescent(s),
        s.beep == BeepPhase::Sounding,
    ensures
        on_alarm_button(s).1 == seq![Action::ClearAlarmFlag],
        on_alarm_button(s).0.buzzer_enabled == !s.buzzer_enabled,
        on_alarm_button(s).0.beep == BeepPhase::Sounding,
        on_alarm_button(s).0.calibrate == s.calibrate,
        on_delay_elapsed(on_alarm_button(s).0, Task::Beep).1 == on_delay_elapsed(s, Task::Beep).1,
        on_delay_elapsed(on_alarm_button(s).0, Task::Beep).0.beep == on_delay_elapsed(
            s,
            Task::Beep,
        ).0.beep,
{
    assert(on_alarm_button(s).1 =~= seq![Action::ClearAlarmFlag]);
}

/// At the top of the hour with the buzzer enabled and `beep` inactive, the
/// wakeup starts `beep` exactly once: the buzzer goes on and `beep` suspends for
/// its delay.
pub proof fn lemma_top_of_hour_beeps_once(s: SchedulerState, now: Time)
    requires
        quiescent(s),
        s.buzzer_enabled,
        s.beep == BeepPhase::Inactive,
        now.minute() == 0,
        now.second() == 0,
    ensures
        on_wakeup(s, now).1 == seq![
            Action::ClearWakeupFlag,
            Action::BuzzerOn,
            Action::Delay { task: Task::Beep, seconds: BEEP_SECONDS },
        ],
        on_wakeup(s, now).0.beep == BeepPhase::Sounding,
        on_wakeup(s, now).0.buzzer_enabled,
{
    assert(on_wakeup(s, now).1 =~= seq![
        Action::ClearWakeupFlag,
        Action::BuzzerOn,
        Action::Delay { task: Task::Beep, seconds: BEEP_SECONDS },
    ]);
}

/// A wakeup that requests `beep` while `beep` is still active spawns no second
/// instance: the request is discarded and reported, and `beep` goes on as it was.
pub proof fn lemma_beep_request_while_active_is_discarded(s: SchedulerState, now: Time)
    requires
        quiescent(s),
        beep_active(s),
        wants_beep(s, now),
    ensures
        on_wakeup(s, now).1 == seq![Action::ClearWakeupFlag, Action::BeepDiscarded],
        on_wakeup(s, now).0 == s,
{
    assert(on_wakeup(s, now).1 =~= seq![Action::ClearWakeupFlag, Action::BeepDiscarded]);
}

} // verus!
