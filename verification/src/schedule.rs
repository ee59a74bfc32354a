//! The daily scheduler: the wait until the next occurrence of a fixed local
//! trigger time, and the two-phase state machine that drives one
//! evaluation-and-push cycle per wake.

use vstd::arithmetic::div_mod::lemma_fundamental_div_mod_converse;
use vstd::prelude::*;
use crate::errors::ServiceError;

verus! {

/// Seconds after local midnight of the configured daily trigger instant.
pub open spec fn trigger_of_day(hour: u32, minute: u32) -> int {
    hour * 3600 + minute * 60
}

/// The wait, in seconds, from `now` (seconds after local midnight) until the
/// next occurrence of the trigger instant. When `now` is exactly the trigger
/// instant the wait is a full day: the next occurrence, not this one.
pub open spec fn delay_spec(now: int, hour: u32, minute: u32) -> int {
    if now < trigger_of_day(hour, minute) {
        trigger_of_day(hour, minute) - now
    } else {
        trigger_of_day(hour, minute) + 86400 - now
    }
}

/// Compute the wait until the next trigger instant.
pub fn next_trigger_delay(now: u64, hour: u32, minute: u32) -> (r: u64)
    requires
        now < 86400,
        hour < 24,
        minute < 60,
    ensures
        r == delay_spec(now as int, hour, minute),
        0 < r <= 86400,
        (r == 86400) <==> (now == trigger_of_day(hour, minute)),
{
    let target: u64 = (hour as u64) * 3600 + (minute as u64) * 60;
    if now < target {
        target - now
    } else {
        target + 86400 - now
    }
}

/// The wait computed for any moment of the day lands exactly on the trigger
/// instant: adding it to `now` gives a time of day whose hour and minute are
/// the configured ones and whose second is zero. The wait is a full day only
/// at the trigger instant itself; everywhere else it is below one day.
pub proof fn lemma_delay_lands_on_trigger(now: int, hour: u32, minute: u32)
    requires
        0 <= now < 86400,
        hour < 24,
        minute < 60,
    ensures
        0 < delay_spec(now, hour, minute) <= 86400,
        now != trigger_of_day(hour, minute) ==> delay_spec(now, hour, minute) < 86400,
        (now + delay_spec(now, hour, minute)) % 86400 == trigger_of_day(hour, minute),
        ((now + delay_spec(now, hour, minute)) % 86400) / 3600 == hour,
        (((now + delay_spec(now, hour, minute)) % 86400) % 3600) / 60 == minute,
        ((now + delay_spec(now, hour, minute)) % 86400) % 60 == 0,
{
    let t = trigger_of_day(hour, minute);
    let landed = now + delay_spec(now, hour, minute);
    if now < t {
        lemma_fundamental_div_mod_converse(landed, 86400, 0, t);
    } else {
        lemma_fundamental_div_mod_converse(landed, 86400, 1, t);
    }
    assert(landed % 86400 == t);
    lemma_fundamental_div_mod_converse(t, 3600, hour as int, minute * 60);
    lemma_fundamental_div_mod_converse(minute * 60, 60, minute as int, 0);
    assert(hour * 3600 + minute * 60 == (hour * 60 + minute) * 60) by (nonlinear_arith);
    lemma_fundamental_div_mod_converse(t, 60, hour * 60 + minute, 0);
}

/// Where the scheduler stands: computing/sleeping until the next trigger
/// instant, or running one evaluation-and-push cycle.
#[derive(Clone, Copy, Debug, PartialEq, Eq, Structural)]
pub enum SchedulerPhase {
    Waiting,
    Triggering,
}

/// How one evaluation-and-push cycle ended. Any of these returns the
/// scheduler to its wait: a failure only costs that day's notification.
#[derive(Clone, Copy, Debug, PartialEq, Eq, Structural)]
pub enum CycleOutcome {
    Delivered,
    FetchFailed(ServiceError),
    PushFailed(ServiceError),
}

/// What the surrounding loop reports to the scheduler: a reading of the
/// local clock, the end of a sleep, or the end of a cycle.
#[derive(Clone, Copy, Debug, PartialEq, Eq, Structural)]
pub enum SchedulerEvent {
    ClockRead(u64),
    SleepElapsed,
    CycleFinished(CycleOutcome),
}

/// What the surrounding loop is to do next: suspend for the given number of
/// seconds, run one evaluation-and-push cycle, read the clock again, or
/// stop for good.
#[derive(Clone, Copy, Debug, PartialEq, Eq, Structural)]
pub enum SchedulerAction {
    Sleep(u64),
    RunCycle,
    Continue,
    Stop,
}

/// The scheduler's whole state: the configured trigger time, the optional
/// bound on how many cycles remain, and the current phase.
#[derive(Clone, Copy, Debug)]
pub struct SchedulerState {
    pub trigger_hour: u32,
    pub trigger_minute: u32,
    pub cycles_remaining: Option<u32>,
    pub phase: SchedulerPhase,
}

/// A clock reading handed to the scheduler is a valid time of day.
pub open spec fn event_wf(e: SchedulerEvent) -> bool {
    match e {
        SchedulerEvent::ClockRead(now) => now < 86400,
        _ => true,
    }
}

/// One cycle of the bound is spent; an absent bound stays absent.
pub open spec fn spend_cycle(c: Option<u32>) -> Option<u32> {
    match c {
        Some(n) => if n > 0 {
            Some((n - 1) as u32)
        } else {
            Some(0u32)
        },
        None => None,
    }
}

/// The state after the scheduler takes one event.
pub open spec fn step_state(s: SchedulerState, e: SchedulerEvent) -> SchedulerState {
    match (s.phase, e) {
        (SchedulerPhase::Waiting, SchedulerEvent::SleepElapsed) => SchedulerState {
            phase: SchedulerPhase::Triggering,
            ..s
        },
        (SchedulerPhase::Triggering, SchedulerEvent::CycleFinished(_)) => SchedulerState {
            phase: SchedulerPhase::Waiting,
            cycles_remaining: spend_cycle(s.cycles_remaining),
            ..s
        },
        _ => s,
    }
}

/// The action the scheduler asks for on one event.
pub open spec fn step_action(s: SchedulerState, e: SchedulerEvent) -> SchedulerAction {
    match (s.phase, e) {
        (SchedulerPhase::Waiting, SchedulerEvent::ClockRead(now)) => if s.cycles_remaining
            == Some(0u32) {
            SchedulerAction::Stop
        } else {
            SchedulerAction::Sleep(
                delay_spec(now as int, s.trigger_hour, s.trigger_minute) as u64,
            )
        },
        (SchedulerPhase::Waiting, SchedulerEvent::SleepElapsed) => SchedulerAction::RunCycle,
        (SchedulerPhase::Triggering, SchedulerEvent::CycleFinished(_)) => SchedulerAction::Continue,
        _ => SchedulerAction::Continue,
    }
}

impl SchedulerState {
    /// The configured trigger time is a valid wall-clock time of day.
    pub open spec fn wf(self) -> bool {
        self.trigger_hour < 24 && self.trigger_minute < 60
    }

    /// A fresh scheduler: configured, bounded or not, and waiting.
    pub fn new(hour: u32, minute: u32, cycles: Option<u32>) -> (s: SchedulerState)
        requires
            hour < 24,
            minute < 60,
        ensures
            s.wf(),
            s.trigger_hour == hour,
            s.trigger_minute == minute,
            s.cycles_remaining == cycles,
            s.phase is Waiting,
    {
        SchedulerState { trigger_hour: hour, trigger_minute: minute, cycles_remaining: cycles, phase: SchedulerPhase::Waiting }
    }
}

/// Take one event: move to the next state and say what the loop does next.
///
/// The configured trigger time never changes; a `Sleep` action carries
/// exactly the wait computed by `delay_spec` for the reported clock reading.
pub fn scheduler_step(s: &mut SchedulerState, e: SchedulerEvent) -> (a: SchedulerAction)
    requires
        old(s).wf(),
        event_wf(e),
    ensures
        *final(s) == step_state(*old(s), e),
        a == step_action(*old(s), e),
        final(s).wf(),
{
    match (s.phase, e) {
        (SchedulerPhase::Waiting, SchedulerEvent::ClockRead(now)) => {
            let exhausted = match s.cycles_remaining {
                Some(n) => n == 0,
                None => false,
            };
            if exhausted {
                SchedulerAction::Stop
            } else {
                SchedulerAction::Sleep(next_trigger_delay(now, s.trigger_hour, s.trigger_minute))
            }
        },
        (SchedulerPhase::Waiting, SchedulerEvent::SleepElapsed) => {
            s.phase = SchedulerPhase::Triggering;
            SchedulerAction::RunCycle
        },
        (SchedulerPhase::Triggering, SchedulerEvent::CycleFinished(_)) => {
            s.phase = SchedulerPhase::Waiting;
            s.cycles_remaining = match s.cycles_remaining {
                Some(n) => if n > 0 {
                    Some(n - 1)
                } else {
                    Some(0)
                },
                None => None,
            };
            SchedulerAction::Continue
        },
        _ => SchedulerAction::Continue,
    }
}

/// Finishing a cycle always returns the scheduler to its wait and never
/// stops it, whatever the outcome was — a failed calendar fetch or a failed
/// push only costs that one day's notification.
pub proof fn lemma_cycle_end_reenters_waiting(s: SchedulerState, o: CycleOutcome)
    requires
        s.phase is Triggering,
    ensures
        step_state(s, SchedulerEvent::CycleFinished(o)).phase is Waiting,
        step_action(s, SchedulerEvent::CycleFinished(o)) != SchedulerAction::Stop,
{
}

/// The scheduler stops only from its wait, on a clock reading, with the
/// cycle bound exhausted — never because a cycle failed.
pub proof fn lemma_stop_only_when_exhausted(s: SchedulerState, e: SchedulerEvent)
    ensures
        (step_action(s, e) == SchedulerAction::Stop) <==> (s.phase is Waiting && e is ClockRead
            && s.cycles_remaining == Some(0u32)),
{
}

/// A cycle is asked for exactly when a sleep ends the wait: each trigger
/// wake runs one evaluation-and-push cycle, and nothing else starts one.
pub proof fn lemma_one_cycle_per_wake(s: SchedulerState, e: SchedulerEvent)
    ensures
        (step_action(s, e) == SchedulerAction::RunCycle) <==> (s.phase is Waiting
            && e is SleepElapsed),
{
}

/// The local wall-clock reading the engine works from: seconds after local
/// midnight, and the local date formatted as year-month-day.
pub struct LocalTime {
    pub secs_of_day: u64,
    pub date: String,
}

/// Relies on `chrono::Local::now` for the current local instant, on
/// chrono's `Timelike` accessors `hour`, `minute` and `second`, which
/// return an hour below 24 and a minute and second below 60, and on
/// formatting that instant's date as `%Y-%m-%d`.
#[verifier::external_body]
fn read_local_clock() -> (r: (u32, u32, u32, String))
    ensures
        r.0 < 24,
        r.1 < 60,
        r.2 < 60,
{
    let now = chrono::Local::now();
    let date = now.format("%Y-%m-%d").to_string();
    (chrono::Timelike::hour(&now), chrono::Timelike::minute(&now), chrono::Timelike::second(&now), date)
}

/// Read the local clock. The clock alone decides which instant comes back;
/// whatever it reports, the time of day is a valid one, strictly inside one
/// day's worth of seconds.
pub fn current_local_time() -> (r: LocalTime)
    ensures
        r.secs_of_day < 86400,
{
    let (h, m, s, date) = read_local_clock();
    LocalTime { secs_of_day: (h as u64) * 3600 + (m as u64) * 60 + (s as u64), date }
}

/// Read the clock and compute the wait until the next trigger instant. The
/// clock decides the exact reading; whatever it reports, the wait is the
/// `delay_spec` of that reading: positive and at most one full day.
pub fn delay_until_trigger(hour: u32, minute: u32) -> (r: (u64, LocalTime))
    requires
        hour < 24,
        minute < 60,
    ensures
        r.1.secs_of_day < 86400,
        r.0 == delay_spec(r.1.secs_of_day as int, hour, minute),
        0 < r.0 <= 86400,
{
    let t = current_local_time();
    let d = next_trigger_delay(t.secs_of_day, hour, minute);
    (d, t)
}

} // verus!
