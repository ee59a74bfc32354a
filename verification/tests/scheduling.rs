use contrib_notify::errors::ServiceError;
use contrib_notify::schedule::{
    CycleOutcome, SchedulerAction, SchedulerEvent, SchedulerPhase, SchedulerState,
    current_local_time, delay_until_trigger, next_trigger_delay, scheduler_step,
};

#[test]
fn delay_before_trigger_is_the_gap() {
    // 21:00:00 with a 22:00 trigger: one hour to wait.
    assert_eq!(next_trigger_delay(21 * 3600, 22, 0), 3600);
}

#[test]
fn delay_after_trigger_wraps_past_midnight() {
    // 23:50:00 with a 22:00 trigger: 22 h 10 min until the next day's 22:00.
    let now = 23 * 3600 + 50 * 60;
    assert_eq!(next_trigger_delay(now, 22, 0), 22 * 3600 + 10 * 60);
}

#[test]
fn delay_at_trigger_instant_is_a_full_day() {
    assert_eq!(next_trigger_delay(22 * 3600, 22, 0), 86400);
}

#[test]
fn delay_is_never_zero_and_never_more_than_a_day() {
    for &(now, h, m) in &[
        (0u64, 0u32, 0u32),
        (0, 23, 59),
        (86399, 0, 0),
        (86399, 23, 59),
        (12 * 3600, 12, 0),
        (12 * 3600 + 1, 12, 0),
        (12 * 3600 - 1, 12, 0),
    ] {
        let d = next_trigger_delay(now, h, m);
        assert!(d > 0 && d <= 86400, "delay {d} out of range for now={now} {h}:{m}");
        // Landing instant: the trigger's hour and minute, second zero.
        let landed = (now + d) % 86400;
        assert_eq!(landed / 3600, h as u64);
        assert_eq!((landed % 3600) / 60, m as u64);
        assert_eq!(landed % 60, 0);
        // A full day's wait happens only at the trigger instant itself.
        assert_eq!(d == 86400, now == (h as u64) * 3600 + (m as u64) * 60);
    }
}

#[test]
fn clock_reading_is_a_valid_time_of_day() {
    let t = current_local_time();
    assert!(t.secs_of_day < 86400);
    assert_eq!(t.date.len(), 10);
    let (d, t2) = delay_until_trigger(22, 0);
    assert!(d > 0 && d <= 86400);
    assert!(t2.secs_of_day < 86400);
}

#[test]
fn waiting_scheduler_sleeps_until_trigger() {
    let mut s = SchedulerState::new(22, 0, Some(3));
    let a = scheduler_step(&mut s, SchedulerEvent::ClockRead(23 * 3600 + 50 * 60));
    assert_eq!(a, SchedulerAction::Sleep(22 * 3600 + 10 * 60));
    assert_eq!(s.phase, SchedulerPhase::Waiting);
    assert_eq!(s.cycles_remaining, Some(3));
}

#[test]
fn sleep_end_triggers_exactly_one_cycle() {
    let mut s = SchedulerState::new(22, 0, None);
    let a = scheduler_step(&mut s, SchedulerEvent::SleepElapsed);
    assert_eq!(a, SchedulerAction::RunCycle);
    assert_eq!(s.phase, SchedulerPhase::Triggering);
    let b = scheduler_step(&mut s, SchedulerEvent::CycleFinished(CycleOutcome::Delivered));
    assert_eq!(b, SchedulerAction::Continue);
    assert_eq!(s.phase, SchedulerPhase::Waiting);
    assert_eq!(s.cycles_remaining, None);
}

#[test]
fn failed_fetch_reenters_waiting_without_terminating() {
    let mut s = SchedulerState::new(22, 0, Some(2));
    assert_eq!(scheduler_step(&mut s, SchedulerEvent::SleepElapsed), SchedulerAction::RunCycle);
    let outcome = CycleOutcome::FetchFailed(ServiceError::UpstreamRejected(502));
    let a = scheduler_step(&mut s, SchedulerEvent::CycleFinished(outcome));
    assert_ne!(a, SchedulerAction::Stop);
    assert_eq!(a, SchedulerAction::Continue);
    assert_eq!(s.phase, SchedulerPhase::Waiting);
    assert_eq!(s.cycles_remaining, Some(1));
    // The loop lives on: the next clock reading asks for another sleep.
    let b = scheduler_step(&mut s, SchedulerEvent::ClockRead(0));
    assert_eq!(b, SchedulerAction::Sleep(22 * 3600));
}

#[test]
fn failed_push_also_reenters_waiting() {
    let mut s = SchedulerState::new(7, 30, None);
    scheduler_step(&mut s, SchedulerEvent::SleepElapsed);
    let outcome = CycleOutcome::PushFailed(ServiceError::UpstreamUnavailable);
    let a = scheduler_step(&mut s, SchedulerEvent::CycleFinished(outcome));
    assert_ne!(a, SchedulerAction::Stop);
    assert_eq!(s.phase, SchedulerPhase::Waiting);
}

#[test]
fn bounded_scheduler_stops_when_cycles_are_spent() {
    let mut s = SchedulerState::new(22, 0, Some(1));
    assert_eq!(
        scheduler_step(&mut s, SchedulerEvent::ClockRead(10)),
        SchedulerAction::Sleep(22 * 3600 - 10)
    );
    assert_eq!(scheduler_step(&mut s, SchedulerEvent::SleepElapsed), SchedulerAction::RunCycle);
    scheduler_step(&mut s, SchedulerEvent::CycleFinished(CycleOutcome::Delivered));
    assert_eq!(s.cycles_remaining, Some(0));
    let a = scheduler_step(&mut s, SchedulerEvent::ClockRead(10));
    assert_eq!(a, SchedulerAction::Stop);
}
