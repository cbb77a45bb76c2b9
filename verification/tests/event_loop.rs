use battery_watch::cycle::CycleError;
use battery_watch::event_loop::{EventLoop, ExitStatus, LoopAction, LoopEvent};
use std::time::Duration;

const REFRESH: Duration = Duration::from_secs(15);
const FAILED: LoopEvent = LoopEvent::CycleEnded(Err(CycleError::DeviceQueryFailed));
const DONE: LoopEvent = LoopEvent::CycleEnded(Ok(()));

#[test]
fn run_starts_with_a_cycle() {
    assert_eq!(EventLoop::new(false, REFRESH).action(), LoopAction::RunCycle);
    assert_eq!(EventLoop::new(true, REFRESH).action(), LoopAction::RunCycle);
}

#[test]
fn single_run_ends_after_its_cycle() {
    let mut run = EventLoop::new(false, REFRESH);
    run.step(DONE);
    assert_eq!(run.action(), LoopAction::Exit(ExitStatus::Clean));
    for event in [LoopEvent::Notified, LoopEvent::TimerElapsed, LoopEvent::Cancelled, DONE, FAILED] {
        run.step(event);
        assert_eq!(run.action(), LoopAction::Exit(ExitStatus::Clean));
    }
}

#[test]
fn single_run_fails_with_its_cycle() {
    let mut run = EventLoop::new(false, REFRESH);
    run.step(FAILED);
    assert_eq!(
        run.action(),
        LoopAction::Exit(ExitStatus::Failed(CycleError::DeviceQueryFailed))
    );
}

#[test]
fn continuous_run_waits_after_a_cycle() {
    let mut run = EventLoop::new(true, Duration::from_millis(2500));
    run.step(DONE);
    assert_eq!(run.action(), LoopAction::Wait(Duration::from_millis(2500)));
}

#[test]
fn notification_and_timer_start_the_next_cycle() {
    let mut run = EventLoop::new(true, REFRESH);
    run.step(DONE);
    run.step(LoopEvent::Notified);
    assert_eq!(run.action(), LoopAction::RunCycle);
    run.step(DONE);
    assert_eq!(run.action(), LoopAction::Wait(REFRESH));
    run.step(LoopEvent::TimerElapsed);
    assert_eq!(run.action(), LoopAction::RunCycle);
    run.step(DONE);
    assert_eq!(run.action(), LoopAction::Wait(REFRESH));
}

#[test]
fn cancellation_while_waiting_ends_the_run_cleanly() {
    let mut run = EventLoop::new(true, REFRESH);
    run.step(DONE);
    assert_eq!(run.action(), LoopAction::Wait(REFRESH));
    run.step(LoopEvent::Cancelled);
    assert_eq!(run.action(), LoopAction::Exit(ExitStatus::Clean));
    for event in [LoopEvent::Notified, LoopEvent::TimerElapsed, DONE, FAILED, LoopEvent::Cancelled] {
        run.step(event);
        assert_eq!(run.action(), LoopAction::Exit(ExitStatus::Clean));
    }
}

#[test]
fn failed_cycle_ends_a_continuous_run() {
    let mut run = EventLoop::new(true, REFRESH);
    run.step(DONE);
    run.step(LoopEvent::Notified);
    run.step(FAILED);
    let failed = LoopAction::Exit(ExitStatus::Failed(CycleError::DeviceQueryFailed));
    assert_eq!(run.action(), failed);
    run.step(LoopEvent::TimerElapsed);
    assert_eq!(run.action(), failed);
    run.step(DONE);
    assert_eq!(run.action(), failed);
}

#[test]
fn notification_and_timer_during_a_cycle_are_lost() {
    let mut run = EventLoop::new(true, REFRESH);
    for event in [LoopEvent::Notified, LoopEvent::TimerElapsed, LoopEvent::Notified] {
        run.step(event);
        assert_eq!(run.action(), LoopAction::RunCycle);
    }
    run.step(DONE);
    assert_eq!(run.action(), LoopAction::Wait(REFRESH));
}

#[test]
fn cancellation_during_a_cycle_ends_the_run_after_the_cycle() {
    let mut run = EventLoop::new(true, REFRESH);
    run.step(LoopEvent::Cancelled);
    assert_eq!(run.action(), LoopAction::RunCycle);
    run.step(LoopEvent::Notified);
    assert_eq!(run.action(), LoopAction::RunCycle);
    run.step(DONE);
    assert_eq!(run.action(), LoopAction::Exit(ExitStatus::Clean));

    let mut run = EventLoop::new(true, REFRESH);
    run.step(DONE);
    run.step(LoopEvent::TimerElapsed);
    run.step(LoopEvent::Cancelled);
    run.step(FAILED);
    assert_eq!(
        run.action(),
        LoopAction::Exit(ExitStatus::Failed(CycleError::DeviceQueryFailed))
    );

    let mut run = EventLoop::new(false, REFRESH);
    run.step(LoopEvent::Cancelled);
    assert_eq!(run.action(), LoopAction::RunCycle);
    run.step(DONE);
    assert_eq!(run.action(), LoopAction::Exit(ExitStatus::Clean));
}

#[test]
fn cancellation_is_forgotten_with_the_run_that_it_ended() {
    let mut run = EventLoop::new(true, REFRESH);
    run.step(DONE);
    run.step(LoopEvent::Notified);
    run.step(DONE);
    run.step(LoopEvent::TimerElapsed);
    assert_eq!(run.action(), LoopAction::RunCycle);
    run.step(DONE);
    assert_eq!(run.action(), LoopAction::Wait(REFRESH));
}

#[test]
fn end_of_a_cycle_during_a_wait_is_not_taken() {
    let mut run = EventLoop::new(true, REFRESH);
    run.step(DONE);
    run.step(DONE);
    assert_eq!(run.action(), LoopAction::Wait(REFRESH));
    run.step(FAILED);
    assert_eq!(run.action(), LoopAction::Wait(REFRESH));
}

#[test]
fn exit_codes() {
    assert_eq!(ExitStatus::Clean.code(), 0);
    assert_eq!(ExitStatus::Failed(CycleError::DeviceQueryFailed).code(), 1);
}
