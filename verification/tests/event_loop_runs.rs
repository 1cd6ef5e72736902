use std::time::{Duration, Instant};
use winit_agnostic::event_loop::{RequestError, RunPoint, RunStep, control_flow_timeout, min_timeout, plan_wait, WaitAction, DeviceEvents, EventLoop, EventLoopError, EventLoopProxy, PumpStatus};
use winit_agnostic::runner::{ControlFlow, RunnerAction, RunnerState};

use RunnerAction::{AboutToWait, CanCreateSurfaces, LoopExiting, NewEvents};

#[test]
fn only_the_first_event_loop_is_created() {
    let mut created = false;
    let first = EventLoop::new(&mut created);
    assert!(first.is_ok());
    assert!(created);
    let second = EventLoop::new(&mut created);
    assert_eq!(second.err(), Some(EventLoopError::RecreationAttempt));
    assert!(created);
}

#[test]
fn run_with_exit_zero_is_ok() {
    let mut created = false;
    let mut event_loop = EventLoop::new(&mut created).unwrap();
    event_loop.start_run();
    let mut seen = Vec::new();
    seen.extend(event_loop.begin_wait(false, None, Instant::now()).0);
    seen.extend(event_loop.end_wait());
    assert_eq!(event_loop.exit_code(), None);
    assert!(!event_loop.dispatch_peeked_messages(false));
    assert!(event_loop.dispatch_peeked_messages(true));
    seen.extend(event_loop.begin_wait(false, None, Instant::now()).0);
    seen.extend(event_loop.end_wait());
    event_loop.runner_mut().exit();
    assert_eq!(event_loop.exit_code(), Some(0));
    let (result, actions) = event_loop.finish_run();
    seen.extend(actions);
    assert_eq!(result, Ok(()));
    assert_eq!(
        seen,
        vec![
            NewEvents { init: true },
            CanCreateSurfaces,
            AboutToWait,
            NewEvents { init: false },
            AboutToWait,
            NewEvents { init: false },
            AboutToWait,
            LoopExiting
        ]
    );
    assert_eq!(event_loop.runner().runner_state(), RunnerState::Destroyed);
    assert_eq!(event_loop.exit_code(), None);
    assert!(!event_loop.runner().app_attached());
}

#[test]
fn run_with_nonzero_exit_fails_with_the_code() {
    let mut created = false;
    let mut event_loop = EventLoop::new(&mut created).unwrap();
    event_loop.start_run();
    event_loop.begin_wait(false, None, Instant::now()).0;
    event_loop.end_wait();
    event_loop.runner_mut().set_exit_code(42);
    let (result, _) = event_loop.finish_run();
    assert_eq!(result, Err(EventLoopError::ExitFailure(42)));
}

#[test]
fn start_run_forgets_an_earlier_exit_code() {
    let mut created = false;
    let mut event_loop = EventLoop::new(&mut created).unwrap();
    event_loop.runner_mut().set_exit_code(1);
    event_loop.start_run();
    assert_eq!(event_loop.exit_code(), None);
    assert!(event_loop.runner().app_attached());
}

#[test]
fn pump_reports_continue() {
    let mut created = false;
    let mut event_loop = EventLoop::new(&mut created).unwrap();
    assert_eq!(event_loop.pump_app_events(Some(Duration::from_millis(5)), ()), PumpStatus::Continue);
    assert_eq!(event_loop.pump_app_events(None, 0u8), PumpStatus::Continue);
    assert_eq!(event_loop.runner().runner_state(), RunnerState::Uninitialized);
}

#[test]
fn handle_answers() {
    let mut created = false;
    let event_loop = EventLoop::new(&mut created).unwrap();
    let runner = event_loop.runner();
    assert_eq!(runner.create_custom_cursor(()), Err(RequestError::Ignored));
    assert!(runner.available_monitors().is_empty());
    assert_eq!(runner.system_theme(), None);
    let _proxy: EventLoopProxy = runner.create_proxy();
    _proxy.wake_up();
    runner.listen_device_events(DeviceEvents::Never);
    let mut counter = 10u64;
    let monitor = runner.primary_monitor(&mut counter).unwrap();
    assert_eq!(monitor.native_id(), 10);
    assert_eq!(counter, 11);
}

#[test]
fn min_timeout_treats_none_as_infinite() {
    let short = Duration::from_millis(10);
    let long = Duration::from_secs(3);
    assert_eq!(min_timeout(None, None), None);
    assert_eq!(min_timeout(Some(long), None), Some(long));
    assert_eq!(min_timeout(None, Some(short)), Some(short));
    assert_eq!(min_timeout(Some(long), Some(short)), Some(short));
    assert_eq!(min_timeout(Some(short), Some(long)), Some(short));
    assert_eq!(min_timeout(Some(Duration::ZERO), Some(long)), Some(Duration::ZERO));
}

#[test]
fn wait_kind_follows_channel_timeout_and_control_flow() {
    let mut created = false;
    let mut event_loop = EventLoop::new(&mut created).unwrap();
    // A new loop polls: with a channel it only takes what is already queued.
    let (_, wait) = event_loop.begin_wait(true, None, Instant::now());
    assert_eq!(wait, WaitAction::TryReceive);
    event_loop.end_wait();
    event_loop.runner_mut().set_control_flow(ControlFlow::Wait);
    let (_, wait) = event_loop.begin_wait(false, Some(Duration::from_secs(1)), Instant::now());
    assert_eq!(wait, WaitAction::Skip);
    event_loop.end_wait();
    let (_, wait) = event_loop.begin_wait(true, None, Instant::now());
    assert_eq!(wait, WaitAction::Receive);
    event_loop.end_wait();
    let (actions, wait) =
        event_loop.begin_wait(true, Some(Duration::from_millis(250)), Instant::now());
    assert_eq!(wait, WaitAction::ReceiveWithin(Duration::from_millis(250)));
    assert_eq!(actions, vec![AboutToWait]);
}

#[test]
fn control_flow_bounds_the_wait() {
    let now = Instant::now();
    assert_eq!(control_flow_timeout(ControlFlow::Poll, now), Some(Duration::ZERO));
    assert_eq!(control_flow_timeout(ControlFlow::Wait, now), None);
    let deadline = now + Duration::from_secs(2);
    assert_eq!(control_flow_timeout(ControlFlow::WaitUntil(deadline), now), Some(Duration::from_secs(2)));
    let past = now;
    let later = now + Duration::from_secs(1);
    assert_eq!(control_flow_timeout(ControlFlow::WaitUntil(past), later), Some(Duration::ZERO));

    assert_eq!(plan_wait(true, None, ControlFlow::Poll, now), WaitAction::TryReceive);
    assert_eq!(plan_wait(true, None, ControlFlow::Wait, now), WaitAction::Receive);
    assert_eq!(
        plan_wait(true, None, ControlFlow::WaitUntil(deadline), now),
        WaitAction::ReceiveWithin(Duration::from_secs(2))
    );
    assert_eq!(
        plan_wait(true, Some(Duration::from_secs(1)), ControlFlow::WaitUntil(deadline), now),
        WaitAction::ReceiveWithin(Duration::from_secs(1))
    );
    assert_eq!(plan_wait(true, None, ControlFlow::WaitUntil(past), later), WaitAction::TryReceive);
    assert_eq!(plan_wait(false, None, ControlFlow::Wait, now), WaitAction::Skip);
}

#[test]
fn waits_are_clamped() {
    let now = Instant::now();
    assert_eq!(
        plan_wait(true, Some(Duration::from_nanos(1)), ControlFlow::Wait, now),
        WaitAction::ReceiveWithin(Duration::from_nanos(100))
    );
    assert_eq!(
        plan_wait(true, Some(Duration::from_secs(60 * 24 * 60 * 60)), ControlFlow::Wait, now),
        WaitAction::ReceiveWithin(Duration::from_secs(50 * 24 * 60 * 60))
    );
    assert_eq!(
        plan_wait(true, Some(Duration::from_secs(3)), ControlFlow::Wait, now),
        WaitAction::ReceiveWithin(Duration::from_secs(3))
    );
    assert_eq!(plan_wait(true, Some(Duration::ZERO), ControlFlow::Wait, now), WaitAction::TryReceive);
}

#[test]
fn min_timeout_laws_on_values() {
    let a = Some(Duration::from_millis(3));
    let b = Some(Duration::from_millis(7));
    let c = None;
    assert_eq!(min_timeout(a, b), min_timeout(b, a));
    assert_eq!(min_timeout(min_timeout(a, b), c), min_timeout(a, min_timeout(b, c)));
    assert_eq!(min_timeout(Some(Duration::ZERO), b), Some(Duration::ZERO));
    assert_eq!(min_timeout(b, Some(Duration::ZERO)), Some(Duration::ZERO));
}

#[test]
fn run_steps_start_with_a_wait() {
    let mut created = false;
    let mut event_loop = EventLoop::new(&mut created).unwrap();
    event_loop.runner_mut().set_exit_code(9);
    assert_eq!(event_loop.next_run_step(RunPoint::Started), RunStep::Wait);
    event_loop.start_run();
    assert_eq!(event_loop.next_run_step(RunPoint::Started), RunStep::Wait);
    assert_eq!(event_loop.next_run_step(RunPoint::Waited), RunStep::DispatchPeeked);
    assert_eq!(event_loop.next_run_step(RunPoint::Dispatched), RunStep::Wait);
    event_loop.runner_mut().set_exit_code(4);
    assert_eq!(event_loop.next_run_step(RunPoint::Waited), RunStep::Finish(4));
    assert_eq!(event_loop.next_run_step(RunPoint::Dispatched), RunStep::Finish(4));
}
