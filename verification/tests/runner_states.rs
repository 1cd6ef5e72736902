use winit_agnostic::runner::{ControlFlow, DeviceId, Event, EventCall, EventLoopRunner, RunnerAction, RunnerState};
use winit_agnostic::window_id::WindowId;

use RunnerAction::{AboutToWait, CanCreateSurfaces, LoopExiting, NewEvents};
use RunnerState::{Destroyed, HandlingMainEvents, Idle, Uninitialized};

fn runner_in(state: RunnerState) -> EventLoopRunner {
    let mut runner = EventLoopRunner::new();
    runner.move_state_to(state);
    runner
}

#[test]
fn new_runner_is_uninitialized_and_polling() {
    let runner = EventLoopRunner::new();
    assert_eq!(runner.runner_state(), Uninitialized);
    assert_eq!(runner.exit_code(), None);
    assert!(matches!(runner.control_flow(), ControlFlow::Poll));
    assert!(!runner.app_attached());
}

#[test]
fn uninitialized_to_handling_sends_init() {
    let mut runner = EventLoopRunner::new();
    let actions = runner.move_state_to(HandlingMainEvents);
    assert_eq!(actions, vec![NewEvents { init: true }, CanCreateSurfaces]);
    assert_eq!(runner.runner_state(), HandlingMainEvents);
}

#[test]
fn uninitialized_to_idle_passes_through_handling() {
    let mut runner = EventLoopRunner::new();
    let actions = runner.move_state_to(Idle);
    assert_eq!(actions, vec![NewEvents { init: true }, CanCreateSurfaces, AboutToWait]);
    assert_eq!(runner.runner_state(), Idle);
}

#[test]
fn uninitialized_to_destroyed_passes_through_handling() {
    let mut runner = EventLoopRunner::new();
    let actions = runner.move_state_to(Destroyed);
    assert_eq!(actions, vec![NewEvents { init: true }, CanCreateSurfaces, AboutToWait, LoopExiting]);
    assert_eq!(runner.runner_state(), Destroyed);
}

#[test]
fn idle_to_handling_sends_new_events() {
    let mut runner = runner_in(Idle);
    assert_eq!(runner.move_state_to(HandlingMainEvents), vec![NewEvents { init: false }]);
}

#[test]
fn handling_to_idle_sends_about_to_wait() {
    let mut runner = runner_in(HandlingMainEvents);
    assert_eq!(runner.move_state_to(Idle), vec![AboutToWait]);
}

#[test]
fn handling_to_destroyed_sends_about_to_wait_then_exiting() {
    let mut runner = runner_in(HandlingMainEvents);
    assert_eq!(runner.move_state_to(Destroyed), vec![AboutToWait, LoopExiting]);
}

#[test]
fn idle_to_destroyed_only_exits() {
    let mut runner = runner_in(Idle);
    assert_eq!(runner.move_state_to(Destroyed), vec![LoopExiting]);
    assert_eq!(runner.runner_state(), Destroyed);
}

#[test]
fn moving_to_the_same_state_sends_nothing() {
    for state in [Uninitialized, Idle, HandlingMainEvents, Destroyed] {
        let mut runner = runner_in(state);
        assert!(runner.move_state_to(state).is_empty());
        assert_eq!(runner.runner_state(), state);
    }
}

#[test]
fn moves_keep_exit_code_and_attachment() {
    let mut runner = EventLoopRunner::new();
    runner.set_exit_code(3);
    runner.set_app();
    runner.prepare_wait();
    runner.wakeup();
    assert_eq!(runner.exit_code(), Some(3));
    assert!(runner.app_attached());
}

#[test]
fn events_cleared_is_kept_when_no_about_to_wait() {
    let mut runner = runner_in(Idle);
    let before = runner.last_events_cleared();
    runner.wakeup();
    assert_eq!(runner.last_events_cleared(), before);
}

#[test]
fn wait_cycle_alternates_about_to_wait_and_new_events() {
    let mut runner = EventLoopRunner::new();
    assert_eq!(runner.prepare_wait(), vec![NewEvents { init: true }, CanCreateSurfaces, AboutToWait]);
    assert_eq!(runner.wakeup(), vec![NewEvents { init: false }]);
    assert_eq!(runner.prepare_wait(), vec![AboutToWait]);
    assert_eq!(runner.wakeup(), vec![NewEvents { init: false }]);
    assert_eq!(runner.loop_destroyed(), vec![AboutToWait, LoopExiting]);
}

#[test]
fn exit_code_round_trip() {
    let mut runner = EventLoopRunner::new();
    assert_eq!(runner.exit_code(), None);
    assert!(!runner.exiting());
    runner.set_exit_code(-7);
    assert_eq!(runner.exit_code(), Some(-7));
    assert!(runner.exiting());
    runner.clear_exit();
    assert_eq!(runner.exit_code(), None);
    runner.exit();
    assert_eq!(runner.exit_code(), Some(0));
    runner.reset_runner();
    assert_eq!(runner.exit_code(), None);
}

#[test]
fn control_flow_round_trip() {
    let mut runner = EventLoopRunner::new();
    runner.set_control_flow(ControlFlow::Wait);
    assert!(matches!(runner.control_flow(), ControlFlow::Wait));
    let deadline = std::time::Instant::now();
    runner.set_control_flow(ControlFlow::WaitUntil(deadline));
    assert!(matches!(runner.control_flow(), ControlFlow::WaitUntil(d) if d == deadline));
}

#[test]
fn app_attach_and_reset() {
    let mut runner = EventLoopRunner::new();
    runner.set_app();
    assert!(runner.app_attached());
    runner.reset_app();
    assert!(!runner.app_attached());
}

#[test]
fn events_pass_through_unchanged() {
    let event: Event<u8, u8> = Event::Window { window_id: WindowId::from_raw(1), event: 9 };
    let buffered = event.buffer_scale_factor();
    assert!(matches!(buffered, Event::Window { window_id: WindowId(1), event: 9 }));
    let device: Event<u8, u8> = Event::Device { device_id: DeviceId(4), event: 2 };
    assert_eq!(device.dispatch_event(), EventCall::DeviceEvent { device_id: DeviceId(4), event: 2 });
    let mut runner = runner_in(Idle);
    assert_eq!(runner.send_event::<u8, u8>(Event::WakeUp), Some(EventCall::ProxyWakeUp));
    assert_eq!(
        runner.send_event::<&str, u8>(Event::Window { window_id: WindowId(1), event: "theme changed" }),
        Some(EventCall::WindowEvent { window_id: WindowId(1), event: "theme changed" })
    );
    assert_eq!(runner.runner_state(), Idle);
    let mut destroyed = runner_in(Destroyed);
    assert_eq!(destroyed.send_event::<u8, u8>(Event::WakeUp), None);
}
