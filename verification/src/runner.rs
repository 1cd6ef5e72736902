//! The event loop runner: the life-cycle state machine that decides which
//! control-flow events the application receives, and the loop's exit code
//! and control flow.
//!
//! ```text
//!    Uninitialized
//!          |
//!          V
//!        Idle
//!       ^    |
//!       |    V
//! HandlingMainEvents
//!         |
//!         V
//!     Destroyed
//! ```

use std::time::Instant;
use vstd::prelude::*;
use crate::time::instant_now;
use crate::window_id::WindowId;

verus! {

/// Where the runner stands in its life cycle.
#[derive(Debug, Clone, Copy, PartialEq, Eq, Hash, Structural)]
pub enum RunnerState {
    /// The event loop has just been created, and an `Init` event must be sent.
    Uninitialized,
    /// The event loop is idling.
    Idle,
    /// The event loop is handling the OS's events and sending them to the user's callback.
    /// `NewEvents` has been sent, and `AboutToWait` hasn't.
    HandlingMainEvents,
    /// The event loop has been destroyed. No other events will be emitted.
    Destroyed,
}

/// A call into the application that a state change asks for, in the order given.
#[derive(Debug, Clone, Copy, PartialEq, Eq, Structural)]
pub enum RunnerAction {
    /// `new_events`; `init` is set when the loop leaves `Uninitialized`.
    NewEvents { init: bool },
    /// `can_create_surfaces`, once, right after the first `NewEvents`.
    CanCreateSurfaces,
    /// `about_to_wait`: the last event dispatched before the loop waits again.
    AboutToWait,
    /// `exiting`: the loop is being destroyed.
    LoopExiting,
}

/// How the event loop waits for new events.
#[derive(Debug, Clone, Copy)]
pub enum ControlFlow {
    /// Run the loop again at once, whether or not new events came.
    Poll,
    /// Sleep until a new event comes.
    Wait,
    /// Sleep until a new event comes or the instant is reached.
    WaitUntil(Instant),
}

/// Identifies an input device.
#[derive(Debug, Clone, Copy, PartialEq, Eq, Hash, Structural)]
pub struct DeviceId(pub i64);

/// An event handed to the loop from outside: one of a device, one of a
/// window, or a wake-up. The loop carries the payloads as they come and
/// does not read them.
#[derive(Debug, Clone)]
pub enum Event<W, D> {
    Device { device_id: DeviceId, event: D },
    Window { window_id: WindowId, event: W },
    WakeUp,
}

/// A call into the application that delivers an event.
#[derive(Debug, Clone, PartialEq, Eq)]
pub enum EventCall<W, D> {
    /// `window_event` with the window and its event.
    WindowEvent { window_id: WindowId, event: W },
    /// `device_event` with the device and its event.
    DeviceEvent { device_id: DeviceId, event: D },
    /// `proxy_wake_up`, for a wake-up.
    ProxyWakeUp,
}

/// The call that delivers `event`: a window event goes to `window_event`, a
/// device event to `device_event`, a wake-up to `proxy_wake_up`, each with
/// the event's own ids and payload.
pub open spec fn event_call<W, D>(event: Event<W, D>) -> EventCall<W, D> {
    match event {
        Event::Device { device_id, event } => EventCall::DeviceEvent { device_id, event },
        Event::Window { window_id, event } => EventCall::WindowEvent { window_id, event },
        Event::WakeUp => EventCall::ProxyWakeUp,
    }
}

/// Delivering an event keeps what it carries: a window event goes to
/// `window_event` with the same window id and payload, a device event to
/// `device_event` with the same device id and payload, a wake-up to
/// `proxy_wake_up`.
pub proof fn lemma_event_call_keeps_ids<W, D>(window_id: WindowId, device_id: DeviceId, w: W, d: D)
    ensures
        event_call(Event::<W, D>::Window { window_id, event: w }) == (EventCall::WindowEvent::<
            W,
            D,
        > { window_id, event: w }),
        event_call(Event::<W, D>::Device { device_id, event: d }) == (EventCall::DeviceEvent::<
            W,
            D,
        > { device_id, event: d }),
        event_call(Event::<W, D>::WakeUp) == EventCall::<W, D>::ProxyWakeUp,
{
}

impl<W, D> Event<W, D> {
    /// Marks a scale-factor change as buffered; this backend buffers
    /// nothing, so the event is returned as it is.
    pub fn buffer_scale_factor(self) -> (event: Self)
        ensures
            event == self,
    {
        self
    }

    /// The call into the application that delivers this event.
    pub fn dispatch_event(self) -> (call: EventCall<W, D>)
        ensures
            call == event_call(self),
            self matches Event::Window { window_id, event } ==> call == (EventCall::WindowEvent::<
                W,
                D,
            > { window_id, event }),
            self matches Event::Device { device_id, event } ==> call == (EventCall::DeviceEvent::<
                W,
                D,
            > { device_id, event }),
            self is WakeUp ==> call == EventCall::<W, D>::ProxyWakeUp,
    {
        match self {
            Event::Device { device_id, event } => EventCall::DeviceEvent { device_id, event },
            Event::Window { window_id, event } => EventCall::WindowEvent { window_id, event },
            Event::WakeUp => EventCall::ProxyWakeUp,
        }
    }

    /// Resets what the event holds of the runner; there is nothing to reset.
    pub fn reset_runner(&self) {
    }
}

/// A move of the runner that does not panic: nothing moves back to
/// `Uninitialized`, and nothing leaves `Destroyed`.
pub open spec fn may_move(from: RunnerState, to: RunnerState) -> bool {
    &&& (to == RunnerState::Uninitialized ==> from == RunnerState::Uninitialized)
    &&& (from == RunnerState::Destroyed ==> to == RunnerState::Destroyed)
}

/// The calls into the application that moving from `from` to `to` makes, in
/// order. Moving to the current state makes none. Leaving `Uninitialized`
/// starts the loop (`NewEvents` with `init`, then `CanCreateSurfaces`);
/// leaving `HandlingMainEvents` ends a pass (`AboutToWait`); entering
/// `Destroyed` ends the loop (`LoopExiting`). A move that skips
/// `HandlingMainEvents` makes the calls of passing through it, but for `Idle`
/// to `Destroyed`, which only ends the loop.
pub open spec fn transition_actions(from: RunnerState, to: RunnerState) -> Seq<RunnerAction> {
    match (from, to) {
        (RunnerState::Uninitialized, RunnerState::HandlingMainEvents) => seq![
            RunnerAction::NewEvents { init: true },
            RunnerAction::CanCreateSurfaces,
        ],
        (RunnerState::Uninitialized, RunnerState::Idle) => seq![
            RunnerAction::NewEvents { init: true },
            RunnerAction::CanCreateSurfaces,
            RunnerAction::AboutToWait,
        ],
        (RunnerState::Uninitialized, RunnerState::Destroyed) => seq![
            RunnerAction::NewEvents { init: true },
            RunnerAction::CanCreateSurfaces,
            RunnerAction::AboutToWait,
            RunnerAction::LoopExiting,
        ],
        (RunnerState::Idle, RunnerState::HandlingMainEvents) => seq![
            RunnerAction::NewEvents { init: false },
        ],
        (RunnerState::Idle, RunnerState::Destroyed) => seq![RunnerAction::LoopExiting],
        (RunnerState::HandlingMainEvents, RunnerState::Idle) => seq![RunnerAction::AboutToWait],
        (RunnerState::HandlingMainEvents, RunnerState::Destroyed) => seq![
            RunnerAction::AboutToWait,
            RunnerAction::LoopExiting,
        ],
        _ => seq![],
    }
}

/// The moves after which the runner records when it last cleared its events:
/// those that dispatch `AboutToWait`.
pub open spec fn records_events_cleared(from: RunnerState, to: RunnerState) -> bool {
    ||| from == RunnerState::Uninitialized && to == RunnerState::Idle
    ||| from == RunnerState::Uninitialized && to == RunnerState::Destroyed
    ||| from == RunnerState::HandlingMainEvents && to == RunnerState::Idle
    ||| from == RunnerState::HandlingMainEvents && to == RunnerState::Destroyed
}

/// What a runner holds, as values.
pub struct RunnerView {
    pub runner_state: RunnerState,
    pub exit: Option<i32>,
    pub control_flow: ControlFlow,
    /// Whether an application handler is attached for the current run.
    pub app_attached: bool,
    /// When the runner last dispatched `AboutToWait`, or was made.
    pub last_events_cleared: Instant,
}

/// The state shared by the event loop and the handle that the application sees.
#[derive(Debug)]
pub struct EventLoopRunner {
    runner_state: RunnerState,
    exit: Option<i32>,
    control_flow: ControlFlow,
    app_attached: bool,
    last_events_cleared: Instant,
}

impl View for EventLoopRunner {
    type V = RunnerView;

    closed spec fn view(&self) -> RunnerView {
        RunnerView {
            runner_state: self.runner_state,
            exit: self.exit,
            control_flow: self.control_flow,
            app_attached: self.app_attached,
            last_events_cleared: self.last_events_cleared,
        }
    }
}

/// A freshly made runner: uninitialized, no exit code, polling, no
/// application attached.
pub open spec fn fresh_runner(runner: RunnerView) -> bool {
    &&& runner.runner_state == RunnerState::Uninitialized
    &&& runner.exit is None
    &&& runner.control_flow == ControlFlow::Poll
    &&& !runner.app_attached
}

/// What a move from `old` to `new_runner_state` leaves: the new state, and
/// the rest as it was but for the instant of the last `AboutToWait`, which
/// the moves that dispatch it record anew.
pub open spec fn moved(old: RunnerView, new_runner_state: RunnerState, new: RunnerView) -> bool {
    &&& new.runner_state == new_runner_state
    &&& new.exit == old.exit
    &&& new.control_flow == old.control_flow
    &&& new.app_attached == old.app_attached
    &&& (!records_events_cleared(old.runner_state, new_runner_state)
        ==> new.last_events_cleared == old.last_events_cleared)
}

impl EventLoopRunner {
    /// A fresh runner: uninitialized, no exit code, polling, no application attached.
    pub fn new() -> (runner: Self)
        ensures
            fresh_runner(runner@),
    {
        EventLoopRunner {
            runner_state: RunnerState::Uninitialized,
            exit: None,
            control_flow: ControlFlow::Poll,
            app_attached: false,
            last_events_cleared: instant_now(),
        }
    }

    pub fn runner_state(&self) -> (state: RunnerState)
        ensures
            state == self@.runner_state,
    {
        self.runner_state
    }

    /// Whether an application handler is attached.
    pub fn app_attached(&self) -> (attached: bool)
        ensures
            attached == self@.app_attached,
    {
        self.app_attached
    }

    /// When the runner last dispatched `AboutToWait`, or was made.
    pub fn last_events_cleared(&self) -> (instant: Instant)
        ensures
            instant == self@.last_events_cleared,
    {
        self.last_events_cleared
    }

    /// Moves the runner to `new_runner_state` and returns the calls into the
    /// application that the move makes, in order (see the diagram above).
    /// Moving back to `Uninitialized`, or away from `Destroyed`, is a
    /// programming error that the `requires` rules out.
    pub fn move_state_to(&mut self, new_runner_state: RunnerState) -> (actions: Vec<RunnerAction>)
        requires
            may_move(old(self)@.runner_state, new_runner_state),
        ensures
            actions@ == transition_actions(old(self)@.runner_state, new_runner_state),
            moved(old(self)@, new_runner_state, final(self)@),
    {
        let old_state = self.runner_state;
        self.runner_state = new_runner_state;
        let mut actions: Vec<RunnerAction> = Vec::new();
        match (old_state, new_runner_state) {
            (RunnerState::Uninitialized, RunnerState::HandlingMainEvents) => {
                actions.push(RunnerAction::NewEvents { init: true });
                actions.push(RunnerAction::CanCreateSurfaces);
            },
            (RunnerState::Uninitialized, RunnerState::Idle) => {
                actions.push(RunnerAction::NewEvents { init: true });
                actions.push(RunnerAction::CanCreateSurfaces);
                actions.push(RunnerAction::AboutToWait);
                self.last_events_cleared = instant_now();
            },
            (RunnerState::Uninitialized, RunnerState::Destroyed) => {
                actions.push(RunnerAction::NewEvents { init: true });
                actions.push(RunnerAction::CanCreateSurfaces);
                actions.push(RunnerAction::AboutToWait);
                self.last_events_cleared = instant_now();
                actions.push(RunnerAction::LoopExiting);
            },
            (RunnerState::Idle, RunnerState::HandlingMainEvents) => {
                actions.push(RunnerAction::NewEvents { init: false });
            },
            (RunnerState::Idle, RunnerState::Destroyed) => {
                actions.push(RunnerAction::LoopExiting);
            },
            (RunnerState::HandlingMainEvents, RunnerState::Idle) => {
                // This is always the last event we dispatch before waiting for new events.
                actions.push(RunnerAction::AboutToWait);
                self.last_events_cleared = instant_now();
            },
            (RunnerState::HandlingMainEvents, RunnerState::Destroyed) => {
                actions.push(RunnerAction::AboutToWait);
                self.last_events_cleared = instant_now();
                actions.push(RunnerAction::LoopExiting);
            },
            _ => {},
        }
        proof {
            assert(actions@ =~= transition_actions(old_state, new_runner_state));
        }
        actions
    }

    /// Records the code with which the loop is to exit.
    pub fn set_exit_code(&mut self, code: i32)
        ensures
            final(self)@ == (RunnerView { exit: Some(code), ..old(self)@ }),
    {
        self.exit = Some(code);
    }

    /// The code with which the loop is to exit, if one was recorded.
    pub fn exit_code(&self) -> (code: Option<i32>)
        ensures
            code == self@.exit,
    {
        self.exit
    }

    /// Moves to `Idle` before the loop waits for new events.
    pub fn prepare_wait(&mut self) -> (actions: Vec<RunnerAction>)
        requires
            old(self)@.runner_state != RunnerState::Destroyed,
        ensures
            actions@ == transition_actions(old(self)@.runner_state, RunnerState::Idle),
            moved(old(self)@, RunnerState::Idle, final(self)@),
    {
        self.move_state_to(RunnerState::Idle)
    }

    /// Moves to `HandlingMainEvents` once the loop has woken up.
    pub fn wakeup(&mut self) -> (actions: Vec<RunnerAction>)
        requires
            old(self)@.runner_state != RunnerState::Destroyed,
        ensures
            actions@ == transition_actions(old(self)@.runner_state, RunnerState::HandlingMainEvents),
            moved(old(self)@, RunnerState::HandlingMainEvents, final(self)@),
            final(self)@.last_events_cleared == old(self)@.last_events_cleared,
    {
        self.move_state_to(RunnerState::HandlingMainEvents)
    }

    /// Takes an event received while waiting and returns the call into the
    /// application that delivers it; once the runner is destroyed no event
    /// is delivered. The runner is left as it was.
    pub fn send_event<W, D>(&mut self, event: Event<W, D>) -> (call: Option<EventCall<W, D>>)
        ensures
            call == (if old(self)@.runner_state == RunnerState::Destroyed {
                None
            } else {
                Some(event_call(event))
            }),
            call is None <==> old(self)@.runner_state == RunnerState::Destroyed,
            call matches Some(c) ==> (event matches Event::Window { window_id, event: e } ==> c == (
            EventCall::WindowEvent::<W, D> { window_id, event: e })),
            call matches Some(c) ==> (event matches Event::Device { device_id, event: e } ==> c == (
            EventCall::DeviceEvent::<W, D> { device_id, event: e })),
            call matches Some(c) ==> (event is WakeUp ==> c == EventCall::<W, D>::ProxyWakeUp),
            final(self)@ == old(self)@,
    {
        if self.runner_state == RunnerState::Destroyed {
            None
        } else {
            Some(event.dispatch_event())
        }
    }

    /// Moves to `Destroyed` when the loop ends.
    pub fn loop_destroyed(&mut self) -> (actions: Vec<RunnerAction>)
        ensures
            actions@ == transition_actions(old(self)@.runner_state, RunnerState::Destroyed),
            moved(old(self)@, RunnerState::Destroyed, final(self)@),
    {
        self.move_state_to(RunnerState::Destroyed)
    }

    /// Forgets the exit code, before a run starts.
    pub fn clear_exit(&mut self)
        ensures
            final(self)@ == (RunnerView { exit: None, ..old(self)@ }),
    {
        self.exit = None;
    }

    /// Forgets the exit code, once a run has ended.
    pub fn reset_runner(&mut self)
        ensures
            final(self)@ == (RunnerView { exit: None, ..old(self)@ }),
    {
        self.exit = None;
    }

    /// Attaches the application handler for a run. Attaching a second one
    /// while one is attached is a programming error that the `requires`
    /// rules out.
    pub fn set_app(&mut self)
        requires
            !old(self)@.app_attached,
        ensures
            final(self)@ == (RunnerView { app_attached: true, ..old(self)@ }),
    {
        self.app_attached = true;
    }

    /// Detaches the application handler when a run ends.
    pub fn reset_app(&mut self)
        ensures
            final(self)@ == (RunnerView { app_attached: false, ..old(self)@ }),
    {
        self.app_attached = false;
    }

    /// The control flow the application last asked for.
    pub fn control_flow(&self) -> (control_flow: ControlFlow)
        ensures
            control_flow == self@.control_flow,
    {
        self.control_flow
    }

    /// Records the control flow the application asks for.
    pub fn set_control_flow(&mut self, control_flow: ControlFlow)
        ensures
            final(self)@ == (RunnerView { control_flow, ..old(self)@ }),
    {
        self.control_flow = control_flow;
    }

    /// Asks the loop to exit with code 0.
    pub fn exit(&mut self)
        ensures
            final(self)@ == (RunnerView { exit: Some(0), ..old(self)@ }),
    {
        self.set_exit_code(0)
    }

    /// Whether an exit was asked for.
    pub fn exiting(&self) -> (exiting: bool)
        ensures
            exiting == self@.exit is Some,
    {
        self.exit_code().is_some()
    }
}

/// Moving to the state the runner is in is allowed and dispatches nothing.
pub proof fn lemma_move_to_same_state_is_no_op(state: RunnerState)
    ensures
        may_move(state, state),
        transition_actions(state, state) == Seq::<RunnerAction>::empty(),
        !records_events_cleared(state, state),
{
}

/// Once destroyed, the runner can only stay destroyed; and nothing moves
/// back to `Uninitialized`.
pub proof fn lemma_destroyed_is_final(from: RunnerState, to: RunnerState)
    requires
        may_move(from, to),
    ensures
        from == RunnerState::Destroyed ==> to == RunnerState::Destroyed,
        to == RunnerState::Uninitialized ==> from == RunnerState::Uninitialized,
{
}

/// A move that skips `HandlingMainEvents` still dispatches what passing
/// through it would: the calls of `from` to `HandlingMainEvents`, then those
/// of `HandlingMainEvents` to `to`. The one move for which this does not
/// hold, `Idle` to `Destroyed`, which only dispatches `LoopExiting`, is left out.
pub proof fn lemma_intermediate_transitions_dispatched(from: RunnerState, to: RunnerState)
    requires
        may_move(from, to),
        from != to,
        from != RunnerState::HandlingMainEvents,
        to != RunnerState::HandlingMainEvents,
        !(from == RunnerState::Idle && to == RunnerState::Destroyed),
    ensures
        may_move(from, RunnerState::HandlingMainEvents),
        may_move(RunnerState::HandlingMainEvents, to),
        transition_actions(from, to) == transition_actions(from, RunnerState::HandlingMainEvents)
            + transition_actions(RunnerState::HandlingMainEvents, to),
{
    assert(transition_actions(from, to) =~= transition_actions(
        from,
        RunnerState::HandlingMainEvents,
    ) + transition_actions(RunnerState::HandlingMainEvents, to));
}

/// The runner records when it last cleared its events exactly on the moves
/// that dispatch `AboutToWait`.
pub proof fn lemma_events_cleared_with_about_to_wait(from: RunnerState, to: RunnerState)
    ensures
        records_events_cleared(from, to) <==> transition_actions(from, to).contains(
            RunnerAction::AboutToWait,
        ),
{
    let actions = transition_actions(from, to);
    if records_events_cleared(from, to) {
        if to == RunnerState::Destroyed {
            assert(actions[actions.len() - 2] == RunnerAction::AboutToWait);
        } else {
            assert(actions[actions.len() - 1] == RunnerAction::AboutToWait);
        }
    } else {
        assert forall|i: int| 0 <= i < actions.len() implies actions[i] != RunnerAction::AboutToWait by {
        }
    }
}

/// Where each call stands in the calls of a move: `NewEvents` comes first,
/// and marks the start of the loop exactly when the runner leaves
/// `Uninitialized`, in which case `CanCreateSurfaces` follows it;
/// `LoopExiting` comes last, exactly on a move into `Destroyed`, right after
/// `AboutToWait` when there is one.
pub proof fn lemma_action_order(from: RunnerState, to: RunnerState, i: int)
    requires
        0 <= i < transition_actions(from, to).len(),
    ensures
        transition_actions(from, to)[i] matches RunnerAction::NewEvents { init }
            ==> init == (from == RunnerState::Uninitialized) && i == 0,
        transition_actions(from, to)[i] == RunnerAction::CanCreateSurfaces
            <==> (from == RunnerState::Uninitialized && i == 1),
        transition_actions(from, to)[i] == RunnerAction::LoopExiting
            <==> (to == RunnerState::Destroyed && from != RunnerState::Destroyed && i
            == transition_actions(from, to).len() - 1),
        transition_actions(from, to)[i] == RunnerAction::AboutToWait ==> (i
            == transition_actions(from, to).len() - 1 || (to == RunnerState::Destroyed && i
            == transition_actions(from, to).len() - 2)),
{
}

} // verus!
