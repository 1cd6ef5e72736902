//! The event loop: its creation, the decisions of a run, and what the
//! application's handle to the loop answers.

use std::collections::VecDeque;
use std::time::{Duration, Instant};
use vstd::prelude::*;
use crate::monitor::{available_monitors, primary_monitor, virtual_monitor, MonitorHandle};
use crate::runner::{
    fresh_runner, moved, transition_actions, ControlFlow, EventLoopRunner, RunnerAction,
    RunnerState, RunnerView,
};
use crate::window::Cursor;
use crate::time::{
    duration_as_nanos, duration_at_most, duration_from_nanos, duration_from_secs, duration_le,
    duration_nanos, duration_zero, instant_duration_since, saturating_duration_since,
};
use crate::window::Theme;
use crate::window_id::monitor_counter_after;

verus! {

/// Why the event loop could not be created or ended in failure.
#[derive(Debug, Clone, Copy, PartialEq, Eq, Structural)]
pub enum EventLoopError {
    /// An event loop was already created in this process.
    RecreationAttempt,
    /// The application asked the loop to exit with this nonzero code.
    ExitFailure(i32),
}

/// Why a request was not carried out.
#[derive(Debug, Clone, Copy, PartialEq, Eq, Structural)]
pub enum RequestError {
    /// The backend does not carry out such requests.
    Ignored,
}

/// What a pump of the event loop reports.
#[derive(Debug, Clone, Copy, PartialEq, Eq, Structural)]
pub enum PumpStatus {
    /// The loop goes on.
    Continue,
    /// The loop has ended with this code.
    Exit(i32),
}

/// How the loop waits for the next event from outside.
#[derive(Debug, Clone, Copy, PartialEq, Eq)]
pub enum WaitAction {
    /// Do not wait: there is no channel of events.
    Skip,
    /// Take an event only if one is already there: there is no time to wait.
    TryReceive,
    /// Block until an event comes.
    Receive,
    /// Wait for an event at most this long.
    ReceiveWithin(Duration),
}

/// The longest wait the loop makes, fifty days, in nanoseconds.
pub open spec fn fifty_days_nanos() -> int {
    4_320_000_000_000_000int
}

/// The shortest wait the loop makes, 100 nanoseconds: waitable timers count
/// in 100 ns intervals, and shorter waits are not kept any better.
pub open spec fn min_wait_nanos() -> int {
    100int
}

/// The length of an optional timeout, `None` standing for no bound.
pub open spec fn timeout_nanos(timeout: Option<Duration>) -> Option<int> {
    match timeout {
        Some(d) => Some(duration_nanos(d) as int),
        None => None,
    }
}

/// The bound that a control flow puts on a wait that starts at `now`, in
/// nanoseconds: none for `Wait`, zero for `Poll`, and for `WaitUntil` the
/// time left until the deadline (zero once it has passed).
pub open spec fn control_flow_bound(control_flow: ControlFlow, now: Instant) -> Option<int> {
    match control_flow {
        ControlFlow::Poll => Some(0),
        ControlFlow::Wait => None,
        ControlFlow::WaitUntil(deadline) => Some(
            duration_nanos(instant_duration_since(deadline, now)) as int,
        ),
    }
}

/// The smaller of two optional bounds, `None` standing for no bound.
pub open spec fn min_bound(a: Option<int>, b: Option<int>) -> Option<int> {
    match (a, b) {
        (None, _) => b,
        (Some(x), None) => Some(x),
        (Some(x), Some(y)) => Some(if x <= y { x } else { y }),
    }
}

/// A nonzero wait, clamped into 100 ns to fifty days.
pub open spec fn clamped_wait_nanos(nanos: int) -> int {
    let capped = if nanos <= fifty_days_nanos() { nanos } else { fifty_days_nanos() };
    if min_wait_nanos() <= capped { capped } else { min_wait_nanos() }
}

/// Whether `wait` is the wait `wait_for_messages` performs: none without a
/// channel of events; otherwise bounded by the smaller of the timeout asked
/// for and the control flow's bound: a receive that does not wait when that
/// bound is zero, a
/// blocking one when there is no bound, else a bounded one clamped into
/// 100 ns to fifty days.
pub open spec fn is_planned_wait(
    wait: WaitAction,
    has_events: bool,
    timeout: Option<Duration>,
    control_flow: ControlFlow,
    now: Instant,
) -> bool {
    if !has_events {
        wait == WaitAction::Skip
    } else {
        match min_bound(timeout_nanos(timeout), control_flow_bound(control_flow, now)) {
            None => wait == WaitAction::Receive,
            Some(bound) => if bound == 0 {
                wait == WaitAction::TryReceive
            } else {
                wait matches WaitAction::ReceiveWithin(d) && duration_nanos(d) == clamped_wait_nanos(
                    bound,
                )
            },
        }
    }
}

/// A planned wait respects the timeout asked for and the control flow's
/// bound each on its own: there is no wait exactly without a channel; with
/// one, either bound being zero leaves only a receive that does not wait; a
/// blocking receive happens only when neither bounds the wait; and a bounded
/// wait lasts at least 100 ns and at most fifty days, and no longer than
/// either given bound unless that bound is under 100 ns.
pub proof fn lemma_planned_wait_respects_both_bounds(
    wait: WaitAction,
    has_events: bool,
    timeout: Option<Duration>,
    control_flow: ControlFlow,
    now: Instant,
)
    ensures
        is_planned_wait(wait, has_events, timeout, control_flow, now) ==> {
            &&& (wait == WaitAction::Skip <==> !has_events)
            &&& (has_events && (timeout_nanos(timeout) == Some(0int) || control_flow_bound(
                control_flow,
                now,
            ) == Some(0int)) ==> wait == WaitAction::TryReceive)
            &&& (wait == WaitAction::Receive <==> (has_events && timeout is None
                && control_flow_bound(control_flow, now) is None))
            &&& (wait matches WaitAction::ReceiveWithin(d) ==> min_wait_nanos() <= duration_nanos(d)
                <= fifty_days_nanos())
            &&& (wait matches WaitAction::ReceiveWithin(d) ==> (timeout matches Some(t) ==> (
            duration_nanos(d) <= duration_nanos(t) || duration_nanos(d) == min_wait_nanos())))
            &&& (wait matches WaitAction::ReceiveWithin(d) ==> (control_flow_bound(
                control_flow,
                now,
            ) matches Some(b) ==> (duration_nanos(d) <= b || duration_nanos(d) == min_wait_nanos())))
        },
{
}

/// The timeout the control flow asks for when a wait starts at `now`: none
/// for `Wait`, zero for `Poll`, the time left until the deadline for
/// `WaitUntil`.
pub fn control_flow_timeout(control_flow: ControlFlow, now: Instant) -> (timeout: Option<Duration>)
    ensures
        timeout_nanos(timeout) == control_flow_bound(control_flow, now),
        control_flow matches ControlFlow::WaitUntil(deadline) ==> timeout == Some(
            instant_duration_since(deadline, now),
        ),
{
    match control_flow {
        ControlFlow::Poll => Some(duration_zero()),
        ControlFlow::Wait => None,
        ControlFlow::WaitUntil(deadline) => Some(saturating_duration_since(&deadline, &now)),
    }
}

/// Chooses the wait of `wait_for_messages`; see `is_planned_wait`.
pub fn plan_wait(
    has_events: bool,
    timeout: Option<Duration>,
    control_flow: ControlFlow,
    now: Instant,
) -> (wait: WaitAction)
    ensures
        is_planned_wait(wait, has_events, timeout, control_flow, now),
        wait == WaitAction::Skip <==> !has_events,
        has_events && (timeout_nanos(timeout) == Some(0int) || control_flow_bound(control_flow, now)
            == Some(0int)) ==> wait == WaitAction::TryReceive,
        wait == WaitAction::Receive <==> (has_events && timeout is None && control_flow_bound(
            control_flow,
            now,
        ) is None),
        wait matches WaitAction::ReceiveWithin(d) ==> min_wait_nanos() <= duration_nanos(d)
            <= fifty_days_nanos(),
        wait matches WaitAction::ReceiveWithin(d) ==> (timeout matches Some(t) ==> (duration_nanos(d)
            <= duration_nanos(t) || duration_nanos(d) == min_wait_nanos())),
        wait matches WaitAction::ReceiveWithin(d) ==> (control_flow_bound(control_flow, now) matches Some(
            b,
        ) ==> (duration_nanos(d) <= b || duration_nanos(d) == min_wait_nanos())),
{
    if !has_events {
        return WaitAction::Skip;
    }
    let bound = min_timeout(timeout, control_flow_timeout(control_flow, now));
    match bound {
        None => WaitAction::Receive,
        Some(t) => {
            if duration_as_nanos(&t) == 0 {
                // Do not wait if there is no time; only take what is already queued.
                WaitAction::TryReceive
            } else {
                let fifty_days = duration_from_secs(50 * 24 * 60 * 60);
                let min_wait = duration_from_nanos(100);
                let capped = if duration_at_most(&t, &fifty_days) { t } else { fifty_days };
                let clamped = if duration_at_most(&capped, &min_wait) { min_wait } else { capped };
                WaitAction::ReceiveWithin(clamped)
            }
        },
    }
}

/// The device events an application asks to hear.
#[derive(Debug, Clone, Copy, PartialEq, Eq, Hash, Structural)]
pub enum DeviceEvents {
    Always,
    WhenFocused,
    Never,
}

/// The event loop.
#[derive(Debug)]
pub struct EventLoop {
    runner: EventLoopRunner,
}

impl View for EventLoop {
    type V = RunnerView;

    /// The loop is known by its runner.
    closed spec fn view(&self) -> RunnerView {
        self.runner@
    }
}

/// What a run returns for the exit code it ended with.
pub open spec fn run_result(exit_code: i32) -> Result<(), EventLoopError> {
    if exit_code == 0 {
        Ok(())
    } else {
        Err(EventLoopError::ExitFailure(exit_code))
    }
}

/// A run succeeds exactly when its exit code is 0; any other code is
/// reported as a failure that carries that code.
pub proof fn lemma_run_result_reports_the_code(exit_code: i32)
    ensures
        run_result(exit_code) is Ok <==> exit_code == 0,
        exit_code != 0 ==> run_result(exit_code) == Err::<(), EventLoopError>(
            EventLoopError::ExitFailure(exit_code),
        ),
        exit_code == 0 ==> run_result(exit_code) == Ok::<(), EventLoopError>(()),
{
}

/// Where a run of the loop stands between its steps.
#[derive(Debug, Clone, Copy, PartialEq, Eq, Structural)]
pub enum RunPoint {
    /// The run has just started.
    Started,
    /// The loop has just waited for messages.
    Waited,
    /// The loop has just dispatched the messages it peeked.
    Dispatched,
}

/// What a run does next.
#[derive(Debug, Clone, Copy, PartialEq, Eq, Structural)]
pub enum RunStep {
    /// Wait for messages.
    Wait,
    /// Dispatch the messages peeked.
    DispatchPeeked,
    /// Finish the run with this exit code.
    Finish(i32),
}

/// The step a run takes from `point` when the exit code is `exit`: a run
/// starts with a wait; after a wait, and after a dispatch, it finishes when
/// an exit code was set, and goes on (dispatching, then waiting again)
/// otherwise.
pub open spec fn spec_next_run_step(point: RunPoint, exit: Option<i32>) -> RunStep {
    match point {
        RunPoint::Started => RunStep::Wait,
        RunPoint::Waited => match exit {
            Some(code) => RunStep::Finish(code),
            None => RunStep::DispatchPeeked,
        },
        RunPoint::Dispatched => match exit {
            Some(code) => RunStep::Finish(code),
            None => RunStep::Wait,
        },
    }
}

impl EventLoop {
    /// Creates the event loop. `created` records, for the whole process,
    /// whether one was created before: only the first call succeeds.
    pub fn new(created: &mut bool) -> (event_loop: Result<EventLoop, EventLoopError>)
        ensures
            *final(created),
            *old(created) <==> event_loop is Err,
            event_loop matches Err(e) ==> e == EventLoopError::RecreationAttempt,
            event_loop matches Ok(l) ==> fresh_runner(l@),
    {
        let was_created = *created;
        *created = true;
        if was_created {
            return Err(EventLoopError::RecreationAttempt);
        }
        Ok(EventLoop { runner: EventLoopRunner::new() })
    }

    /// The loop's runner, to read.
    pub fn runner(&self) -> (runner: &EventLoopRunner)
        ensures
            runner@ == self@,
    {
        &self.runner
    }

    /// The loop's runner, to change through its own methods.
    pub fn runner_mut(&mut self) -> (runner: &mut EventLoopRunner)
        ensures
            runner@ == old(self)@,
            final(self)@ == final(runner)@,
    {
        &mut self.runner
    }

    /// Starts a run: forgets any earlier exit code and attaches the
    /// application. Attaching while one is attached is a programming error
    /// that the `requires` rules out.
    pub fn start_run(&mut self)
        requires
            !old(self)@.app_attached,
        ensures
            final(self)@ == (RunnerView { exit: None, app_attached: true, ..old(self)@ }),
    {
        self.runner.clear_exit();
        self.runner.set_app();
    }

    /// The step the run takes from `point` (see `spec_next_run_step`).
    pub fn next_run_step(&self, point: RunPoint) -> (step: RunStep)
        ensures
            step == spec_next_run_step(point, self@.exit),
    {
        match point {
            RunPoint::Started => RunStep::Wait,
            RunPoint::Waited => match self.runner.exit_code() {
                Some(code) => RunStep::Finish(code),
                None => RunStep::DispatchPeeked,
            },
            RunPoint::Dispatched => match self.runner.exit_code() {
                Some(code) => RunStep::Finish(code),
                None => RunStep::Wait,
            },
        }
    }

    /// The first half of waiting for messages, at `now`: the runner goes
    /// idle, and the wait to perform is chosen from the channel of events,
    /// the timeout asked for and the control flow (see `is_planned_wait`).
    /// The calls into the application that going idle makes are returned too.
    pub fn begin_wait(&mut self, has_events: bool, timeout: Option<Duration>, now: Instant) -> (waiting: (
        Vec<RunnerAction>,
        WaitAction,
    ))
        requires
            old(self)@.runner_state != RunnerState::Destroyed,
        ensures
            waiting.0@ == transition_actions(old(self)@.runner_state, RunnerState::Idle),
            moved(old(self)@, RunnerState::Idle, final(self)@),
            is_planned_wait(waiting.1, has_events, timeout, old(self)@.control_flow, now),
    {
        let actions = self.runner.prepare_wait();
        let wait = plan_wait(has_events, timeout, self.runner.control_flow(), now);
        (actions, wait)
    }

    /// The second half of waiting for messages, once the wait is over: the
    /// runner wakes up; the calls into the application are returned.
    pub fn end_wait(&mut self) -> (actions: Vec<RunnerAction>)
        requires
            old(self)@.runner_state != RunnerState::Destroyed,
        ensures
            actions@ == transition_actions(old(self)@.runner_state, RunnerState::HandlingMainEvents),
            moved(old(self)@, RunnerState::HandlingMainEvents, final(self)@),
            final(self)@.last_events_cleared == old(self)@.last_events_cleared,
    {
        self.runner.wakeup()
    }

    /// Dispatches all queued messages: returns whether to drain the channel
    /// of events, taking each event that is already there without waiting
    /// and handing it to `send_event`; there is a queue to drain exactly
    /// when the loop has a channel.
    pub fn dispatch_peeked_messages(&mut self, has_events: bool) -> (drain: bool)
        ensures
            drain == has_events,
            final(self)@ == old(self)@,
    {
        has_events
    }

    /// The code the application asked the loop to exit with, if any: the run
    /// goes on while there is none.
    pub fn exit_code(&self) -> (code: Option<i32>)
        ensures
            code == self@.exit,
    {
        self.runner.exit_code()
    }

    /// Ends a run whose exit code was set: the runner is destroyed, the exit
    /// code forgotten and the application detached. Returns `Ok` for code 0
    /// and `ExitFailure` with the code otherwise, with the calls into the
    /// application that destroying the runner makes.
    pub fn finish_run(&mut self) -> (ended: (Result<(), EventLoopError>, Vec<RunnerAction>))
        requires
            old(self)@.exit is Some,
        ensures
            ended.0 == run_result(old(self)@.exit->0),
            ended.0 is Ok <==> old(self)@.exit == Some(0i32),
            ended.0 is Err ==> ended.0 == Err::<(), EventLoopError>(
                EventLoopError::ExitFailure(old(self)@.exit->0),
            ),
            ended.1@ == transition_actions(old(self)@.runner_state, RunnerState::Destroyed),
            final(self)@.runner_state == RunnerState::Destroyed,
            final(self)@.exit is None,
            !final(self)@.app_attached,
            final(self)@.control_flow == old(self)@.control_flow,
    {
        let exit_code = match self.runner.exit_code() {
            Some(code) => code,
            None => 0,
        };
        let actions = self.runner.loop_destroyed();
        self.runner.reset_runner();
        self.runner.reset_app();
        let result = if exit_code == 0 {
            Ok(())
        } else {
            Err(EventLoopError::ExitFailure(exit_code))
        };
        (result, actions)
    }

    /// Pumps the application's events; this backend has none to pump and
    /// reports that the loop goes on.
    pub fn pump_app_events<A>(&mut self, timeout: Option<Duration>, app: A) -> (status: PumpStatus)
        ensures
            status == PumpStatus::Continue,
            final(self)@ == old(self)@,
    {
        PumpStatus::Continue
    }
}

/// A run begins with a wait whatever exit code was set before it, and
/// `start_run` forgets that code; afterwards the run finishes exactly when,
/// after a wait or a dispatch, an exit code is set, and with that code.
pub proof fn lemma_run_begins_with_a_wait(exit: Option<i32>, point: RunPoint)
    ensures
        spec_next_run_step(RunPoint::Started, exit) == RunStep::Wait,
        spec_next_run_step(point, exit) matches RunStep::Finish(code) ==> point != RunPoint::Started
            && exit == Some(code),
        point != RunPoint::Started && exit is Some ==> spec_next_run_step(point, exit) is Finish,
{
}

/// The calls into the application that `waits` waits make when the first
/// starts with the runner in `state`: each wait is a `begin_wait` followed by
/// an `end_wait`.
pub open spec fn waits_actions(state: RunnerState, waits: nat) -> Seq<RunnerAction>
    decreases waits,
{
    if waits == 0 {
        seq![]
    } else {
        transition_actions(state, RunnerState::Idle) + transition_actions(
            RunnerState::Idle,
            RunnerState::HandlingMainEvents,
        ) + waits_actions(RunnerState::HandlingMainEvents, (waits - 1) as nat)
    }
}

/// The calls into the application of a first run that waits `waits` times
/// and then finishes.
pub open spec fn run_actions(waits: nat) -> Seq<RunnerAction> {
    waits_actions(RunnerState::Uninitialized, waits) + transition_actions(
        RunnerState::HandlingMainEvents,
        RunnerState::Destroyed,
    )
}

/// `waits` repetitions of `AboutToWait` followed by `NewEvents` for a
/// later pass of the loop.
pub open spec fn wait_cycles(waits: nat) -> Seq<RunnerAction>
    decreases waits,
{
    if waits == 0 {
        seq![]
    } else {
        seq![RunnerAction::AboutToWait, RunnerAction::NewEvents { init: false }] + wait_cycles(
            (waits - 1) as nat,
        )
    }
}

proof fn lemma_waits_from_handling_alternate(waits: nat)
    ensures
        waits_actions(RunnerState::HandlingMainEvents, waits) == wait_cycles(waits),
    decreases waits,
{
    if waits > 0 {
        lemma_waits_from_handling_alternate((waits - 1) as nat);
        assert(waits_actions(RunnerState::HandlingMainEvents, waits) =~= wait_cycles(waits));
    }
}

/// A first run of the loop that waits at least once shows the application
/// one `NewEvents` that marks the start and `CanCreateSurfaces`, then for
/// each wait an `AboutToWait` followed by a `NewEvents`, and ends on an
/// `AboutToWait` and `LoopExiting`.
pub proof fn lemma_run_dispatch_order(waits: nat)
    requires
        waits >= 1,
    ensures
        run_actions(waits) == seq![
            RunnerAction::NewEvents { init: true },
            RunnerAction::CanCreateSurfaces,
        ] + wait_cycles(waits) + seq![RunnerAction::AboutToWait, RunnerAction::LoopExiting],
{
    lemma_waits_from_handling_alternate((waits - 1) as nat);
    assert(wait_cycles(waits) =~= seq![
        RunnerAction::AboutToWait,
        RunnerAction::NewEvents { init: false },
    ] + wait_cycles((waits - 1) as nat));
    assert(run_actions(waits) =~= seq![
        RunnerAction::NewEvents { init: true },
        RunnerAction::CanCreateSurfaces,
    ] + wait_cycles(waits) + seq![RunnerAction::AboutToWait, RunnerAction::LoopExiting]);
}

/// A proxy that wakes the event loop up; this backend needs no state for it.
#[derive(Debug)]
pub struct EventLoopProxy {}

impl EventLoopProxy {
    /// Wakes the loop up; a wait on the channel of events ends by itself when
    /// an event is sent, so there is nothing to do here.
    pub fn wake_up(&self) {
    }
}

/// What the application's handle to the event loop answers.
impl EventLoopRunner {
    pub fn create_proxy(&self) -> (proxy: EventLoopProxy)
        ensures
            proxy == (EventLoopProxy {}),
    {
        EventLoopProxy {}
    }

    /// The monitors the backend lists: none.
    pub fn available_monitors(&self) -> (monitors: Vec<MonitorHandle>)
        ensures
            monitors@ == Seq::<MonitorHandle>::empty(),
    {
        let mut listed: VecDeque<MonitorHandle> = available_monitors();
        let mut monitors: Vec<MonitorHandle> = Vec::new();
        while listed.len() > 0
            invariant
                monitors@ == Seq::<MonitorHandle>::empty(),
                listed@ == Seq::<MonitorHandle>::empty(),
            decreases listed@.len(),
        {
            match listed.pop_front() {
                Some(monitor) => monitors.push(monitor),
                None => {},
            }
        }
        monitors
    }

    /// The primary monitor: a new virtual monitor with its id taken from `counter`.
    pub fn primary_monitor(&self, counter: &mut u64) -> (monitor: Option<MonitorHandle>)
        ensures
            monitor is Some,
            monitor->0@ == virtual_monitor(*old(counter)),
            *final(counter) == monitor_counter_after(*old(counter)),
    {
        Some(primary_monitor(counter))
    }

    /// Which device events to deliver; this backend delivers none and keeps nothing.
    pub fn listen_device_events(&self, allowed: DeviceEvents) {
    }

    /// Makes a custom cursor from `source`: this backend makes none, and
    /// ignores the request.
    pub fn create_custom_cursor<S>(&self, source: S) -> (cursor: Result<Cursor, RequestError>)
        ensures
            cursor == Err::<Cursor, RequestError>(RequestError::Ignored),
    {
        Err(RequestError::Ignored)
    }

    /// The system's theme: this backend knows none.
    pub fn system_theme(&self) -> (theme: Option<Theme>)
        ensures
            theme is None,
    {
        None
    }
}

/// The shorter of two optional timeouts, where `None` stands for no timeout
/// at all (an infinite one), not a zero one. Of two equally long timeouts
/// the first is returned.
pub open spec fn spec_min_timeout(a: Option<Duration>, b: Option<Duration>) -> Option<Duration> {
    match (a, b) {
        (None, _) => b,
        (Some(x), None) => Some(x),
        (Some(x), Some(y)) => Some(if duration_le(x, y) { x } else { y }),
    }
}

/// Returns the minimum `Option<Duration>`, taking into account that `None`
/// equates to an infinite timeout, not a zero timeout.
pub fn min_timeout(a: Option<Duration>, b: Option<Duration>) -> (timeout: Option<Duration>)
    ensures
        timeout == spec_min_timeout(a, b),
        timeout == spec_min_timeout(b, a),
        timeout_nanos(timeout) == min_bound(timeout_nanos(a), timeout_nanos(b)),
        a is None ==> timeout == b,
        b is None ==> timeout == a,
        a matches Some(x) ==> (b matches Some(y) ==> (timeout == Some(x) || timeout == Some(y))
            && duration_nanos(timeout->0) <= duration_nanos(x) && duration_nanos(timeout->0)
            <= duration_nanos(y)),
{
    match a {
        None => b,
        Some(a_timeout) => match b {
            None => Some(a_timeout),
            Some(b_timeout) => {
                if duration_at_most(&a_timeout, &b_timeout) {
                    Some(a_timeout)
                } else {
                    Some(b_timeout)
                }
            },
        },
    }
}

/// The shorter of two timeouts is one of them and no longer than either;
/// no timeout is no bound. The same holds of the bounds in nanoseconds.
pub proof fn lemma_min_timeout_is_shortest(a: Option<Duration>, b: Option<Duration>, x: int, y: int)
    ensures
        a is None ==> spec_min_timeout(a, b) == b,
        b is None ==> spec_min_timeout(a, b) == a,
        a matches Some(s) ==> (b matches Some(t) ==> (spec_min_timeout(a, b) == Some(s)
            || spec_min_timeout(a, b) == Some(t)) && duration_nanos(spec_min_timeout(a, b)->0)
            <= duration_nanos(s) && duration_nanos(spec_min_timeout(a, b)->0) <= duration_nanos(t)),
        min_bound(Some(x), Some(y)) matches Some(m) && m <= x && m <= y && (m == x || m == y),
        min_bound(None, Some(y)) == Some(y),
        min_bound(Some(x), None) == Some(x),
        min_bound(None, None) is None,
{
}

/// No timeout is no bound: it leaves the other timeout as it is.
pub proof fn lemma_min_timeout_none_is_identity(a: Option<Duration>)
    ensures
        spec_min_timeout(None, a) == a,
        spec_min_timeout(a, None) == a,
{
}

/// A zero timeout is the shortest: with it on either side the result is a
/// zero timeout, and on the first side it is that very timeout.
pub proof fn lemma_min_timeout_zero_absorbs(zero: Duration, b: Option<Duration>)
    requires
        duration_nanos(zero) == 0,
    ensures
        spec_min_timeout(Some(zero), b) == Some(zero),
        timeout_nanos(spec_min_timeout(b, Some(zero))) == Some(0int),
{
}

/// The order of the two timeouts does not change how long the result is,
/// nor, unless both are given and equally long, which one is returned.
/// (Each call of `min_timeout` also states that swapping its arguments gives
/// the same result: there `Duration`'s `Ord` makes two equally long
/// durations equal.)
pub proof fn lemma_min_timeout_commutative(a: Option<Duration>, b: Option<Duration>)
    ensures
        timeout_nanos(spec_min_timeout(a, b)) == timeout_nanos(spec_min_timeout(b, a)),
        !(a is Some && b is Some && timeout_nanos(a) == timeout_nanos(b))
            ==> spec_min_timeout(a, b) == spec_min_timeout(b, a),
{
}

/// Taking the shortest of three timeouts does not depend on how they are grouped.
pub proof fn lemma_min_timeout_associative(
    a: Option<Duration>,
    b: Option<Duration>,
    c: Option<Duration>,
)
    ensures
        spec_min_timeout(spec_min_timeout(a, b), c) == spec_min_timeout(a, spec_min_timeout(b, c)),
{
}

} // verus!
