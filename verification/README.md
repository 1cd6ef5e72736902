# winit_agnostic

A windowing backend that targets no particular platform, written as a
verified library.

- `src/` is verified with Verus:
  - `runner.rs`: events and the application call that delivers each one;
    the runner's life-cycle state machine (`Uninitialized`,
    `Idle`, `HandlingMainEvents`, `Destroyed`), the calls into the
    application that each move makes, the exit code and the control flow,
    with the laws of the machine;
  - `event_loop.rs`: creating the one event loop of a process, the
    decisions of a run (starting, the next step of the run, choosing the
    wait from the channel, the
    timeout and the control flow, finishing with `Ok` or `ExitFailure`),
    the answers of the application's handle, `min_timeout` and its laws,
    and the order in which a whole run dispatches its events;
  - `window.rs`: a window's state and what reads and writes it, focus;
  - `monitor.rs`: the virtual monitor and its video mode;
  - `window_id.rs`: the window and monitor id counters, and that they
    hand out distinct ids;
  - `keyboard.rs`: physical keys and scancodes;
  - `geometry.rs`, `time.rs`: pixel positions and sizes; the clock and
    duration comparison, behind trusted wrappers.
- `app/` is ordinary Rust around it: the application trait and the calls
  into it that the library asks for, the process-wide counters and flags
  (held under locks and handed to the library), the handles shared between
  threads, the run loop that blocks on the channel of events, the display
  handles, and the floating-point scale factors.
