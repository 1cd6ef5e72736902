//! A platform-agnostic windowing backend: the runner's state machine, the
//! event loop's run-phase decisions, monitors and window state, with
//! their contracts.

pub mod time;
pub mod runner;
pub mod geometry;
pub mod window_id;
pub mod window;
pub mod monitor;
pub mod event_loop;
pub mod keyboard;

use vstd::prelude::*;

verus! {

/// The window attributes specific to this backend: there are none.
#[derive(Clone, Debug)]
pub struct WindowAttributesAgnostic {}

impl Default for WindowAttributesAgnostic {
    fn default() -> (attributes: Self)
        ensures
            attributes == (WindowAttributesAgnostic {}),
    {
        WindowAttributesAgnostic {}
    }
}

impl WindowAttributesAgnostic {
    pub fn new() -> (attributes: Self)
        ensures
            attributes == (WindowAttributesAgnostic {}),
    {
        Self::default()
    }
}

} // verus!
