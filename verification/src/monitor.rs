//! Monitors: the one virtual monitor this backend reports, and its video mode.

use std::collections::VecDeque;
use std::sync::Arc;
use vstd::prelude::*;
use crate::geometry::{PhysicalPosition, PhysicalSize};
use crate::window_id::{monitor_counter_after, next_monitor_id};

verus! {

/// A video mode: size, bit depth and refresh rate in millihertz; a depth or
/// rate that is given is never 0.
#[derive(Debug, Clone, Copy, PartialEq, Eq, Hash)]
pub struct VideoMode {
    pub size: PhysicalSize<u32>,
    pub bit_depth: Option<u16>,
    pub refresh_rate_millihertz: Option<u32>,
}

impl VideoMode {
    pub fn new(
        size: PhysicalSize<u32>,
        bit_depth: Option<u16>,
        refresh_rate_millihertz: Option<u32>,
    ) -> (mode: VideoMode)
        requires
            bit_depth != Some(0u16),
            refresh_rate_millihertz != Some(0u32),
        ensures
            mode == (VideoMode { size, bit_depth, refresh_rate_millihertz }),
    {
        VideoMode { size, bit_depth, refresh_rate_millihertz }
    }
}

/// What a monitor holds, as values.
pub struct MonitorStateView {
    pub name: Seq<char>,
    pub id: u64,
    pub position: PhysicalPosition<i32>,
    pub current_mode: VideoMode,
}

/// The state of one monitor.
#[derive(Debug, Clone, PartialEq, Eq, Hash)]
pub struct MonitorState {
    name: String,
    id: u64,
    position: PhysicalPosition<i32>,
    current_mode: VideoMode,
}

impl View for MonitorState {
    type V = MonitorStateView;

    closed spec fn view(&self) -> MonitorStateView {
        MonitorStateView {
            name: self.name@,
            id: self.id,
            position: self.position,
            current_mode: self.current_mode,
        }
    }
}

/// The monitor every new monitor state describes, but for its id: named
/// "monitor", at the origin, 1920 by 1080 at a depth of 16 bits and a
/// refresh rate of 60 millihertz.
pub open spec fn virtual_monitor(id: u64) -> MonitorStateView {
    MonitorStateView {
        name: "monitor"@,
        id,
        position: PhysicalPosition { x: 0, y: 0 },
        current_mode: VideoMode {
            size: PhysicalSize { width: 1920, height: 1080 },
            bit_depth: Some(16),
            refresh_rate_millihertz: Some(60),
        },
    }
}

impl MonitorState {
    /// The virtual monitor, with its id taken from `counter`.
    pub fn new(counter: &mut u64) -> (state: Self)
        ensures
            state@ == virtual_monitor(*old(counter)),
            *final(counter) == monitor_counter_after(*old(counter)),
    {
        MonitorState {
            name: "monitor".to_owned(),
            id: next_monitor_id(counter),
            position: PhysicalPosition::new(0, 0),
            current_mode: VideoMode::new(PhysicalSize::new(1920, 1080), Some(16), Some(60)),
        }
    }
}

/// A handle to a monitor, shared between those who hold it.
#[derive(Debug, Clone, PartialEq, Eq, Hash)]
pub struct MonitorHandle(Arc<MonitorState>);

impl View for MonitorHandle {
    type V = MonitorStateView;

    closed spec fn view(&self) -> MonitorStateView {
        (*self.0)@
    }
}

impl MonitorHandle {
    /// A handle to a new virtual monitor, with its id taken from `counter`.
    pub fn new(counter: &mut u64) -> (handle: Self)
        ensures
            handle@ == virtual_monitor(*old(counter)),
            *final(counter) == monitor_counter_after(*old(counter)),
    {
        MonitorHandle(Arc::new(MonitorState::new(counter)))
    }

    /// The monitor's id, widened.
    pub fn id(&self) -> (id: u128)
        ensures
            id == self@.id,
    {
        self.native_id() as u128
    }

    pub fn native_id(&self) -> (id: u64)
        ensures
            id == self@.id,
    {
        self.0.id
    }

    pub fn name(&self) -> (name: Option<&str>)
        ensures
            name is Some,
            name.unwrap()@ == self@.name,
    {
        Some(self.0.name.as_str())
    }

    pub fn position(&self) -> (position: Option<PhysicalPosition<i32>>)
        ensures
            position == Some(self@.position),
    {
        Some(self.0.position)
    }

    pub fn current_video_mode(&self) -> (mode: Option<VideoMode>)
        ensures
            mode == Some(self@.current_mode),
    {
        Some(self.0.current_mode)
    }

    /// The video modes the monitor offers: its current one alone.
    pub fn video_modes(&self) -> (modes: Vec<VideoMode>)
        ensures
            modes@ == seq![self@.current_mode],
    {
        let mut modes: Vec<VideoMode> = Vec::new();
        modes.push(self.0.current_mode);
        modes
    }
}

/// A video mode handle; this backend keeps nothing in it.
#[derive(Debug, Clone)]
pub struct VideoModeHandle {}

/// The monitors this backend lists: none.
pub fn available_monitors() -> (monitors: VecDeque<MonitorHandle>)
    ensures
        monitors@ == Seq::<MonitorHandle>::empty(),
{
    let monitors: VecDeque<MonitorHandle> = VecDeque::new();
    monitors
}

/// The primary monitor: a new virtual monitor, with its id taken from `counter`.
pub fn primary_monitor(counter: &mut u64) -> (monitor: MonitorHandle)
    ensures
        monitor@ == virtual_monitor(*old(counter)),
        *final(counter) == monitor_counter_after(*old(counter)),
{
    MonitorHandle::new(counter)
}

/// Two monitors made one after the other from the same counter describe the
/// same virtual monitor under different ids.
pub proof fn lemma_primary_monitors_differ_in_id_only(counter: u64)
    ensures
        virtual_monitor(counter).id != virtual_monitor(monitor_counter_after(counter)).id,
        virtual_monitor(counter) == (MonitorStateView {
            id: counter,
            ..virtual_monitor(monitor_counter_after(counter))
        }),
{
}

} // verus!
