use winit_agnostic::geometry::{PhysicalPosition, PhysicalSize};
use winit_agnostic::monitor::{available_monitors, primary_monitor, MonitorHandle, MonitorState, VideoMode, VideoModeHandle};
use winit_agnostic::window::{Cursor, Icon, Theme, WindowButtons, WindowLevel, WindowState};
use winit_agnostic::window_id::{next_monitor_id, next_window_id, WindowId};
use winit_agnostic::keyboard::{physicalkey_to_scancode, scancode_to_physicalkey, KeyCode, NativeKeyCode, PhysicalKey};
use winit_agnostic::WindowAttributesAgnostic;

#[test]
fn window_ids_count_up_and_wrap() {
    let mut counter = 0usize;
    assert_eq!(next_window_id(&mut counter), WindowId(0));
    assert_eq!(next_window_id(&mut counter), WindowId(1));
    assert_eq!(counter, 2);
    let mut last = usize::MAX;
    assert_eq!(next_window_id(&mut last), WindowId(usize::MAX));
    assert_eq!(last, 0);
}

#[test]
fn monitor_ids_count_up_and_wrap() {
    let mut counter = 5u64;
    assert_eq!(next_monitor_id(&mut counter), 5);
    assert_eq!(next_monitor_id(&mut counter), 6);
    let mut last = u64::MAX;
    assert_eq!(next_monitor_id(&mut last), u64::MAX);
    assert_eq!(last, 0);
}

#[test]
fn new_window_defaults() {
    let mut counter = 3usize;
    let window = WindowState::new(&mut counter);
    assert_eq!(counter, 4);
    assert_eq!(window.id(), WindowId::from_raw(3));
    assert_eq!(window.id().into_raw(), 3);
    assert_eq!(window.title(), "Agnostic Window");
    assert_eq!(window.surface_position(), PhysicalPosition { x: 0, y: 0 });
    assert!(window.is_resizable());
    assert_eq!(window.enabled_buttons(), WindowButtons::all());
    assert_eq!(WindowButtons::all().bits, 7);
    assert!(!window.is_maximized());
    assert!(!window.is_decorated());
    assert_eq!(window.theme(), None);
    assert!(format!("{:?}", window).contains("cursor: Icon(Default)"));
}

#[test]
fn window_setters_read_back() {
    let mut counter = 0usize;
    let mut window = WindowState::new(&mut counter);
    window.set_title("hello");
    assert_eq!(window.title(), "hello");
    window.set_resizable(false);
    assert!(!window.is_resizable());
    window.set_maximized(true);
    assert!(window.is_maximized());
    window.set_theme(Some(Theme::Dark));
    assert_eq!(window.theme(), Some(Theme::Dark));
    window.set_transparent(true);
    window.set_window_level(WindowLevel::AlwaysOnTop);
    window.set_content_protected(true);
    window.set_cursor_visible(true);
    window.set_cursor(Cursor::Icon(cursor_icon::CursorIcon::Wait));
    window.set_window_icon(Some(Icon { rgba: vec![0, 0, 0, 255], width: 1, height: 1 }));
    let shown = format!("{:?}", window);
    assert!(shown.contains("transparent: true"));
    assert!(shown.contains("level: AlwaysOnTop"));
    assert!(shown.contains("content_protected: true"));
    assert!(shown.contains("cursor_visible: true"));
    assert!(shown.contains("cursor: Icon(Wait)"));
    assert!(shown.contains("icon: Some(Icon"));
    assert_eq!(window.title(), "hello");
}

#[test]
fn focus_follows_the_recorded_id() {
    let mut counter = 0usize;
    let first = WindowState::new(&mut counter);
    let second = WindowState::new(&mut counter);
    let third = WindowState::new(&mut counter);
    assert!(!second.has_focus(0));
    let focused = second.focus_window();
    assert_eq!(focused, 1);
    assert!(second.has_focus(focused));
    assert!(!third.has_focus(focused));
    // The first window has id 0, which also stands for "no window": it never reports the focus.
    let focused = first.focus_window();
    assert_eq!(focused, 0);
    assert!(!first.has_focus(focused));
}

#[test]
fn the_virtual_monitor() {
    let mut counter = 7u64;
    let monitor = MonitorHandle::new(&mut counter);
    assert_eq!(counter, 8);
    assert_eq!(monitor.native_id(), 7);
    assert_eq!(monitor.id(), 7u128);
    assert_eq!(monitor.name(), Some("monitor"));
    assert_eq!(monitor.position(), Some(PhysicalPosition::new(0, 0)));
    let mode = VideoMode::new(PhysicalSize::new(1920, 1080), Some(16), Some(60));
    assert_eq!(monitor.current_video_mode(), Some(mode));
    assert_eq!(monitor.video_modes(), vec![mode]);
    assert_eq!(mode.size, PhysicalSize { width: 1920, height: 1080 });
}

#[test]
fn primary_monitors_get_fresh_ids() {
    let mut counter = 0u64;
    let a = primary_monitor(&mut counter);
    let b = primary_monitor(&mut counter);
    assert_eq!(a.native_id(), 0);
    assert_eq!(b.native_id(), 1);
    assert_ne!(a, b);
    assert_eq!(a.current_video_mode(), b.current_video_mode());
    let mut state_counter = 0u64;
    let state = MonitorState::new(&mut state_counter);
    assert_eq!(state_counter, 1);
    assert!(format!("{:?}", state).contains("\"monitor\""));
}

#[test]
fn no_monitors_are_listed() {
    assert!(available_monitors().is_empty());
    let _handle = VideoModeHandle {}.clone();
}

#[test]
fn agnostic_window_attributes() {
    let attributes = WindowAttributesAgnostic::new();
    let _copy = attributes.clone();
    let _default: WindowAttributesAgnostic = Default::default();
}

#[test]
fn no_scancodes_are_known() {
    assert_eq!(physicalkey_to_scancode(PhysicalKey::Code(KeyCode::KeyA)), None);
    assert_eq!(physicalkey_to_scancode(PhysicalKey::Unidentified(NativeKeyCode::Xkb(38))), None);
    assert_eq!(scancode_to_physicalkey(30), PhysicalKey::Code(KeyCode::Unidentified));
    assert_eq!(scancode_to_physicalkey(0), PhysicalKey::Code(KeyCode::Unidentified));
}

#[test]
fn ids_from_a_fresh_counter_start_at_zero() {
    let mut counter = 0u64;
    let ids: Vec<u64> = (0..5).map(|_| next_monitor_id(&mut counter)).collect();
    assert_eq!(ids, vec![0, 1, 2, 3, 4]);
    let mut windows = 0usize;
    let first = next_window_id(&mut windows);
    let second = next_window_id(&mut windows);
    assert_eq!(first, WindowId::from_raw(0));
    assert_eq!(second.into_raw(), first.into_raw() + 1);
}
