//! The state a window keeps: its id, title, flags, level, theme, icons and
//! cursor, with what reads and writes it.

use cursor_icon::CursorIcon;
use vstd::prelude::*;
use crate::geometry::PhysicalPosition;
use crate::window_id::{next_window_id, window_counter_after, WindowId};

verus! {

/// `cursor_icon::CursorIcon`, the named cursor shapes.
#[verifier::external_type_specification]
#[verifier::external_body]
pub struct ExCursorIcon(cursor_icon::CursorIcon);

/// What `cursor_icon::CursorIcon::name` returns: the icon's name in the
/// CSS cursor vocabulary, such as "default" or "pointer".
pub uninterp spec fn cursor_icon_name(icon: CursorIcon) -> Seq<char>;

/// Calls `<cursor_icon::CursorIcon as Default>::default`, which the crate
/// derives with `#[default]` on the `Default` variant, the icon whose
/// `name` is "default".
#[verifier::external_body]
fn default_cursor_icon() -> (icon: CursorIcon)
    ensures
        cursor_icon_name(icon) == "default"@,
{
    CursorIcon::default()
}

/// The cursor a window shows. This backend creates no custom cursors, so a
/// cursor is one of the named icons.
#[derive(Debug, Clone, Copy, PartialEq, Eq, Hash)]
pub enum Cursor {
    Icon(CursorIcon),
}

/// The buttons of the title bar, as bits: close 1, minimize 2, maximize 4.
#[derive(Debug, Clone, Copy, PartialEq, Eq, Hash, Structural)]
pub struct WindowButtons {
    pub bits: u32,
}

impl WindowButtons {
    /// All three buttons.
    pub fn all() -> (buttons: WindowButtons)
        ensures
            buttons.bits == 7,
    {
        WindowButtons { bits: 7 }
    }
}

/// A light or dark appearance.
#[derive(Debug, Clone, Copy, PartialEq, Eq, Hash, Structural)]
pub enum Theme {
    Light,
    Dark,
}

/// Where a window stands among the others.
#[derive(Debug, Clone, Copy, PartialEq, Eq, Hash, Structural)]
pub enum WindowLevel {
    AlwaysOnBottom,
    Normal,
    AlwaysOnTop,
}

/// A window icon: RGBA pixels, row by row.
#[derive(Debug, Clone, PartialEq, Eq, Hash)]
pub struct Icon {
    pub rgba: Vec<u8>,
    pub width: u32,
    pub height: u32,
}

/// What a window's state holds, as values.
pub struct WindowStateView {
    pub id: WindowId,
    pub title: Seq<char>,
    pub transparent: bool,
    pub surface_position: PhysicalPosition<i32>,
    pub resizeable: bool,
    pub enabled_buttons: WindowButtons,
    pub cursor: Cursor,
    pub level: WindowLevel,
    pub maximized: bool,
    pub content_protected: bool,
    pub theme: Option<Theme>,
    pub decorated: bool,
    pub icon: Option<Icon>,
    pub cursor_icon: Option<Icon>,
    pub cursor_visible: bool,
}

/// The state of one window.
#[derive(Debug)]
pub struct WindowState {
    id: WindowId,
    title: String,
    transparent: bool,
    surface_position: PhysicalPosition<i32>,
    resizeable: bool,
    enabled_buttons: WindowButtons,
    cursor: Cursor,
    level: WindowLevel,
    maximized: bool,
    content_protected: bool,
    theme: Option<Theme>,
    decorated: bool,
    icon: Option<Icon>,
    cursor_icon: Option<Icon>,
    cursor_visible: bool,
}

impl View for WindowState {
    type V = WindowStateView;

    closed spec fn view(&self) -> WindowStateView {
        WindowStateView {
            id: self.id,
            title: self.title@,
            transparent: self.transparent,
            surface_position: self.surface_position,
            resizeable: self.resizeable,
            enabled_buttons: self.enabled_buttons,
            cursor: self.cursor,
            level: self.level,
            maximized: self.maximized,
            content_protected: self.content_protected,
            theme: self.theme,
            decorated: self.decorated,
            icon: self.icon,
            cursor_icon: self.cursor_icon,
            cursor_visible: self.cursor_visible,
        }
    }
}

/// Whether a window whose id is `id` has the focus, when `focused` is the
/// raw id last recorded as focused; 0 records that no window has it.
pub open spec fn spec_has_focus(id: WindowId, focused: usize) -> bool {
    focused != 0 && focused == id.0
}

impl WindowState {
    /// A new window titled "Agnostic Window", at the origin, resizable, with
    /// all title-bar buttons, at the normal level, undecorated, not
    /// maximized, transparent, protected or themed, with no icons, and a
    /// hidden cursor showing the default icon; its id is taken from `counter`.
    pub fn new(counter: &mut usize) -> (state: Self)
        ensures
            *final(counter) == window_counter_after(*old(counter)),
            state@ == (WindowStateView {
                id: WindowId(*old(counter)),
                title: "Agnostic Window"@,
                transparent: false,
                surface_position: PhysicalPosition { x: 0, y: 0 },
                resizeable: true,
                enabled_buttons: WindowButtons { bits: 7 },
                cursor: state@.cursor,
                level: WindowLevel::Normal,
                maximized: false,
                content_protected: false,
                theme: None,
                decorated: false,
                icon: None,
                cursor_icon: None,
                cursor_visible: false,
            }),
            state@.cursor matches Cursor::Icon(icon) && cursor_icon_name(icon) == "default"@,
    {
        WindowState {
            id: next_window_id(counter),
            title: "Agnostic Window".to_owned(),
            transparent: false,
            surface_position: PhysicalPosition::<i32>::new(0, 0),
            resizeable: true,
            enabled_buttons: WindowButtons::all(),
            cursor: Cursor::Icon(default_cursor_icon()),
            level: WindowLevel::Normal,
            maximized: false,
            content_protected: false,
            theme: None,
            decorated: false,
            icon: None,
            cursor_icon: None,
            cursor_visible: false,
        }
    }

    pub fn id(&self) -> (id: WindowId)
        ensures
            id == self@.id,
    {
        self.id
    }

    pub fn surface_position(&self) -> (position: PhysicalPosition<i32>)
        ensures
            position == self@.surface_position,
    {
        self.surface_position
    }

    pub fn set_title(&mut self, title: &str)
        ensures
            final(self)@ == (WindowStateView { title: title@, ..old(self)@ }),
    {
        self.title = title.to_owned();
    }

    pub fn title(&self) -> (title: String)
        ensures
            title@ == self@.title,
    {
        self.title.clone()
    }

    pub fn set_transparent(&mut self, transparent: bool)
        ensures
            final(self)@ == (WindowStateView { transparent, ..old(self)@ }),
    {
        self.transparent = transparent;
    }

    pub fn set_resizable(&mut self, resizable: bool)
        ensures
            final(self)@ == (WindowStateView { resizeable: resizable, ..old(self)@ }),
    {
        self.resizeable = resizable;
    }

    pub fn is_resizable(&self) -> (resizable: bool)
        ensures
            resizable == self@.resizeable,
    {
        self.resizeable
    }

    pub fn enabled_buttons(&self) -> (buttons: WindowButtons)
        ensures
            buttons == self@.enabled_buttons,
    {
        self.enabled_buttons
    }

    pub fn set_maximized(&mut self, maximized: bool)
        ensures
            final(self)@ == (WindowStateView { maximized, ..old(self)@ }),
    {
        self.maximized = maximized;
    }

    pub fn is_maximized(&self) -> (maximized: bool)
        ensures
            maximized == self@.maximized,
    {
        self.maximized
    }

    pub fn is_decorated(&self) -> (decorated: bool)
        ensures
            decorated == self@.decorated,
    {
        self.decorated
    }

    pub fn set_window_level(&mut self, level: WindowLevel)
        ensures
            final(self)@ == (WindowStateView { level, ..old(self)@ }),
    {
        self.level = level;
    }

    pub fn set_window_icon(&mut self, window_icon: Option<Icon>)
        ensures
            final(self)@ == (WindowStateView { icon: window_icon, ..old(self)@ }),
    {
        self.icon = window_icon;
    }

    /// The raw id to record as the focused window.
    pub fn focus_window(&self) -> (focused: usize)
        ensures
            focused == self@.id.0,
    {
        self.id.into_raw()
    }

    /// Whether this window has the focus, when `focused` is the raw id last
    /// recorded as focused (0 when none was).
    pub fn has_focus(&self, focused: usize) -> (has_focus: bool)
        ensures
            has_focus == spec_has_focus(self@.id, focused),
    {
        match focused {
            0 => false,
            id => id == self.id.into_raw(),
        }
    }

    pub fn set_theme(&mut self, theme: Option<Theme>)
        ensures
            final(self)@ == (WindowStateView { theme, ..old(self)@ }),
    {
        self.theme = theme;
    }

    pub fn theme(&self) -> (theme: Option<Theme>)
        ensures
            theme == self@.theme,
    {
        self.theme
    }

    pub fn set_content_protected(&mut self, protected: bool)
        ensures
            final(self)@ == (WindowStateView { content_protected: protected, ..old(self)@ }),
    {
        self.content_protected = protected;
    }

    pub fn set_cursor(&mut self, cursor: Cursor)
        ensures
            final(self)@ == (WindowStateView { cursor, ..old(self)@ }),
    {
        self.cursor = cursor;
    }

    pub fn set_cursor_visible(&mut self, visible: bool)
        ensures
            final(self)@ == (WindowStateView { cursor_visible: visible, ..old(self)@ }),
    {
        self.cursor_visible = visible;
    }
}

/// After a window records itself as focused, it reports the focus exactly
/// when its raw id is not 0 (the first window, whose id is 0, never does),
/// and a window with another id does not report it.
pub proof fn lemma_focus_read_back(window: WindowId, other: WindowId)
    requires
        other != window,
    ensures
        spec_has_focus(window, window.0) <==> window.0 != 0,
        !spec_has_focus(other, window.0),
        forall|id: WindowId| !spec_has_focus(id, 0),
{
}

} // verus!
