//! The uniform event enum delivered to user handlers, and the model of
//! the native notifications it is derived from.

use vstd::prelude::*;

use crate::geometry::Point;
use crate::window_info::WindowInfo;

verus! {

/// What a handler reports back about an event it was given.
#[derive(Clone, Copy, Debug, PartialEq, Eq, Structural)]
pub enum EventStatus {
    /// The handler consumed the event.
    Captured,
    /// The handler did not act on the event.
    Ignored,
}

/// A mouse button, as the uniform event stream names it.
#[derive(Clone, Copy, Debug, PartialEq, Eq, Structural)]
pub enum MouseButton {
    Left,
    Middle,
    Right,
    Back,
    Forward,
    /// A button the uniform set has no name for, by its native code.
    Other(u8),
}

/// A scroll step, in whole lines. Rightward and upward are positive.
#[derive(Clone, Copy, Debug, PartialEq, Eq, Structural)]
pub struct ScrollDelta {
    pub lines_x: i32,
    pub lines_y: i32,
}

/// The keyboard modifiers held while an event was produced.
#[derive(Clone, Copy, Debug, PartialEq, Eq, Structural)]
pub struct Modifiers {
    pub shift: bool,
    pub ctrl: bool,
    pub alt: bool,
    pub logo: bool,
}

/// Mouse events, with all coordinates in logical pixels.
#[derive(Clone, Copy, Debug, PartialEq, Eq, Structural)]
pub enum MouseEvent {
    CursorMoved { position: Point, modifiers: Modifiers },
    ButtonPressed { button: MouseButton, modifiers: Modifiers },
    ButtonReleased { button: MouseButton, modifiers: Modifiers },
    WheelScrolled { delta: ScrollDelta, modifiers: Modifiers },
    CursorEntered,
    CursorLeft,
}

/// Keyboard events, carrying the native key code and the modifiers.
#[derive(Clone, Copy, Debug, PartialEq, Eq, Structural)]
pub enum KeyboardEvent {
    KeyPressed { code: u8, modifiers: Modifiers },
    KeyReleased { code: u8, modifiers: Modifiers },
}

/// Window lifecycle events.
#[derive(Clone, Copy, Debug, PartialEq, Eq, Structural)]
pub enum WindowEvent {
    /// The window's size or scale changed; carries the fresh snapshot.
    Resized(WindowInfo),
    Focused,
    Unfocused,
    /// The native window manager asked for the window to close.
    CloseRequested,
}

/// The uniform event enum: every native notification maps onto one of
/// these before it reaches a handler.
#[derive(Clone, Copy, Debug, PartialEq, Eq, Structural)]
pub enum Event {
    Window(WindowEvent),
    Mouse(MouseEvent),
    Keyboard(KeyboardEvent),
}

/// A native notification, reduced to the plain values the core reads:
/// sizes and coordinates are physical pixels, `state` is the native
/// modifier bitmask, button and key codes are the native codes.
#[derive(Clone, Copy, Debug, PartialEq, Eq, Structural)]
pub enum NativeEvent {
    /// The native window was resized to the given physical size.
    Configure { width: u32, height: u32 },
    FocusIn,
    FocusOut,
    /// The window manager's delete-window protocol message.
    CloseProtocol,
    Motion { x: i32, y: i32, state: u16 },
    ButtonPress { button: u8, state: u16 },
    ButtonRelease { button: u8, state: u16 },
    KeyPress { code: u8, state: u16 },
    KeyRelease { code: u8, state: u16 },
    Enter,
    Leave,
}

/// The modifier set encoded in a native state bitmask: shift is bit 0,
/// control bit 2, the first modifier group (alt) bit 3, the fourth
/// modifier group (logo) bit 6.
pub open spec fn modifiers_spec(state: u16) -> Modifiers {
    Modifiers {
        shift: state & 1u16 != 0,
        ctrl: state & 4u16 != 0,
        alt: state & 8u16 != 0,
        logo: state & 64u16 != 0,
    }
}

/// Decodes a native modifier bitmask.
pub fn decode_modifiers(state: u16) -> (r: Modifiers)
    ensures
        r == modifiers_spec(state),
{
    Modifiers {
        shift: state & 1u16 != 0,
        ctrl: state & 4u16 != 0,
        alt: state & 8u16 != 0,
        logo: state & 64u16 != 0,
    }
}

/// Whether a native button code names a scroll step rather than a
/// button: codes four to seven are the scroll wheel's four directions.
pub open spec fn is_scroll_code(button: u8) -> bool {
    4 <= button <= 7
}

/// The scroll step a scroll code stands for: four is up, five down,
/// six left, seven right.
pub open spec fn scroll_spec(button: u8) -> ScrollDelta {
    if button == 4 {
        ScrollDelta { lines_x: 0, lines_y: 1 }
    } else if button == 5 {
        ScrollDelta { lines_x: 0, lines_y: -1i32 }
    } else if button == 6 {
        ScrollDelta { lines_x: -1i32, lines_y: 0 }
    } else {
        ScrollDelta { lines_x: 1, lines_y: 0 }
    }
}

/// The uniform button a native non-scroll button code stands for.
pub open spec fn button_spec(button: u8) -> MouseButton {
    if button == 1 {
        MouseButton::Left
    } else if button == 2 {
        MouseButton::Middle
    } else if button == 3 {
        MouseButton::Right
    } else if button == 8 {
        MouseButton::Back
    } else if button == 9 {
        MouseButton::Forward
    } else {
        MouseButton::Other(button)
    }
}

/// Decodes a native button code into a uniform button.
pub fn decode_button(button: u8) -> (r: MouseButton)
    ensures
        r == button_spec(button),
{
    match button {
        1 => MouseButton::Left,
        2 => MouseButton::Middle,
        3 => MouseButton::Right,
        8 => MouseButton::Back,
        9 => MouseButton::Forward,
        b => MouseButton::Other(b),
    }
}

} // verus!
