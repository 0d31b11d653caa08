//! Raw events as the native windowing backend reports them, before any
//! translation.

use crate::input::{Code, Key, KeyState, KeyboardModifiers};
use crate::units::{Fixed, ScaleFactor};
use vstd::prelude::*;

verus! {

/// A mouse button as the platform names it.
#[derive(Clone, Copy, Debug, PartialEq, Eq, Structural)]
pub enum MouseButton {
    Left,
    Middle,
    Right,
    Back,
    Forward,
    Other(u8),
}

/// A position in logical pixels.
#[derive(Clone, Copy, Debug, PartialEq, Eq, Structural)]
pub struct Point {
    pub x: Fixed,
    pub y: Fixed,
}

/// A scroll movement, counted in lines or in pixels.
#[derive(Clone, Copy, Debug, PartialEq, Eq, Structural)]
pub enum ScrollDelta {
    Lines { x: Fixed, y: Fixed },
    Pixels { x: Fixed, y: Fixed },
}

#[derive(Clone, Copy, Debug, PartialEq, Eq, Structural)]
pub enum MouseEvent {
    /// The cursor moved to a position in logical pixels.
    CursorMoved { position: Point },
    ButtonPressed { button: MouseButton },
    ButtonReleased { button: MouseButton },
    WheelScrolled { delta: ScrollDelta },
    CursorEntered,
    CursorLeft,
    /// Any mouse event that the toolkit does not take up.
    Other,
}

#[derive(Clone, Debug, PartialEq, Eq)]
pub struct KeyboardEvent {
    pub state: KeyState,
    pub key: Key,
    pub code: Code,
    pub modifiers: KeyboardModifiers,
}

/// The size of the native window after a resize: its logical extent, which
/// includes the user's scale factor, and the scale factor of the operating
/// system.
#[derive(Clone, Copy, Debug, PartialEq, Eq, Structural)]
pub struct WindowInfo {
    pub logical_width: Fixed,
    pub logical_height: Fixed,
    pub scale: ScaleFactor,
}

#[derive(Clone, Copy, Debug, PartialEq, Eq, Structural)]
pub enum WindowEvent {
    Focused,
    Resized(WindowInfo),
    WillClose,
    /// Any window notification that the toolkit does not take up.
    Other,
}

#[derive(Clone, Debug, PartialEq, Eq)]
pub enum Event {
    Mouse(MouseEvent),
    Keyboard(KeyboardEvent),
    Window(WindowEvent),
}

} // verus!
