//! The canonical input vocabulary of the toolkit: what the translated event
//! stream is made of.

use crate::units::Fixed;
use vstd::prelude::*;

verus! {

/// Whether a key went down or came up.
#[derive(Clone, Copy, Debug, PartialEq, Eq, Structural)]
pub enum KeyState {
    Down,
    Up,
}

/// The physical key of a keyboard event. The keys that the translation
/// distinguishes are variants of their own; every other key is carried by
/// its name.
#[derive(Clone, Debug, PartialEq, Eq)]
pub enum Code {
    ShiftLeft,
    ShiftRight,
    ControlLeft,
    ControlRight,
    AltLeft,
    AltRight,
    MetaLeft,
    MetaRight,
    KeyQ,
    Other(String),
}

/// One of the four modifier keys that the toolkit tracks.
#[derive(Clone, Copy, Debug, PartialEq, Eq, Structural)]
pub enum Modifier {
    Shift,
    Ctrl,
    Alt,
    Super,
}

impl Code {
    /// The modifier that this key is, if it is one.
    pub open spec fn spec_modifier(self) -> Option<Modifier> {
        match self {
            Code::ShiftLeft | Code::ShiftRight => Some(Modifier::Shift),
            Code::ControlLeft | Code::ControlRight => Some(Modifier::Ctrl),
            Code::AltLeft | Code::AltRight => Some(Modifier::Alt),
            Code::MetaLeft | Code::MetaRight => Some(Modifier::Super),
            _ => None,
        }
    }

    /// The modifier that this key is, if it is one.
    pub fn modifier(&self) -> (r: Option<Modifier>)
        ensures
            r == self.spec_modifier(),
    {
        match self {
            Code::ShiftLeft | Code::ShiftRight => Some(Modifier::Shift),
            Code::ControlLeft | Code::ControlRight => Some(Modifier::Ctrl),
            Code::AltLeft | Code::AltRight => Some(Modifier::Alt),
            Code::MetaLeft | Code::MetaRight => Some(Modifier::Super),
            _ => None,
        }
    }
}

/// What a key means: the text it writes, or a key that writes nothing,
/// carried by its name.
#[derive(Clone, Debug, PartialEq, Eq)]
pub enum Key {
    Character(String),
    Named(String),
}

impl Key {
    /// The characters that the key writes; none for a key that writes nothing.
    pub open spec fn text(self) -> Seq<char> {
        match self {
            Key::Character(written) => written@,
            Key::Named(_) => Seq::empty(),
        }
    }
}

/// The modifier flags that the platform reports with a keyboard event, one
/// bit for each.
#[derive(Clone, Copy, Debug, PartialEq, Eq, Structural)]
pub struct KeyboardModifiers {
    pub bits: u32,
}

/// The bit of the alt key in [`KeyboardModifiers`].
pub const KEYBOARD_ALT: u32 = 0x01;

/// The bit of the control key in [`KeyboardModifiers`].
pub const KEYBOARD_CONTROL: u32 = 0x08;

/// The bit of the meta (command, logo) key in [`KeyboardModifiers`].
pub const KEYBOARD_META: u32 = 0x40;

/// The bit of the shift key in [`KeyboardModifiers`].
pub const KEYBOARD_SHIFT: u32 = 0x200;

/// The modifier state of the toolkit: which of shift, control, alt and
/// super are held.
#[derive(Clone, Copy, Debug, PartialEq, Eq, Structural)]
pub struct Modifiers {
    pub shift: bool,
    pub ctrl: bool,
    pub alt: bool,
    pub logo: bool,
}

impl Modifiers {
    /// No modifier held.
    pub open spec fn spec_empty() -> Modifiers {
        Modifiers { shift: false, ctrl: false, alt: false, logo: false }
    }

    /// No modifier held.
    pub fn empty() -> (r: Modifiers)
        ensures
            r == Modifiers::spec_empty(),
    {
        Modifiers { shift: false, ctrl: false, alt: false, logo: false }
    }

    /// Whether `which` is held.
    pub open spec fn spec_contains(self, which: Modifier) -> bool {
        match which {
            Modifier::Shift => self.shift,
            Modifier::Ctrl => self.ctrl,
            Modifier::Alt => self.alt,
            Modifier::Super => self.logo,
        }
    }

    /// Whether `which` is held.
    pub fn contains(&self, which: Modifier) -> (r: bool)
        ensures
            r == self.spec_contains(which),
    {
        match which {
            Modifier::Shift => self.shift,
            Modifier::Ctrl => self.ctrl,
            Modifier::Alt => self.alt,
            Modifier::Super => self.logo,
        }
    }

    /// This state with `which` held or not, and the other three as they are.
    pub open spec fn with(self, which: Modifier, held: bool) -> Modifiers {
        match which {
            Modifier::Shift => Modifiers { shift: held, ..self },
            Modifier::Ctrl => Modifiers { ctrl: held, ..self },
            Modifier::Alt => Modifiers { alt: held, ..self },
            Modifier::Super => Modifiers { logo: held, ..self },
        }
    }

    /// Records that `which` is held or not.
    pub fn set(&mut self, which: Modifier, held: bool)
        ensures
            *final(self) == old(self).with(which, held),
    {
        match which {
            Modifier::Shift => {
                self.shift = held;
            },
            Modifier::Ctrl => {
                self.ctrl = held;
            },
            Modifier::Alt => {
                self.alt = held;
            },
            Modifier::Super => {
                self.logo = held;
            },
        }
    }

    /// The state as a bit set: shift 1, control 2, alt 4, super 8.
    pub open spec fn spec_bits(self) -> int {
        (if self.shift { 1int } else { 0 }) + (if self.ctrl { 2int } else { 0 })
            + (if self.alt { 4int } else { 0 }) + (if self.logo { 8int } else { 0 })
    }

    /// The state as a bit set: shift 1, control 2, alt 4, super 8.
    pub fn bits(&self) -> (r: u8)
        ensures
            r == self.spec_bits(),
    {
        let mut r: u8 = 0;
        if self.shift {
            r = r + 1;
        }
        if self.ctrl {
            r = r + 2;
        }
        if self.alt {
            r = r + 4;
        }
        if self.logo {
            r = r + 8;
        }
        r
    }
}

/// A mouse button as the toolkit names it.
#[derive(Clone, Copy, Debug, PartialEq, Eq, Structural)]
pub enum MouseButton {
    Left,
    Right,
    Middle,
    Other(u16),
}

/// An event of the canonical stream that the toolkit's core consumes.
#[derive(Clone, Debug, PartialEq, Eq)]
pub enum WindowEvent {
    /// The window was asked to close.
    WindowClose,
    /// The cursor moved to a position in physical pixels.
    MouseMove(Fixed, Fixed),
    MouseDown(MouseButton),
    MouseUp(MouseButton),
    /// The wheel scrolled by a number of lines on each axis.
    MouseScroll(Fixed, Fixed),
    MouseEnter,
    MouseLeave,
    /// One character of text was written, given by its code point.
    CharInput(u32),
    /// A key went down: its physical key and what it means.
    KeyDown(Code, Key),
    /// A key came up: its physical key and what it means.
    KeyUp(Code, Key),
}

} // verus!
