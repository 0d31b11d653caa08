//! The units of outside work that the library asks of its caller, and what
//! the caller reports back of the toolkit's core.

use crate::input::{Modifiers, WindowEvent};
use crate::scale::{PhysicalSize, WindowSize};
use crate::units::{Fixed, ScaleFactor};
use vstd::prelude::*;

verus! {

/// One unit of work on the toolkit's core, on the native window or on the
/// render surfaces. The library decides which commands are due and in what
/// order; the caller performs them in that order.
#[derive(Clone, Debug, PartialEq, Eq)]
pub enum Command {
    /// Take every event out of the queue that other threads feed and forward
    /// each into the core.
    DrainQueue,
    /// Run the core's own event-processing pass.
    ProcessEvents,
    /// Deliver an event straight to the window.
    Send(WindowEvent),
    /// Deliver an event to wherever the core routes input.
    Emit(WindowEvent),
    /// Give the core the new modifier state.
    SetModifiers(Modifiers),
    /// Give the core the window's new logical size.
    StoreWindowSize(WindowSize),
    /// Ask the native window for a new logical size, which includes the
    /// user's scale factor.
    RequestWindowSize { width: Fixed, height: Fixed },
    /// Give the core its scale factor, the product of the two.
    SetScaleFactor { os: ScaleFactor, user: ScaleFactor },
    /// Give the core the window's new physical size.
    SetPhysicalSize(PhysicalSize),
    /// Resize the render surfaces to a physical size with an area.
    ResizeSurfaces(PhysicalSize),
    /// Tell the core that everything has to be drawn again.
    Refresh,
    /// Make the GPU context current to this thread.
    BindContext,
    /// Run the core's style pass, which touches state held on the GPU.
    ProcessStyle,
    /// Release the GPU context.
    ReleaseContext,
    /// Run the core's animation pass.
    Animate,
    /// Run the core's visual-update pass.
    UpdateVisuals,
    /// Acquire the surface to draw into.
    AcquireSurface,
    /// Run the core's draw pass.
    Draw,
    /// Submit what was drawn and display it.
    Present,
    /// Call the idle callback with the root of the window as the current
    /// entity.
    Idle,
    /// Return to the native event loop.
    Yield,
    /// Close the window.
    Close,
}

/// What the caller sees of the toolkit's core and of the event queue at the
/// moment it asks for the next commands.
#[derive(Clone, Copy, Debug, PartialEq, Eq, Structural)]
pub struct UiSnapshot {
    /// The logical size that the core holds for the window.
    pub window_size: WindowSize,
    /// The scale factor that the user chose.
    pub user_scale_factor: ScaleFactor,
    /// Whether the core asks for a redraw.
    pub redraw_requested: bool,
    /// The number of events waiting in the queue.
    pub queued: usize,
}

} // verus!
