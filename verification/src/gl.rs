//! The OpenGL backend: one context per window, made current for the span of
//! each procedure and released at its end; a primary surface on the
//! framebuffer of the window and an offscreen surface of the same size.

use crate::application::ApplicationError;
use crate::scale::PhysicalSize;
use crate::surface::{scoped, BoundingBox, Procedure, ProcedureState, Step};
use vstd::prelude::*;

verus! {

/// What the choice among the configurations of a display reads of each.
#[derive(Clone, Copy, Debug, PartialEq, Eq, Structural)]
pub struct ConfigInfo {
    /// Whether the configuration supports a transparent window, where known.
    pub supports_transparency: Option<bool>,
    /// The number of samples per pixel.
    pub num_samples: u8,
}

impl ConfigInfo {
    /// Whether the configuration is known to support transparency.
    pub open spec fn transparent(self) -> bool {
        self.supports_transparency == Some(true)
    }

    /// Whether this configuration replaces the one chosen so far: it
    /// supports transparency and that one does not, or it takes fewer samples.
    pub open spec fn preferred_over(self, chosen: ConfigInfo) -> bool {
        (self.transparent() && !chosen.transparent()) || self.num_samples < chosen.num_samples
    }
}

/// The index of the configuration that is chosen among the first `count`:
/// the first to begin with, and then each one that is preferred over the
/// one chosen before it.
pub open spec fn chosen_among(configs: Seq<ConfigInfo>, count: int) -> int
    decreases count,
{
    if count <= 1 {
        0
    } else if configs[count - 1].preferred_over(configs[chosen_among(configs, count - 1)]) {
        count - 1
    } else {
        chosen_among(configs, count - 1)
    }
}

/// Chooses a configuration of the display; none where there is none to
/// choose from.
pub fn choose_config(configs: &Vec<ConfigInfo>) -> (index: Option<usize>)
    ensures
        configs@.len() == 0 <==> index is None,
        index matches Some(i) ==> i == chosen_among(configs@, configs@.len() as int) && i
            < configs@.len(),
{
    if configs.len() == 0 {
        return None;
    }
    let mut chosen: usize = 0;
    let mut i: usize = 1;
    while i < configs.len()
        invariant
            1 <= i <= configs.len(),
            chosen < i,
            chosen == chosen_among(configs@, i as int),
        decreases configs.len() - i,
    {
        let config = configs[i];
        let accum = configs[chosen];
        let transparency = is_transparent(&config) && !is_transparent(&accum);
        if transparency || config.num_samples < accum.num_samples {
            chosen = i;
        }
        i = i + 1;
    }
    Some(chosen)
}

fn is_transparent(config: &ConfigInfo) -> (r: bool)
    ensures
        r == config.transparent(),
{
    match config.supports_transparency {
        Some(supported) => supported,
        None => false,
    }
}

/// A programming interface that a context can be created for.
#[derive(Clone, Copy, Debug, PartialEq, Eq, Structural)]
pub enum ContextApi {
    OpenGl,
    Gles,
}

/// The interfaces to try when the context is created, in this order: OpenGL
/// first, OpenGL ES when that fails.
pub fn context_preference() -> (r: Vec<ContextApi>)
    ensures
        r@ == seq![ContextApi::OpenGl, ContextApi::Gles],
{
    let mut r: Vec<ContextApi> = Vec::new();
    r.push(ContextApi::OpenGl);
    r.push(ContextApi::Gles);
    r
}

/// An extent that a window surface can have: at least one pixel.
pub open spec fn surface_extent(extent: u32) -> u32 {
    if extent == 0 {
        1
    } else {
        extent
    }
}

fn at_least_one(extent: u32) -> (r: u32)
    ensures
        r == surface_extent(extent),
{
    if extent == 0 {
        1
    } else {
        extent
    }
}

/// The steps that build the pair of surfaces for a size: the framebuffer is
/// looked up and wrapped as the primary surface, and the offscreen surface is
/// created beside it.
pub open spec fn pair_plan(size: PhysicalSize) -> Seq<Step> {
    seq![
        Step::QueryFramebuffer,
        Step::WrapFramebuffer { width: size.width, height: size.height },
        Step::CreateOffscreen { width: size.width, height: size.height },
    ]
}

/// The steps that set a window up: the context and the surface of the window
/// are created, the context is made current, the driver and the drawing
/// library are brought up, and for a window with an area the pair of
/// surfaces is built.
pub open spec fn creation_plan(size: PhysicalSize) -> Seq<Step> {
    seq![
        Step::CreateContext,
        Step::CreateWindowSurface {
            width: surface_extent(size.width),
            height: surface_extent(size.height),
        },
        Step::MakeCurrent,
        Step::LoadFunctions,
        Step::CreateDirectContext,
    ] + (if size.is_degenerate() {
        Seq::empty()
    } else {
        pair_plan(size)
    })
}

/// The steps of a resize: with the context current, the pair of surfaces is
/// built anew for the new size, and the surface of the window is resized.
pub open spec fn resize_plan(size: PhysicalSize) -> Seq<Step> {
    seq![Step::MakeCurrent] + pair_plan(size) + seq![
        Step::ResizeWindowSurface { width: size.width, height: size.height },
    ]
}

/// The steps that present a frame: with the context current, what was drawn
/// is submitted and shown.
pub open spec fn present_plan() -> Seq<Step> {
    seq![Step::MakeCurrent, Step::Flush, Step::SwapBuffers]
}

/// The dimensions of a render target, which are signed: those of the size if
/// both are in range.
pub open spec fn target_dimensions(size: PhysicalSize) -> Option<(i32, i32)> {
    if size.width <= i32::MAX && size.height <= i32::MAX {
        Some((size.width as i32, size.height as i32))
    } else {
        None
    }
}

/// The dimensions with which the framebuffer of a window of the given size
/// is wrapped as a surface. A size that a render target cannot have is
/// refused as the backend would refuse it.
pub fn create_surface(size: PhysicalSize) -> (r: Result<(i32, i32), ApplicationError>)
    ensures
        match r {
            Ok(dimensions) => target_dimensions(size) == Some(dimensions),
            Err(e) => e == ApplicationError::SurfaceCreation && target_dimensions(size) is None,
        },
{
    if size.width <= 0x7fff_ffff && size.height <= 0x7fff_ffff {
        Ok((size.width as i32, size.height as i32))
    } else {
        Err(ApplicationError::SurfaceCreation)
    }
}

/// What the backend holds of one window.
#[derive(Clone, Copy, Debug)]
pub struct WinState {
    /// The entity of the window in the toolkit's core.
    pub entity: u64,
    /// The size of the pair of surfaces; none while there is no pair.
    pub stored: Option<PhysicalSize>,
    pub should_close: bool,
    pub is_initially_cloaked: bool,
    pub is_moving_or_resizing: bool,
}

fn push_pair(steps: &mut Vec<Step>, size: PhysicalSize)
    ensures
        final(steps)@ == old(steps)@ + pair_plan(size),
{
    steps.push(Step::QueryFramebuffer);
    steps.push(Step::WrapFramebuffer { width: size.width, height: size.height });
    steps.push(Step::CreateOffscreen { width: size.width, height: size.height });
}

fn plan_resize(size: PhysicalSize) -> (steps: Vec<Step>)
    ensures
        steps@ == resize_plan(size),
{
    let mut steps: Vec<Step> = Vec::new();
    steps.push(Step::MakeCurrent);
    push_pair(&mut steps, size);
    steps.push(Step::ResizeWindowSurface { width: size.width, height: size.height });
    assert(steps@ =~= resize_plan(size));
    steps
}

impl WinState {
    /// The size of the pair of surfaces; none while there is no pair.
    pub open spec fn stored_size(self) -> Option<PhysicalSize> {
        self.stored
    }

    /// Whether a resize to `size` is a resize at all: the size has an area
    /// and is not the size of the pair that exists.
    pub open spec fn resizes(self, size: PhysicalSize) -> bool {
        !size.is_degenerate() && self.stored_size() != Some(size)
    }

    /// The state of a new window of the given size: it has its pair of
    /// surfaces unless it has no area, is not closing, is cloaked and at rest.
    pub open spec fn created(entity: u64, size: PhysicalSize) -> WinState {
        WinState {
            entity,
            stored: if size.is_degenerate() {
                None
            } else {
                Some(size)
            },
            should_close: false,
            is_initially_cloaked: true,
            is_moving_or_resizing: false,
        }
    }

    /// The state of a window of the given size, not closing, cloaked, at
    /// rest, and the procedure that sets it up. For a window without area no
    /// surfaces are built.
    pub fn new(entity: u64, size: PhysicalSize) -> (r: (WinState, Procedure))
        ensures
            r.0 == WinState::created(entity, size),
            r.1@ == ProcedureState::fresh(creation_plan(size)),
    {
        let mut steps: Vec<Step> = Vec::new();
        steps.push(Step::CreateContext);
        steps.push(
            Step::CreateWindowSurface {
                width: at_least_one(size.width),
                height: at_least_one(size.height),
            },
        );
        steps.push(Step::MakeCurrent);
        steps.push(Step::LoadFunctions);
        steps.push(Step::CreateDirectContext);
        let stored = if size.is_empty() {
            None
        } else {
            push_pair(&mut steps, size);
            Some(size)
        };
        assert(steps@ =~= creation_plan(size));
        (
            WinState {
                entity,
                stored,
                should_close: false,
                is_initially_cloaked: true,
                is_moving_or_resizing: false,
            },
            Procedure::new(steps),
        )
    }

    fn wants_resize(&self, size: PhysicalSize) -> (r: bool)
        ensures
            r == self.resizes(size),
    {
        if size.is_empty() {
            return false;
        }
        match self.stored {
            Some(present) => !(present == size),
            None => true,
        }
    }

    /// Plans a resize of the pair of surfaces, and changes nothing. Returns
    /// nothing when the new size has no area or is the size of the pair that
    /// exists; otherwise returns the procedure that builds the pair for it.
    /// The new size is stored only once the procedure has succeeded: see
    /// [`WinState::conclude_resize`].
    pub fn resize(&self, size: PhysicalSize) -> (r: Option<Procedure>)
        ensures
            self.resizes(size) <==> r is Some,
            size.width == 0 || size.height == 0 ==> r is None,
            r matches Some(procedure) ==> procedure@ == ProcedureState::fresh(resize_plan(size)),
    {
        if !self.wants_resize(size) {
            return None;
        }
        Some(Procedure::new(plan_resize(size)))
    }

    /// Whether a procedure is the resize to `size` of this state, run to its
    /// end without a failure.
    pub open spec fn resize_succeeded(self, procedure: ProcedureState, size: PhysicalSize) -> bool {
        procedure.succeeded() && self.resizes(size) && procedure.steps == resize_plan(size)
    }

    /// Takes the end of a resize into account. If the procedure is the
    /// resize to `size` of this state and has succeeded, the new size is
    /// stored. In every other case, and so after any step was refused, the
    /// state stays exactly as it was before the resize, and the next resize
    /// plans all of it again.
    pub fn conclude_resize(&mut self, procedure: &Procedure, size: PhysicalSize) -> (stored: bool)
        ensures
            stored == old(self).resize_succeeded(procedure@, size),
            *final(self) == (if stored {
                WinState { stored: Some(size), ..*old(self) }
            } else {
                *old(self)
            }),
    {
        if !procedure.succeeded() || !self.wants_resize(size) {
            return false;
        }
        let plan = plan_resize(size);
        if !procedure.follows(&plan) {
            return false;
        }
        self.stored = Some(size);
        true
    }

    /// The step that prepares the GPU for work of the toolkit's core: the
    /// context is made current.
    pub fn make_current(&self) -> (r: Option<Step>)
        ensures
            r == Some(Step::MakeCurrent),
    {
        Some(Step::MakeCurrent)
    }

    /// The surface to draw into and the offscreen surface beside it, by
    /// their places in the pair; none while there is no pair.
    pub fn surfaces_mut(&self) -> (r: Option<(usize, usize)>)
        ensures
            r == (if self.stored_size() is Some {
                Some((0usize, 1usize))
            } else {
                None
            }),
    {
        match self.stored {
            Some(_) => Some((0, 1)),
            None => None,
        }
    }

    /// The procedure that presents a frame; none, and nothing to do, where
    /// the changed region covers nothing or there is no pair of surfaces.
    pub fn swap_buffers(&self, dirty_rect: BoundingBox) -> (r: Option<Procedure>)
        ensures
            r is Some <==> !dirty_rect.is_degenerate() && self.stored_size() is Some,
            r matches Some(procedure) ==> procedure@ == ProcedureState::fresh(present_plan()),
    {
        if dirty_rect.is_empty() || self.stored.is_none() {
            return None;
        }
        let mut steps: Vec<Step> = Vec::new();
        steps.push(Step::MakeCurrent);
        steps.push(Step::Flush);
        steps.push(Step::SwapBuffers);
        assert(steps@ =~= present_plan());
        Some(Procedure::new(steps))
    }

    /// The state after the procedure that set the window up: after a failure
    /// there is no pair.
    pub open spec fn concluded(self, failed: bool) -> WinState {
        if failed {
            WinState { stored: None, ..self }
        } else {
            self
        }
    }

    /// Takes the end of the procedure that set the window up into account:
    /// after a failure there is no pair, so that the next resize builds one.
    pub fn conclude(&mut self, procedure: &Procedure)
        ensures
            *final(self) == old(self).concluded(procedure@.failed is Some),
    {
        if procedure.error().is_some() {
            self.stored = None;
        }
    }
}

/// Every plan of this backend is scoped: each step that touches the GPU
/// comes after the context was made current.
pub proof fn lemma_plans_are_scoped(size: PhysicalSize)
    ensures
        scoped(creation_plan(size)),
        scoped(resize_plan(size)),
        scoped(present_plan()),
{
    reveal_with_fuel(crate::surface::current_before, 8);
}

} // verus!
