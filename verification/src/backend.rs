//! The choice of a graphics backend, and what every backend promises of the
//! surfaces it manages, whichever it is.

use crate::application::ApplicationError;
use crate::d3d;
use crate::gl;
use crate::scale::PhysicalSize;
use crate::surface::{BoundingBox, Procedure, ProcedureState, Step};
use vstd::prelude::*;

verus! {

/// A graphics backend.
#[derive(Clone, Copy, Debug, PartialEq, Eq, Structural)]
pub enum Backend {
    OpenGl,
    Direct3D12,
    /// Named, but without an implementation: it manages no surfaces.
    Vulkan,
}

/// The backend that a configuration selects: the one that is enabled, if
/// exactly one is.
pub open spec fn selected(gl: bool, d3d: bool, vulkan: bool) -> Option<Backend> {
    if gl && !d3d && !vulkan {
        Some(Backend::OpenGl)
    } else if d3d && !gl && !vulkan {
        Some(Backend::Direct3D12)
    } else if vulkan && !gl && !d3d {
        Some(Backend::Vulkan)
    } else {
        None
    }
}

/// Selects the backend of a configuration. A configuration that enables no
/// backend, or more than one, is rejected.
pub fn select_backend(gl: bool, d3d: bool, vulkan: bool) -> (r: Result<Backend, ApplicationError>)
    ensures
        match r {
            Ok(backend) => selected(gl, d3d, vulkan) == Some(backend),
            Err(e) => e == ApplicationError::Configuration && selected(gl, d3d, vulkan) is None,
        },
{
    if gl && !d3d && !vulkan {
        Ok(Backend::OpenGl)
    } else if d3d && !gl && !vulkan {
        Ok(Backend::Direct3D12)
    } else if vulkan && !gl && !d3d {
        Ok(Backend::Vulkan)
    } else {
        Err(ApplicationError::Configuration)
    }
}

/// What a window is created with.
#[derive(Clone, Copy, Debug, PartialEq, Eq, Structural)]
pub struct SurfaceRequest {
    /// The entity of the window in the toolkit's core.
    pub entity: u64,
    /// What the search for an adapter came to, for a backend that runs on a
    /// device of its own: the rank of the adapter that gave a device.
    pub adapter: Option<u32>,
    /// The physical size of the window.
    pub size: PhysicalSize,
    /// The size of the monitor that the window is on, if it is on one.
    pub monitor: Option<PhysicalSize>,
    /// Whether frames wait for the refresh of the display.
    pub vsync: bool,
    /// Whether the display supports tearing.
    pub tearing_supported: bool,
}

impl SurfaceRequest {
    /// The request as the Direct3D 12 backend takes it.
    pub open spec fn creation(self) -> d3d::Creation {
        d3d::Creation {
            entity: self.entity,
            inner_size: self.size,
            monitor: self.monitor,
            vsync: self.vsync,
            tearing_supported: self.tearing_supported,
        }
    }
}

/// The surfaces of one window, managed by the backend that was selected.
#[derive(Clone, Copy, Debug)]
pub enum SurfaceManager {
    OpenGl(gl::WinState),
    Direct3D12(d3d::WinState),
}

impl SurfaceManager {
    /// The backend that manages the surfaces.
    pub open spec fn backend(self) -> Backend {
        match self {
            SurfaceManager::OpenGl(_) => Backend::OpenGl,
            SurfaceManager::Direct3D12(_) => Backend::Direct3D12,
        }
    }

    /// The size of the surfaces; none while there are none.
    pub open spec fn stored_size(self) -> Option<PhysicalSize> {
        match self {
            SurfaceManager::OpenGl(state) => state.stored_size(),
            SurfaceManager::Direct3D12(state) => state.stored_size(),
        }
    }

    /// Whether a resize to `size` is a resize at all: the size has an area
    /// and is not the size of the surfaces that exist.
    pub open spec fn resizes(self, size: PhysicalSize) -> bool {
        !size.is_degenerate() && self.stored_size() != Some(size)
    }

    /// The manager that a backend creates for a window, or why it creates
    /// none: a backend without an implementation refuses, and a backend that
    /// runs on a device of its own creates nothing without one.
    pub open spec fn created(backend: Backend, request: SurfaceRequest) -> Result<
        SurfaceManager,
        ApplicationError,
    > {
        match backend {
            Backend::OpenGl => Ok(
                SurfaceManager::OpenGl(gl::WinState::created(request.entity, request.size)),
            ),
            Backend::Direct3D12 => match request.adapter {
                Some(rank) => Ok(
                    SurfaceManager::Direct3D12(d3d::WinState::created(rank, request.creation())),
                ),
                None => Err(ApplicationError::DeviceAcquisition),
            },
            Backend::Vulkan => Err(ApplicationError::SurfaceCreation),
        }
    }

    /// The steps that set the surfaces of a new window of `size` up.
    pub open spec fn creation_plan(self, size: PhysicalSize) -> Seq<Step> {
        match self {
            SurfaceManager::OpenGl(_) => gl::creation_plan(size),
            SurfaceManager::Direct3D12(state) => state.creation_plan(),
        }
    }

    /// The manager after a resize to `size` that succeeded.
    pub open spec fn resized(self, size: PhysicalSize, monitor: Option<PhysicalSize>) -> SurfaceManager {
        match self {
            SurfaceManager::OpenGl(state) => SurfaceManager::OpenGl(
                gl::WinState { stored: Some(size), ..state },
            ),
            SurfaceManager::Direct3D12(state) => SurfaceManager::Direct3D12(
                state.resized(size, monitor),
            ),
        }
    }

    /// The steps by which the backend reallocates for a resize to `size`.
    pub open spec fn resize_plan(self, size: PhysicalSize, monitor: Option<PhysicalSize>) -> Seq<
        Step,
    > {
        match self {
            SurfaceManager::OpenGl(_) => gl::resize_plan(size),
            SurfaceManager::Direct3D12(state) => state.resize_plan(size, monitor),
        }
    }

    /// Whether a procedure is the resize to `size` of this manager, run to
    /// its end without a failure.
    pub open spec fn resize_succeeded(
        self,
        procedure: ProcedureState,
        size: PhysicalSize,
        monitor: Option<PhysicalSize>,
    ) -> bool {
        procedure.succeeded() && self.resizes(size) && procedure.steps == self.resize_plan(
            size,
            monitor,
        )
    }

    /// Whether a failed resize has dropped surfaces that the manager still
    /// holds, so that they have to be built again: with a swap chain the
    /// surfaces are dropped before the buffers are resized; without one the
    /// pair that exists is not touched until the new one is complete.
    pub open spec fn restores(self) -> bool {
        self matches SurfaceManager::Direct3D12(state) && state.surfaces_alive
    }

    /// The manager that is building its surfaces again.
    pub open spec fn restoring(self) -> SurfaceManager {
        match self {
            SurfaceManager::Direct3D12(state) if state.surfaces_alive => SurfaceManager::Direct3D12(
                d3d::WinState { surfaces_alive: !state.inner_size.is_degenerate(), ..state },
            ),
            _ => self,
        }
    }

    /// Whether a frame is presented at all: the changed region covers
    /// something and there are surfaces; with a swap chain, the window is
    /// not minimized and the buffer exists.
    pub open spec fn presents(
        self,
        dirty_region: BoundingBox,
        minimized: Option<bool>,
        back_buffer: u32,
    ) -> bool {
        match self {
            SurfaceManager::OpenGl(state) => !dirty_region.is_degenerate() && state.stored_size()
                is Some,
            SurfaceManager::Direct3D12(state) => state.presents(
                dirty_region,
                minimized,
                back_buffer,
            ),
        }
    }

    /// The steps by which the backend presents a changed region.
    pub open spec fn present_plan(self, dirty_region: BoundingBox, back_buffer: u32) -> Seq<Step> {
        match self {
            SurfaceManager::OpenGl(_) => gl::present_plan(),
            SurfaceManager::Direct3D12(state) => state.present_plan(dirty_region, back_buffer),
        }
    }

    /// The manager after a procedure that built the surfaces of the size it
    /// holds: after a failure there are no surfaces.
    pub open spec fn concluded(self, failed: bool) -> SurfaceManager {
        match self {
            SurfaceManager::OpenGl(state) => SurfaceManager::OpenGl(state.concluded(failed)),
            SurfaceManager::Direct3D12(state) => SurfaceManager::Direct3D12(
                state.concluded(failed),
            ),
        }
    }

    /// The manager of the surfaces of a new window and the procedure that
    /// sets them up. A backend without an implementation refuses; a backend
    /// that runs on a device of its own reports the failure to get one where
    /// no adapter gave a device. In both cases nothing is made. The surfaces
    /// have the size of the window; a window without area has none.
    pub fn create(backend: Backend, request: SurfaceRequest) -> (r: Result<
        (SurfaceManager, Procedure),
        ApplicationError,
    >)
        ensures
            match r {
                Ok(made) => SurfaceManager::created(backend, request) == Ok::<
                    SurfaceManager,
                    ApplicationError,
                >(made.0) && made.0.backend() == backend && made.0.stored_size() == (
                if request.size.is_degenerate() {
                    None
                } else {
                    Some(request.size)
                }) && made.1@ == ProcedureState::fresh(made.0.creation_plan(request.size)),
                Err(e) => SurfaceManager::created(backend, request) == Err::<
                    SurfaceManager,
                    ApplicationError,
                >(e),
            },
    {
        match backend {
            Backend::OpenGl => {
                let (state, procedure) = gl::WinState::new(request.entity, request.size);
                Ok((SurfaceManager::OpenGl(state), procedure))
            },
            Backend::Direct3D12 => {
                let creation = d3d::Creation {
                    entity: request.entity,
                    inner_size: request.size,
                    monitor: request.monitor,
                    vsync: request.vsync,
                    tearing_supported: request.tearing_supported,
                };
                match d3d::WinState::new(request.adapter, creation) {
                    Ok((state, procedure)) => Ok((SurfaceManager::Direct3D12(state), procedure)),
                    Err(e) => Err(e),
                }
            },
            Backend::Vulkan => Err(ApplicationError::SurfaceCreation),
        }
    }

    /// Plans a resize of the surfaces, and changes nothing. Returns nothing
    /// when the new size is zero in either dimension or is the size of the
    /// surfaces that exist; otherwise returns the procedure by which the
    /// backend reallocates. The new size is stored only once the procedure
    /// has succeeded: see [`SurfaceManager::conclude_resize`].
    pub fn resize(&self, new_size: PhysicalSize, monitor: Option<PhysicalSize>) -> (r: Option<
        Procedure,
    >)
        ensures
            new_size.width == 0 || new_size.height == 0 ==> r is None,
            self.stored_size() == Some(new_size) ==> r is None,
            self.resizes(new_size) <==> r is Some,
            r matches Some(procedure) ==> procedure@ == ProcedureState::fresh(
                self.resize_plan(new_size, monitor),
            ),
    {
        match self {
            SurfaceManager::OpenGl(state) => state.resize(new_size),
            SurfaceManager::Direct3D12(state) => state.resize(new_size, monitor),
        }
    }

    /// Takes the end of a resize into account, and says whether the new size
    /// was stored. It is stored if the procedure is the resize to `new_size`
    /// of this manager and has succeeded. In every other case, and so after
    /// the backend refused the resize of the buffers or the binding of a
    /// render target, the manager stays exactly as it was before the resize:
    /// the stored size and the surfaces are those of before, and the next
    /// resize plans all of it again.
    pub fn conclude_resize(
        &mut self,
        procedure: &Procedure,
        new_size: PhysicalSize,
        monitor: Option<PhysicalSize>,
    ) -> (stored: bool)
        ensures
            stored == old(self).resize_succeeded(procedure@, new_size, monitor),
            stored ==> *final(self) == old(self).resized(new_size, monitor),
            stored ==> final(self).stored_size() == Some(new_size),
            !stored ==> *final(self) == *old(self),
    {
        match self {
            SurfaceManager::OpenGl(state) => state.conclude_resize(procedure, new_size),
            SurfaceManager::Direct3D12(state) => state.conclude_resize(
                procedure,
                new_size,
                monitor,
            ),
        }
    }

    /// The procedure that builds the surfaces again that the manager holds
    /// and that a failed resize has dropped; none where the failed resize has
    /// left them in place or there were none. Its end is taken into account
    /// by [`SurfaceManager::conclude`].
    pub fn restore(&mut self) -> (r: Option<Procedure>)
        ensures
            r is Some <==> old(self).restores(),
            *final(self) == old(self).restoring(),
            r matches Some(procedure) ==> *old(self) matches SurfaceManager::Direct3D12(state)
                && procedure@ == ProcedureState::fresh(d3d::surfaces_plan(state.inner_size)),
    {
        match self {
            SurfaceManager::OpenGl(_) => None,
            SurfaceManager::Direct3D12(state) => {
                if state.surfaces_alive {
                    Some(state.create_surfaces())
                } else {
                    None
                }
            },
        }
    }

    /// The step by which the backend binds the GPU context for work of the
    /// toolkit's core, where it has a context to bind.
    pub fn bind_context(&self) -> (r: Option<Step>)
        ensures
            r == (if self is OpenGl {
                Some(Step::MakeCurrent)
            } else {
                None
            }),
    {
        match self {
            SurfaceManager::OpenGl(state) => state.make_current(),
            SurfaceManager::Direct3D12(state) => state.make_current(),
        }
    }

    /// The step by which the backend releases the GPU context after work of
    /// the toolkit's core, where it has a context to release.
    pub fn release_context(&self) -> (r: Option<Step>)
        ensures
            r == (if self is OpenGl {
                Some(Step::MakeNotCurrent)
            } else {
                None
            }),
    {
        match self {
            SurfaceManager::OpenGl(_) => Some(Step::MakeNotCurrent),
            SurfaceManager::Direct3D12(_) => None,
        }
    }

    /// The surface to draw into and the surface beside it, by their places;
    /// none while there are no surfaces. `back_buffer` is the buffer that a
    /// swap chain draws into next; a backend without a swap chain ignores it.
    pub fn acquire_current(&self, back_buffer: usize) -> (r: Option<(usize, usize)>)
        ensures
            r is Some <==> self.stored_size() is Some,
            r matches Some(pair) ==> pair == (if self is OpenGl || back_buffer == 0 {
                (0usize, 1usize)
            } else {
                (1usize, 0usize)
            }),
    {
        match self {
            SurfaceManager::OpenGl(state) => state.surfaces_mut(),
            SurfaceManager::Direct3D12(state) => state.surfaces_mut(back_buffer),
        }
    }

    /// The procedure that submits what was drawn and displays it; none, and
    /// nothing to do, where the changed region is empty or not positive,
    /// where there are no surfaces, and for a swap chain where the window is
    /// minimized or the buffer does not exist.
    pub fn present(
        &self,
        dirty_region: BoundingBox,
        minimized: Option<bool>,
        back_buffer: u32,
    ) -> (r: Option<Procedure>)
        ensures
            dirty_region.is_degenerate() || self.stored_size() is None ==> r is None,
            r is Some <==> self.presents(dirty_region, minimized, back_buffer),
            r matches Some(procedure) ==> procedure@ == ProcedureState::fresh(
                self.present_plan(dirty_region, back_buffer),
            ),
    {
        match self {
            SurfaceManager::OpenGl(state) => state.swap_buffers(dirty_region),
            SurfaceManager::Direct3D12(state) => state.swap_buffers(
                dirty_region,
                minimized,
                back_buffer,
            ),
        }
    }

    /// Takes the end of a procedure into account that built the surfaces of
    /// the size that the manager holds, at creation or by
    /// [`SurfaceManager::restore`]: after a failure there are no surfaces, so
    /// that none is half built and the next resize builds them.
    pub fn conclude(&mut self, procedure: &Procedure)
        ensures
            *final(self) == old(self).concluded(procedure@.failed is Some),
            final(self).stored_size() == (if procedure@.failed is Some {
                None
            } else {
                old(self).stored_size()
            }),
    {
        match self {
            SurfaceManager::OpenGl(state) => state.conclude(procedure),
            SurfaceManager::Direct3D12(state) => state.conclude(procedure),
        }
    }
}

} // verus!
