//! The Direct3D 12 backend: a swap chain of two buffers behind a
//! frame-latency wait, and one surface on each buffer. Before the buffers are
//! resized every reference into them is released.

use crate::application::ApplicationError;
use crate::scale::PhysicalSize;
use crate::surface::{BoundingBox, Procedure, ProcedureState, Step};
use vstd::prelude::*;

verus! {

/// The number of buffers of the swap chain.
pub const BUFFER_COUNT: u32 = 2;

/// How long, in milliseconds, a frame waits for the swap chain at most.
pub const FRAME_LATENCY_TIMEOUT_MS: u32 = 1000;

/// The flag of an adapter that renders in software.
pub const ADAPTER_FLAG_SOFTWARE: u32 = 2;

/// The present flag that allows tearing.
pub const PRESENT_ALLOW_TEARING: u32 = 512;

/// The swap-chain flag that allows tearing.
pub const SWAP_CHAIN_FLAG_ALLOW_TEARING: u32 = 2048;

/// The swap-chain flag that asks for a frame-latency wait handle.
pub const SWAP_CHAIN_FLAG_FRAME_LATENCY_WAITABLE_OBJECT: u32 = 64;

/// What the search for an adapter asks of the system next.
#[derive(Clone, Copy, Debug, PartialEq, Eq, Structural)]
pub enum AdapterAction {
    /// Describe the adapter of this rank among the high-performance ones.
    Enumerate(u32),
    /// Try to create a device on the adapter of this rank.
    CreateDevice(u32),
    /// Give up: no adapter is left.
    Fail,
}

/// Whether an adapter with these flags renders in software.
pub open spec fn is_software(flags: u32) -> bool {
    flags & ADAPTER_FLAG_SOFTWARE != 0
}

/// What follows the adapter of rank `index`, if it is not used.
pub open spec fn next_adapter(index: u32) -> AdapterAction {
    if index == u32::MAX {
        AdapterAction::Fail
    } else {
        AdapterAction::Enumerate((index + 1) as u32)
    }
}

/// What to do with an adapter that the system described: a software adapter
/// is passed over, a device is tried on any other.
pub fn after_description(index: u32, flags: u32) -> (r: AdapterAction)
    ensures
        r == (if is_software(flags) {
            next_adapter(index)
        } else {
            AdapterAction::CreateDevice(index)
        }),
{
    if flags & ADAPTER_FLAG_SOFTWARE != 0 {
        after_refusal(index)
    } else {
        AdapterAction::CreateDevice(index)
    }
}

/// What to do once an adapter refused the creation of a device: go on to the
/// next one, as long as there are ranks left.
pub fn after_refusal(index: u32) -> (r: AdapterAction)
    ensures
        r == next_adapter(index),
{
    if index == u32::MAX {
        AdapterAction::Fail
    } else {
        AdapterAction::Enumerate(index + 1)
    }
}

/// What the system would answer of one adapter.
#[derive(Clone, Copy, Debug, PartialEq, Eq, Structural)]
pub struct AdapterInfo {
    /// The flags of its description.
    pub flags: u32,
    /// Whether it accepts the creation of a device.
    pub accepts_device: bool,
}

impl AdapterInfo {
    /// An adapter that can be used: it is hardware and accepts a device.
    pub open spec fn usable(self) -> bool {
        !is_software(self.flags) && self.accepts_device
    }
}

/// The rank of the first usable adapter at or after `from`, among the ranks
/// that 32 bits number.
pub open spec fn first_usable(adapters: Seq<AdapterInfo>, from: int) -> Option<int>
    decreases adapters.len() - from,
{
    if from < 0 || from >= adapters.len() || from > u32::MAX {
        None
    } else if adapters[from].usable() {
        Some(from)
    } else {
        first_usable(adapters, from + 1)
    }
}

/// Runs the search for an adapter over a list of what the system would
/// answer, in the order of preference: returns the rank of the first hardware
/// adapter that accepts a device, and fails if the list has none.
pub fn get_hardware_adapter_and_device(adapters: &Vec<AdapterInfo>) -> (r: Result<
    u32,
    ApplicationError,
>)
    ensures
        match r {
            Ok(rank) => first_usable(adapters@, 0) == Some(rank as int),
            Err(e) => e == ApplicationError::DeviceAcquisition && first_usable(adapters@, 0)
                is None,
        },
{
    let mut action = AdapterAction::Enumerate(0);
    loop
        invariant
            match action {
                AdapterAction::Enumerate(rank) => first_usable(adapters@, 0) == first_usable(
                    adapters@,
                    rank as int,
                ),
                AdapterAction::CreateDevice(_) => false,
                AdapterAction::Fail => first_usable(adapters@, 0) is None,
            },
        decreases
            match action {
                AdapterAction::Enumerate(rank) => u32::MAX - rank + 1,
                _ => 0,
            },
    {
        match action {
            AdapterAction::Enumerate(rank) => {
                if rank as usize >= adapters.len() {
                    return Err(ApplicationError::DeviceAcquisition);
                }
                let adapter = adapters[rank as usize];
                proof {
                    if !adapter.usable() {
                        assert(first_usable(adapters@, rank as int) == first_usable(
                            adapters@,
                            rank + 1,
                        ));
                    }
                }
                match after_description(rank, adapter.flags) {
                    AdapterAction::CreateDevice(_) => {
                        if adapter.accepts_device {
                            return Ok(rank);
                        }
                        action = after_refusal(rank);
                    },
                    other => {
                        action = other;
                    },
                }
            },
            _ => {
                return Err(ApplicationError::DeviceAcquisition);
            },
        }
    }
}

/// The interval and the flags of a present: with vertical sync every frame
/// waits for one refresh; without it no frame waits, and tearing is allowed
/// where the display supports it.
pub open spec fn present_args(vsync: bool, tearing_supported: bool) -> (u32, u32) {
    if vsync {
        (1, 0)
    } else if tearing_supported {
        (0, PRESENT_ALLOW_TEARING)
    } else {
        (0, 0)
    }
}

/// The interval and the flags to present with.
pub fn get_present_args(vsync: bool, tearing_supported: bool) -> (r: (u32, u32))
    ensures
        r == present_args(vsync, tearing_supported),
{
    let mut sync_interval: u32 = 1;
    let mut present_flags: u32 = 0;
    if !vsync {
        sync_interval = 0;
        if tearing_supported {
            present_flags = PRESENT_ALLOW_TEARING;
        }
    }
    (sync_interval, present_flags)
}

/// The flags of the swap chain: a frame-latency wait handle always, and
/// tearing where the presents allow it.
pub open spec fn swap_chain_flags(present_flags: u32) -> u32 {
    if present_flags & PRESENT_ALLOW_TEARING != 0 {
        SWAP_CHAIN_FLAG_FRAME_LATENCY_WAITABLE_OBJECT | SWAP_CHAIN_FLAG_ALLOW_TEARING
    } else {
        SWAP_CHAIN_FLAG_FRAME_LATENCY_WAITABLE_OBJECT
    }
}

/// The steps that create the swap chain: it is created with buffers of the
/// given size, and after a bounded wait a first frame is presented.
pub open spec fn swap_chain_plan(
    buffer_size: PhysicalSize,
    sync_interval: u32,
    present_flags: u32,
) -> Seq<Step> {
    seq![
        Step::CreateSwapChain {
            count: BUFFER_COUNT,
            width: buffer_size.width,
            height: buffer_size.height,
            flags: swap_chain_flags(present_flags),
        },
        Step::WaitFrameLatency { timeout_ms: FRAME_LATENCY_TIMEOUT_MS },
        Step::PresentFrame { sync_interval, flags: present_flags },
    ]
}

/// Plans the creation of the swap chain.
pub fn create_swap_chain(buffer_size: PhysicalSize, sync_interval: u32, present_flags: u32) -> (r:
    Vec<Step>)
    ensures
        r@ == swap_chain_plan(buffer_size, sync_interval, present_flags),
{
    let mut flags: u32 = SWAP_CHAIN_FLAG_FRAME_LATENCY_WAITABLE_OBJECT;
    if present_flags & PRESENT_ALLOW_TEARING != 0 {
        flags = flags | SWAP_CHAIN_FLAG_ALLOW_TEARING;
    }
    let mut steps: Vec<Step> = Vec::new();
    steps.push(
        Step::CreateSwapChain {
            count: BUFFER_COUNT,
            width: buffer_size.width,
            height: buffer_size.height,
            flags,
        },
    );
    steps.push(Step::WaitFrameLatency { timeout_ms: FRAME_LATENCY_TIMEOUT_MS });
    steps.push(Step::PresentFrame { sync_interval, flags: present_flags });
    steps
}

/// The steps that build the surfaces: what is there is dropped, and for a
/// size with an area each buffer of the swap chain is wrapped as a surface of
/// that size.
pub open spec fn surfaces_plan(size: PhysicalSize) -> Seq<Step> {
    if size.is_degenerate() {
        seq![Step::DropSurfaces]
    } else {
        seq![
            Step::DropSurfaces,
            Step::WrapBackBuffer { index: 0, width: size.width, height: size.height },
            Step::WrapBackBuffer { index: 1, width: size.width, height: size.height },
        ]
    }
}

/// The steps that make the buffers ready to be resized and resize them:
/// the drawing library frees what it holds on the GPU, its context is reset,
/// the surfaces are dropped, and only then are the buffers resized.
pub open spec fn regrow_plan(buffer_size: PhysicalSize) -> Seq<Step> {
    seq![
        Step::ReleaseResources,
        Step::ResetContext,
        Step::DropSurfaces,
        Step::ResizeBuffers {
            count: BUFFER_COUNT,
            width: buffer_size.width,
            height: buffer_size.height,
        },
    ]
}

/// The size of the buffers for a window of `size`: that of the monitor
/// where the window is on one, else that of the window.
pub open spec fn buffer_size_for(size: PhysicalSize, monitor: Option<PhysicalSize>) -> PhysicalSize {
    match monitor {
        Some(whole) => whole,
        None => size,
    }
}

fn buffers_for(size: PhysicalSize, monitor: Option<PhysicalSize>) -> (r: PhysicalSize)
    ensures
        r == buffer_size_for(size, monitor),
{
    match monitor {
        Some(whole) => whole,
        None => size,
    }
}

/// What the backend holds of one window.
#[derive(Clone, Copy, Debug, PartialEq, Eq, Structural)]
pub struct WinState {
    /// The entity of the window in the toolkit's core.
    pub entity: u64,
    /// The rank of the adapter that the device is on.
    pub adapter: u32,
    pub is_initially_cloaked: bool,
    pub is_moving_or_resizing: bool,
    /// Whether the surfaces exist; they then have the inner size.
    pub surfaces_alive: bool,
    pub sync_interval: u32,
    pub present_flags: u32,
    /// The size of the window, which is the size of the surfaces.
    pub inner_size: PhysicalSize,
    /// The size of the buffers of the swap chain.
    pub buffer_size: PhysicalSize,
}

/// What a window of this backend is created with.
#[derive(Clone, Copy, Debug, PartialEq, Eq, Structural)]
pub struct Creation {
    /// The entity of the window in the toolkit's core.
    pub entity: u64,
    /// The physical size of the window.
    pub inner_size: PhysicalSize,
    /// The size of the monitor that the window is on, if it is on one.
    pub monitor: Option<PhysicalSize>,
    /// Whether frames wait for the refresh of the display.
    pub vsync: bool,
    /// Whether the display supports tearing.
    pub tearing_supported: bool,
}

fn push_surfaces(steps: &mut Vec<Step>, size: PhysicalSize)
    ensures
        final(steps)@ == old(steps)@ + surfaces_plan(size),
{
    steps.push(Step::DropSurfaces);
    if !size.is_empty() {
        let mut index: u32 = 0;
        while index < BUFFER_COUNT
            invariant
                index <= BUFFER_COUNT,
                !size.is_degenerate(),
                index == 0 ==> steps@ == old(steps)@.push(Step::DropSurfaces),
                index == 1 ==> steps@ == old(steps)@.push(Step::DropSurfaces).push(
                    Step::WrapBackBuffer { index: 0, width: size.width, height: size.height },
                ),
                index == 2 ==> steps@ == old(steps)@ + surfaces_plan(size),
            decreases BUFFER_COUNT - index,
        {
            steps.push(Step::WrapBackBuffer { index, width: size.width, height: size.height });
            index = index + 1;
        }
    }
}

impl WinState {
    /// The size of the surfaces; none while there are none.
    pub open spec fn stored_size(self) -> Option<PhysicalSize> {
        if self.surfaces_alive {
            Some(self.inner_size)
        } else {
            None
        }
    }

    /// Whether a resize to `size` is a resize at all: the size has an area
    /// and is not the size of the surfaces that exist.
    pub open spec fn resizes(self, size: PhysicalSize) -> bool {
        !size.is_degenerate() && self.stored_size() != Some(size)
    }

    /// Whether a window of `size` is larger than the buffers in either
    /// dimension.
    pub open spec fn outgrows(self, size: PhysicalSize) -> bool {
        size.width > self.buffer_size.width || size.height > self.buffer_size.height
    }

    /// The state after a resize to `size` that succeeded.
    pub open spec fn resized(self, size: PhysicalSize, monitor: Option<PhysicalSize>) -> WinState {
        WinState {
            inner_size: size,
            buffer_size: if self.outgrows(size) {
                buffer_size_for(size, monitor)
            } else {
                self.buffer_size
            },
            surfaces_alive: true,
            ..self
        }
    }

    /// The steps of a resize to `size`: where the window outgrows the
    /// buffers, the steps that resize the buffers first; then the steps that
    /// build the surfaces.
    pub open spec fn resize_plan(self, size: PhysicalSize, monitor: Option<PhysicalSize>) -> Seq<
        Step,
    > {
        if self.outgrows(size) {
            regrow_plan(buffer_size_for(size, monitor)) + surfaces_plan(size)
        } else {
            surfaces_plan(size)
        }
    }

    /// The steps that set a window up: the command queue, the swap chain,
    /// the context of the drawing library, and the surfaces.
    pub open spec fn creation_plan(self) -> Seq<Step> {
        seq![Step::CreateCommandQueue] + swap_chain_plan(
            self.buffer_size,
            self.sync_interval,
            self.present_flags,
        ) + seq![Step::CreateDirectContext] + surfaces_plan(self.inner_size)
    }

    /// The state of a new window on the adapter of the given rank: cloaked
    /// and at rest, with surfaces unless it has no area, with buffers of the
    /// size of the monitor, or of its own size where it is on none.
    pub open spec fn created(adapter: u32, creation: Creation) -> WinState {
        WinState {
            entity: creation.entity,
            adapter,
            is_initially_cloaked: true,
            is_moving_or_resizing: false,
            surfaces_alive: !creation.inner_size.is_degenerate(),
            sync_interval: present_args(creation.vsync, creation.tearing_supported).0,
            present_flags: present_args(creation.vsync, creation.tearing_supported).1,
            inner_size: creation.inner_size,
            buffer_size: buffer_size_for(creation.inner_size, creation.monitor),
        }
    }

    /// The state of a new window, cloaked and at rest, and the procedure that
    /// sets it up. `adapter` is what the search for an adapter came to: the
    /// rank of the adapter that gave a device, or none. Without a device
    /// there is no window: neither a state nor a procedure is made, and the
    /// failure to get a device is reported.
    pub fn new(adapter: Option<u32>, creation: Creation) -> (r: Result<
        (WinState, Procedure),
        ApplicationError,
    >)
        ensures
            match r {
                Ok(made) => adapter matches Some(rank) && made.0 == WinState::created(
                    rank,
                    creation,
                ) && made.1@ == ProcedureState::fresh(made.0.creation_plan()),
                Err(e) => adapter is None && e == ApplicationError::DeviceAcquisition,
            },
    {
        let rank = match adapter {
            Some(rank) => rank,
            None => {
                return Err(ApplicationError::DeviceAcquisition);
            },
        };
        let buffer_size = buffers_for(creation.inner_size, creation.monitor);
        let (sync_interval, present_flags) = get_present_args(
            creation.vsync,
            creation.tearing_supported,
        );
        let state = WinState {
            entity: creation.entity,
            adapter: rank,
            is_initially_cloaked: true,
            is_moving_or_resizing: false,
            surfaces_alive: !creation.inner_size.is_empty(),
            sync_interval,
            present_flags,
            inner_size: creation.inner_size,
            buffer_size,
        };
        let mut steps: Vec<Step> = Vec::new();
        steps.push(Step::CreateCommandQueue);
        let mut swap_chain = create_swap_chain(buffer_size, sync_interval, present_flags);
        steps.append(&mut swap_chain);
        steps.push(Step::CreateDirectContext);
        push_surfaces(&mut steps, creation.inner_size);
        assert(steps@ =~= state.creation_plan());
        Ok((state, Procedure::new(steps)))
    }

    fn plan_resize(&self, size: PhysicalSize, monitor: Option<PhysicalSize>) -> (steps: Vec<Step>)
        ensures
            steps@ == self.resize_plan(size, monitor),
    {
        let mut steps: Vec<Step> = Vec::new();
        if size.width > self.buffer_size.width || size.height > self.buffer_size.height {
            let buffer_size = buffers_for(size, monitor);
            steps.push(Step::ReleaseResources);
            steps.push(Step::ResetContext);
            steps.push(Step::DropSurfaces);
            steps.push(
                Step::ResizeBuffers {
                    count: BUFFER_COUNT,
                    width: buffer_size.width,
                    height: buffer_size.height,
                },
            );
        }
        push_surfaces(&mut steps, size);
        assert(steps@ =~= self.resize_plan(size, monitor));
        steps
    }

    fn wants_resize(&self, size: PhysicalSize) -> (r: bool)
        ensures
            r == self.resizes(size),
    {
        !size.is_empty() && !(self.surfaces_alive && size == self.inner_size)
    }

    /// Plans a resize of the surfaces, and changes nothing. Returns nothing
    /// when the new size has no area or is the size of the surfaces that
    /// exist; otherwise returns the procedure of the resize. Where the window
    /// outgrows the buffers, the procedure releases every reference into them
    /// before it resizes them. The new size is stored only once the
    /// procedure has succeeded: see [`WinState::conclude_resize`].
    pub fn resize(&self, size: PhysicalSize, monitor: Option<PhysicalSize>) -> (r: Option<
        Procedure,
    >)
        ensures
            self.resizes(size) <==> r is Some,
            size.width == 0 || size.height == 0 ==> r is None,
            r matches Some(procedure) ==> procedure@ == ProcedureState::fresh(
                self.resize_plan(size, monitor),
            ),
    {
        if !self.wants_resize(size) {
            return None;
        }
        Some(Procedure::new(self.plan_resize(size, monitor)))
    }

    /// Whether a procedure is the resize to `size` of this state, run to its
    /// end without a failure.
    pub open spec fn resize_succeeded(
        self,
        procedure: ProcedureState,
        size: PhysicalSize,
        monitor: Option<PhysicalSize>,
    ) -> bool {
        procedure.succeeded() && self.resizes(size) && procedure.steps == self.resize_plan(
            size,
            monitor,
        )
    }

    /// Takes the end of a resize into account. If the procedure is the
    /// resize to `size` of this state and has succeeded, the new size and the
    /// size of the buffers are stored. In every other case, and so after any
    /// step was refused, the state stays exactly as it was before the resize:
    /// the next resize plans all of it again, the resize of the buffers too.
    pub fn conclude_resize(
        &mut self,
        procedure: &Procedure,
        size: PhysicalSize,
        monitor: Option<PhysicalSize>,
    ) -> (stored: bool)
        ensures
            stored == old(self).resize_succeeded(procedure@, size, monitor),
            *final(self) == (if stored {
                old(self).resized(size, monitor)
            } else {
                *old(self)
            }),
    {
        if !procedure.succeeded() || !self.wants_resize(size) {
            return false;
        }
        let plan = self.plan_resize(size, monitor);
        if !procedure.follows(&plan) {
            return false;
        }
        if size.width > self.buffer_size.width || size.height > self.buffer_size.height {
            self.buffer_size = buffers_for(size, monitor);
        }
        self.inner_size = size;
        self.surfaces_alive = true;
        true
    }

    /// The procedure that builds the surfaces anew for the size of the
    /// window.
    pub fn create_surfaces(&mut self) -> (r: Procedure)
        ensures
            r@ == ProcedureState::fresh(surfaces_plan(old(self).inner_size)),
            *final(self) == (WinState {
                surfaces_alive: !old(self).inner_size.is_degenerate(),
                ..*old(self)
            }),
    {
        let mut steps: Vec<Step> = Vec::new();
        push_surfaces(&mut steps, self.inner_size);
        self.surfaces_alive = !self.inner_size.is_empty();
        Procedure::new(steps)
    }

    /// The step that prepares the GPU for work of the toolkit's core: none,
    /// since this backend has no context that is bound to a thread.
    pub fn make_current(&self) -> (r: Option<Step>)
        ensures
            r is None,
    {
        None
    }

    /// The surface to draw into and the other one, by the buffers they are
    /// on, for the buffer that the swap chain draws into next; none while
    /// there are no surfaces.
    pub fn surfaces_mut(&self, back_buffer: usize) -> (r: Option<(usize, usize)>)
        ensures
            r == (if !self.surfaces_alive {
                None
            } else if back_buffer == 0 {
                Some((0usize, 1usize))
            } else {
                Some((1usize, 0usize))
            }),
    {
        if !self.surfaces_alive {
            None
        } else if back_buffer == 0 {
            Some((0, 1))
        } else {
            Some((1, 0))
        }
    }

    /// Whether a frame is presented at all: the changed region covers
    /// something, the window is not minimized, and the surface of the buffer
    /// exists.
    pub open spec fn presents(
        self,
        dirty_rect: BoundingBox,
        minimized: Option<bool>,
        back_buffer: u32,
    ) -> bool {
        !dirty_rect.is_degenerate() && minimized != Some(true) && self.surfaces_alive
            && back_buffer < BUFFER_COUNT
    }

    /// The steps that present the changed region: after a bounded wait for
    /// the swap chain, what was drawn on the surface is submitted, and the
    /// region is shown.
    pub open spec fn present_plan(self, dirty_rect: BoundingBox, back_buffer: u32) -> Seq<Step> {
        seq![
            Step::WaitFrameLatency { timeout_ms: FRAME_LATENCY_TIMEOUT_MS },
            Step::FlushSurface { index: back_buffer },
            Step::PresentRegion {
                sync_interval: self.sync_interval,
                flags: self.present_flags,
                dirty: dirty_rect.spec_rect(),
            },
        ]
    }

    /// The procedure that presents the changed region; none, and nothing to
    /// do, where no frame is presented.
    pub fn swap_buffers(
        &self,
        dirty_rect: BoundingBox,
        minimized: Option<bool>,
        back_buffer: u32,
    ) -> (r: Option<Procedure>)
        ensures
            r is Some <==> self.presents(dirty_rect, minimized, back_buffer),
            r matches Some(procedure) ==> procedure@ == ProcedureState::fresh(
                self.present_plan(dirty_rect, back_buffer),
            ),
    {
        if dirty_rect.is_empty() {
            return None;
        }
        match minimized {
            Some(true) => {
                return None;
            },
            _ => {},
        }
        if !self.surfaces_alive || back_buffer >= BUFFER_COUNT {
            return None;
        }
        let mut steps: Vec<Step> = Vec::new();
        steps.push(Step::WaitFrameLatency { timeout_ms: FRAME_LATENCY_TIMEOUT_MS });
        steps.push(Step::FlushSurface { index: back_buffer });
        steps.push(
            Step::PresentRegion {
                sync_interval: self.sync_interval,
                flags: self.present_flags,
                dirty: dirty_rect.rect(),
            },
        );
        assert(steps@ =~= self.present_plan(dirty_rect, back_buffer));
        Some(Procedure::new(steps))
    }

    /// The state after a procedure that built the surfaces of the size that
    /// the state holds: after a failure there are no surfaces.
    pub open spec fn concluded(self, failed: bool) -> WinState {
        WinState { surfaces_alive: self.surfaces_alive && !failed, ..self }
    }

    /// Takes the end of a procedure into account that built the surfaces of
    /// the size that the state holds, at creation or by
    /// [`WinState::create_surfaces`]: after a failure there are no surfaces,
    /// so that the next resize builds them.
    pub fn conclude(&mut self, procedure: &Procedure)
        ensures
            *final(self) == old(self).concluded(procedure@.failed is Some),
    {
        if procedure.error().is_some() {
            self.surfaces_alive = false;
        }
    }
}

/// A stand-in for a swap chain that keeps count of what refers to its
/// buffers, and refuses to resize them while anything does.
#[derive(Clone, Copy, Debug, PartialEq, Eq, Structural)]
pub struct SimulatedSwapChain {
    /// The size of the buffers.
    pub width: u32,
    pub height: u32,
    /// The number of surfaces that wrap a buffer.
    pub surfaces: u32,
    /// Whether the drawing library holds resources that refer to the buffers.
    pub resources_held: bool,
    /// Whether the context of the drawing library refers to the buffers.
    pub context_dirty: bool,
    /// How many steps have released references, as far as 64 bits count.
    pub releases: u64,
}

/// The count of releases after one more.
pub open spec fn one_more(releases: u64) -> u64 {
    if releases == u64::MAX {
        releases
    } else {
        (releases + 1) as u64
    }
}

fn count_release(releases: u64) -> (r: u64)
    ensures
        r == one_more(releases),
{
    if releases == u64::MAX {
        releases
    } else {
        releases + 1
    }
}

impl SimulatedSwapChain {
    /// Whether anything refers to the buffers.
    pub open spec fn referenced(self) -> bool {
        self.surfaces > 0 || self.resources_held || self.context_dirty
    }

    /// Whether a surface of the given size fits on a buffer.
    pub open spec fn fits(self, width: u32, height: u32) -> bool {
        0 < width <= self.width && 0 < height <= self.height
    }

    /// The swap chain after a step, or none where the step is refused. A
    /// buffer is wrapped only if it exists and the surface fits on it, and
    /// the wrapping leaves references behind; each of the three releasing
    /// steps takes its kind of reference away and counts as a release; the
    /// buffers are resized only while nothing refers to them. Every other
    /// step leaves the swap chain as it is.
    pub open spec fn performed(self, step: Step) -> Option<SimulatedSwapChain> {
        match step {
            Step::WrapBackBuffer { index, width, height } => if index < BUFFER_COUNT && self.fits(
                width,
                height,
            ) && self.surfaces < u32::MAX {
                Some(
                    SimulatedSwapChain {
                        surfaces: (self.surfaces + 1) as u32,
                        resources_held: true,
                        context_dirty: true,
                        ..self
                    },
                )
            } else {
                None
            },
            Step::ReleaseResources => Some(
                SimulatedSwapChain {
                    resources_held: false,
                    releases: one_more(self.releases),
                    ..self
                },
            ),
            Step::ResetContext => Some(
                SimulatedSwapChain {
                    context_dirty: false,
                    releases: one_more(self.releases),
                    ..self
                },
            ),
            Step::DropSurfaces => Some(
                SimulatedSwapChain { surfaces: 0, releases: one_more(self.releases), ..self },
            ),
            Step::ResizeBuffers { count, width, height } => if count == BUFFER_COUNT
                && !self.referenced() {
                Some(SimulatedSwapChain { width, height, ..self })
            } else {
                None
            },
            _ => Some(self),
        }
    }

    /// The swap chain after all of the steps, in order, or none where one of
    /// them is refused.
    pub open spec fn rehearsed(self, steps: Seq<Step>) -> Option<SimulatedSwapChain>
        decreases steps.len(),
    {
        if steps.len() == 0 {
            Some(self)
        } else {
            match self.performed(steps[0]) {
                Some(next) => next.rehearsed(steps.drop_first()),
                None => None,
            }
        }
    }

    /// The swap chain after the steps that it accepts, in order, up to the
    /// first that it refuses.
    pub open spec fn progressed(self, steps: Seq<Step>) -> SimulatedSwapChain
        decreases steps.len(),
    {
        if steps.len() == 0 {
            self
        } else {
            match self.performed(steps[0]) {
                Some(next) => next.progressed(steps.drop_first()),
                None => self,
            }
        }
    }

    /// A swap chain with buffers of the given size that nothing refers to.
    pub fn new(width: u32, height: u32) -> (r: SimulatedSwapChain)
        ensures
            r == (SimulatedSwapChain {
                width,
                height,
                surfaces: 0,
                resources_held: false,
                context_dirty: false,
                releases: 0,
            }),
    {
        SimulatedSwapChain {
            width,
            height,
            surfaces: 0,
            resources_held: false,
            context_dirty: false,
            releases: 0,
        }
    }

    /// Performs one step on the swap chain and says whether it was accepted;
    /// a refused step changes nothing.
    pub fn perform(&mut self, step: Step) -> (accepted: bool)
        ensures
            accepted == old(self).performed(step) is Some,
            *final(self) == (match old(self).performed(step) {
                Some(next) => next,
                None => *old(self),
            }),
    {
        match step {
            Step::WrapBackBuffer { index, width, height } => {
                if index < BUFFER_COUNT && 0 < width && width <= self.width && 0 < height
                    && height <= self.height && self.surfaces < u32::MAX {
                    self.surfaces = self.surfaces + 1;
                    self.resources_held = true;
                    self.context_dirty = true;
                    true
                } else {
                    false
                }
            },
            Step::ReleaseResources => {
                self.resources_held = false;
                self.releases = count_release(self.releases);
                true
            },
            Step::ResetContext => {
                self.context_dirty = false;
                self.releases = count_release(self.releases);
                true
            },
            Step::DropSurfaces => {
                self.surfaces = 0;
                self.releases = count_release(self.releases);
                true
            },
            Step::ResizeBuffers { count, width, height } => {
                if count == BUFFER_COUNT && self.surfaces == 0 && !self.resources_held
                    && !self.context_dirty {
                    self.width = width;
                    self.height = height;
                    true
                } else {
                    false
                }
            },
            _ => true,
        }
    }

    /// Performs the steps in order until one is refused, and says whether
    /// all were accepted.
    pub fn rehearse(&mut self, steps: &Vec<Step>) -> (accepted: bool)
        ensures
            accepted == old(self).rehearsed(steps@) is Some,
            accepted ==> Some(*final(self)) == old(self).rehearsed(steps@),
            *final(self) == old(self).progressed(steps@),
    {
        let mut i: usize = 0;
        assert(steps@.skip(0) =~= steps@);
        while i < steps.len()
            invariant
                i <= steps.len(),
                old(self).rehearsed(steps@) == self.rehearsed(steps@.skip(i as int)),
                old(self).progressed(steps@) == self.progressed(steps@.skip(i as int)),
            decreases steps.len() - i,
        {
            assert(steps@.skip(i as int).drop_first() =~= steps@.skip(i + 1));
            if !self.perform(steps[i]) {
                return false;
            }
            i = i + 1;
        }
        true
    }
}

/// Whether a plan wraps the given buffer as a surface of the given size
/// somewhere after place `at`.
pub open spec fn wrapped_after(plan: Seq<Step>, at: int, buffer: u32, size: PhysicalSize) -> bool {
    exists|i: int|
        at < i < plan.len() && plan[i] == (Step::WrapBackBuffer {
            index: buffer,
            width: size.width,
            height: size.height,
        })
}

/// In the steps of a resize the buffers are resized only after the drawing
/// library freed its resources, its context was reset and the surfaces were
/// dropped, and before any buffer is wrapped again; after the buffers were
/// resized a surface is built on every one of them.
pub proof fn lemma_release_precedes_resize(
    state: WinState,
    size: PhysicalSize,
    monitor: Option<PhysicalSize>,
    at: int,
)
    requires
        !size.is_degenerate(),
        0 <= at < state.resize_plan(size, monitor).len(),
        state.resize_plan(size, monitor)[at] is ResizeBuffers,
    ensures
        exists|i: int| 0 <= i < at && state.resize_plan(size, monitor)[i] == Step::ReleaseResources,
        exists|i: int| 0 <= i < at && state.resize_plan(size, monitor)[i] == Step::ResetContext,
        exists|i: int| 0 <= i < at && state.resize_plan(size, monitor)[i] == Step::DropSurfaces,
        forall|i: int| 0 <= i < at ==> !(state.resize_plan(size, monitor)[i] is WrapBackBuffer),
        forall|buffer: u32|
            buffer < BUFFER_COUNT ==> #[trigger] wrapped_after(
                state.resize_plan(size, monitor),
                at,
                buffer,
                size,
            ),
{
    let plan = state.resize_plan(size, monitor);
    assert(plan[0] == Step::ReleaseResources);
    assert(plan[1] == Step::ResetContext);
    assert(plan[2] == Step::DropSurfaces);
    assert(plan[5] == (Step::WrapBackBuffer { index: 0, width: size.width, height: size.height }));
    assert(plan[6] == (Step::WrapBackBuffer { index: 1, width: size.width, height: size.height }));
}

/// A swap chain refuses to resize its buffers while anything refers to
/// them: a plan that resizes before it releases is found out.
pub proof fn lemma_resize_refused_while_referenced(
    chain: SimulatedSwapChain,
    count: u32,
    width: u32,
    height: u32,
)
    requires
        chain.referenced(),
    ensures
        chain.performed(Step::ResizeBuffers { count, width, height }) is None,
{
}

/// Whether buffers of the given size hold a surface of `size`.
pub open spec fn covers(buffers: PhysicalSize, size: PhysicalSize) -> bool {
    size.width <= buffers.width && size.height <= buffers.height
}

/// A swap chain in any state, whatever refers to its buffers, accepts the
/// steps of a resize up to and with the resize of the buffers: the three
/// releasing steps leave nothing that refers to the buffers, the count of
/// releases has advanced by then, and the buffers get the new size.
pub proof fn lemma_buffers_are_resized(
    chain: SimulatedSwapChain,
    state: WinState,
    size: PhysicalSize,
    monitor: Option<PhysicalSize>,
)
    requires
        state.outgrows(size),
    ensures
        chain.rehearsed(state.resize_plan(size, monitor).take(3)) matches Some(released)
            && !released.referenced() && (chain.releases < u64::MAX ==> released.releases
            > chain.releases),
        chain.rehearsed(state.resize_plan(size, monitor).take(4)) matches Some(regrown)
            && !regrown.referenced() && regrown.width == buffer_size_for(size, monitor).width
            && regrown.height == buffer_size_for(size, monitor).height,
{
    let plan = state.resize_plan(size, monitor);
    let buffers = buffer_size_for(size, monitor);
    let release = regrow_plan(buffers).take(3);
    let resize = seq![
        Step::ResizeBuffers { count: BUFFER_COUNT, width: buffers.width, height: buffers.height },
    ];
    assert(plan.take(3) =~= release);
    assert(plan.take(4) =~= release + resize);
    lemma_release_clears(chain, buffers);
    let released = chain.rehearsed(release)->0;
    lemma_rehearsed_one(released, resize[0]);
    lemma_rehearsed_in_parts(chain, release, resize);
}

/// A swap chain accepts all the steps of a resize, whatever refers to its
/// buffers, provided its buffers are at least as large as the state holds
/// them to be and, where they are resized, the new buffers hold the new
/// size; a monitor that is narrower or lower than the window gives buffers
/// that do not. At the end there is one surface on each buffer.
pub proof fn lemma_resize_is_accepted(
    chain: SimulatedSwapChain,
    state: WinState,
    size: PhysicalSize,
    monitor: Option<PhysicalSize>,
)
    requires
        !size.is_degenerate(),
        chain.width >= state.buffer_size.width,
        chain.height >= state.buffer_size.height,
        state.outgrows(size) ==> covers(buffer_size_for(size, monitor), size),
    ensures
        chain.rehearsed(state.resize_plan(size, monitor)) matches Some(after) && after.surfaces
            == BUFFER_COUNT && after.fits(size.width, size.height) && (state.outgrows(size)
            ==> after.width == state.resized(size, monitor).buffer_size.width && after.height
            == state.resized(size, monitor).buffer_size.height),
{
    let plan = state.resize_plan(size, monitor);
    if state.outgrows(size) {
        let buffers = buffer_size_for(size, monitor);
        let release = regrow_plan(buffers).take(3);
        let resize = seq![
            Step::ResizeBuffers { count: BUFFER_COUNT, width: buffers.width, height: buffers.height },
        ];
        assert(plan =~= release + (resize + surfaces_plan(size)));
        lemma_release_clears(chain, buffers);
        let released = chain.rehearsed(release)->0;
        lemma_rehearsed_one(released, resize[0]);
        let regrown = released.performed(resize[0])->0;
        lemma_surfaces_are_built(regrown, size);
        lemma_rehearsed_in_parts(released, resize, surfaces_plan(size));
        lemma_rehearsed_in_parts(chain, release, resize + surfaces_plan(size));
    } else {
        lemma_surfaces_are_built(chain, size);
    }
}

/// Where the new buffers do not hold the new size, the swap chain refuses
/// the first surface that is to be wrapped on them: the resize fails, and by
/// [`WinState::conclude_resize`] the state stays as it was.
pub proof fn lemma_resize_is_refused_on_small_buffers(
    chain: SimulatedSwapChain,
    state: WinState,
    size: PhysicalSize,
    monitor: Option<PhysicalSize>,
)
    requires
        !size.is_degenerate(),
        state.outgrows(size),
        !covers(buffer_size_for(size, monitor), size),
    ensures
        chain.rehearsed(state.resize_plan(size, monitor)) is None,
{
    let plan = state.resize_plan(size, monitor);
    let buffers = buffer_size_for(size, monitor);
    let release = regrow_plan(buffers).take(3);
    let resize = seq![
        Step::ResizeBuffers { count: BUFFER_COUNT, width: buffers.width, height: buffers.height },
    ];
    let first = Step::WrapBackBuffer { index: 0, width: size.width, height: size.height };
    let second = Step::WrapBackBuffer { index: 1, width: size.width, height: size.height };
    assert(plan =~= release + (resize + (seq![Step::DropSurfaces] + (seq![first] + seq![second]))));
    lemma_release_clears(chain, buffers);
    let released = chain.rehearsed(release)->0;
    lemma_rehearsed_one(released, resize[0]);
    let regrown = released.performed(resize[0])->0;
    lemma_rehearsed_one(regrown, Step::DropSurfaces);
    let dropped = regrown.performed(Step::DropSurfaces)->0;
    lemma_rehearsed_one(dropped, first);
    lemma_rehearsed_in_parts(dropped, seq![first], seq![second]);
    lemma_rehearsed_in_parts(regrown, seq![Step::DropSurfaces], seq![first] + seq![second]);
    lemma_rehearsed_in_parts(
        released,
        resize,
        seq![Step::DropSurfaces] + (seq![first] + seq![second]),
    );
    lemma_rehearsed_in_parts(
        chain,
        release,
        resize + (seq![Step::DropSurfaces] + (seq![first] + seq![second])),
    );
}

/// Rehearsing two plans one after the other is rehearsing the one, and on
/// what comes of it the other.
pub proof fn lemma_rehearsed_in_parts(chain: SimulatedSwapChain, first: Seq<Step>, second: Seq<Step>)
    ensures
        chain.rehearsed(first + second) == match chain.rehearsed(first) {
            Some(between) => between.rehearsed(second),
            None => None,
        },
    decreases first.len(),
{
    if first.len() == 0 {
        assert(first + second =~= second);
    } else {
        assert((first + second).drop_first() =~= first.drop_first() + second);
        match chain.performed(first[0]) {
            Some(next) => {
                lemma_rehearsed_in_parts(next, first.drop_first(), second);
            },
            None => {},
        }
    }
}

/// Rehearsing a single step is performing it.
pub proof fn lemma_rehearsed_one(chain: SimulatedSwapChain, step: Step)
    ensures
        chain.rehearsed(seq![step]) == chain.performed(step),
{
    let plan = seq![step];
    match chain.performed(step) {
        Some(next) => {
            assert(next.rehearsed(plan.drop_first()) == Some(next));
        },
        None => {},
    }
}

/// The three releasing steps are accepted by a swap chain in any state;
/// after them nothing refers to the buffers, and each has counted.
proof fn lemma_release_clears(chain: SimulatedSwapChain, buffers: PhysicalSize)
    ensures
        chain.rehearsed(regrow_plan(buffers).take(3)) == Some(
            SimulatedSwapChain {
                surfaces: 0,
                resources_held: false,
                context_dirty: false,
                releases: one_more(one_more(one_more(chain.releases))),
                ..chain
            },
        ),
{
    let release = regrow_plan(buffers).take(3);
    assert(release =~= seq![Step::ReleaseResources] + (seq![Step::ResetContext] + seq![
        Step::DropSurfaces,
    ]));
    lemma_rehearsed_one(chain, Step::ReleaseResources);
    let c1 = chain.performed(Step::ReleaseResources)->0;
    lemma_rehearsed_one(c1, Step::ResetContext);
    let c2 = c1.performed(Step::ResetContext)->0;
    lemma_rehearsed_one(c2, Step::DropSurfaces);
    lemma_rehearsed_in_parts(c1, seq![Step::ResetContext], seq![Step::DropSurfaces]);
    lemma_rehearsed_in_parts(
        chain,
        seq![Step::ReleaseResources],
        seq![Step::ResetContext] + seq![Step::DropSurfaces],
    );
}

/// A swap chain whose buffers cover a size accepts the steps that build the
/// surfaces for it; after them there is one surface on each buffer.
proof fn lemma_surfaces_are_built(chain: SimulatedSwapChain, size: PhysicalSize)
    requires
        chain.fits(size.width, size.height),
    ensures
        chain.rehearsed(surfaces_plan(size)) == Some(
            SimulatedSwapChain {
                surfaces: BUFFER_COUNT,
                resources_held: true,
                context_dirty: true,
                releases: one_more(chain.releases),
                ..chain
            },
        ),
{
    let first = Step::WrapBackBuffer { index: 0, width: size.width, height: size.height };
    let second = Step::WrapBackBuffer { index: 1, width: size.width, height: size.height };
    assert(surfaces_plan(size) =~= seq![Step::DropSurfaces] + (seq![first] + seq![second]));
    lemma_rehearsed_one(chain, Step::DropSurfaces);
    let c1 = chain.performed(Step::DropSurfaces)->0;
    lemma_rehearsed_one(c1, first);
    let c2 = c1.performed(first)->0;
    lemma_rehearsed_one(c2, second);
    lemma_rehearsed_in_parts(c1, seq![first], seq![second]);
    lemma_rehearsed_in_parts(chain, seq![Step::DropSurfaces], seq![first] + seq![second]);
}

} // verus!
