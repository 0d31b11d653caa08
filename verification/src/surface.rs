//! What all graphics backends share: the steps that a backend is asked to
//! perform on the GPU, and the procedure that hands them out one by one and
//! releases the GPU context on every way out.

use crate::application::ApplicationError;
use crate::units::{clamp, Fixed};
use vstd::prelude::*;

verus! {

/// A rectangle in whole physical pixels.
#[derive(Clone, Copy, Debug, PartialEq, Eq, Structural)]
pub struct Rect {
    pub left: i32,
    pub top: i32,
    pub right: i32,
    pub bottom: i32,
}

/// A region of a surface: its origin and its extent.
#[derive(Clone, Copy, Debug, PartialEq, Eq, Structural)]
pub struct BoundingBox {
    pub x: Fixed,
    pub y: Fixed,
    pub w: Fixed,
    pub h: Fixed,
}

/// A coordinate in whole pixels: nothing below zero, the fraction dropped,
/// nothing above what 32 bits hold.
pub open spec fn pixel_edge(raw: int) -> i32 {
    if raw <= 0 {
        0i32
    } else {
        clamp(raw / 1_000_000, 0, i32::MAX as int) as i32
    }
}

fn edge(position: Fixed) -> (r: i32)
    ensures
        r == pixel_edge(position.raw as int),
{
    if position.raw <= 0 {
        0
    } else {
        let whole: i64 = position.raw / 1_000_000;
        if whole > i32::MAX as i64 {
            i32::MAX
        } else {
            whole as i32
        }
    }
}

impl BoundingBox {
    /// A region that covers nothing: its width or its height is not positive.
    pub open spec fn is_degenerate(self) -> bool {
        self.w.raw <= 0 || self.h.raw <= 0
    }

    /// Whether the region covers nothing.
    pub fn is_empty(&self) -> (r: bool)
        ensures
            r == self.is_degenerate(),
    {
        self.w.raw <= 0 || self.h.raw <= 0
    }

    /// The region in whole pixels, each edge by [`pixel_edge`]; the right and
    /// bottom edges are the origin plus the extent.
    pub open spec fn spec_rect(self) -> Rect {
        Rect {
            left: pixel_edge(self.x.raw as int),
            top: pixel_edge(self.y.raw as int),
            right: pixel_edge(self.x.raw + self.w.raw),
            bottom: pixel_edge(self.y.raw + self.h.raw),
        }
    }

    /// The region in whole pixels.
    pub fn rect(&self) -> (r: Rect)
        ensures
            r == self.spec_rect(),
    {
        let right = self.x.saturating_add(self.w);
        let bottom = self.y.saturating_add(self.h);
        assert(pixel_edge(right.raw as int) == pixel_edge(self.x.raw + self.w.raw)) by {
            lemma_edge_saturates(self.x.raw + self.w.raw);
        }
        assert(pixel_edge(bottom.raw as int) == pixel_edge(self.y.raw + self.h.raw)) by {
            lemma_edge_saturates(self.y.raw + self.h.raw);
        }
        Rect { left: edge(self.x), top: edge(self.y), right: edge(right), bottom: edge(bottom) }
    }
}

/// A sum that was limited to 64 bits gives the same pixel edge as the sum
/// itself.
proof fn lemma_edge_saturates(sum: int)
    ensures
        pixel_edge(clamp(sum, i64::MIN as int, i64::MAX as int)) == pixel_edge(sum),
{
    if sum > i64::MAX {
        assert(i64::MAX as int / 1_000_000 > i32::MAX) by (nonlinear_arith);
        assert(sum / 1_000_000 >= i64::MAX as int / 1_000_000) by (nonlinear_arith)
            requires
                sum > i64::MAX,
        ;
    }
}

/// One operation on the GPU or on the objects of a graphics backend.
#[derive(Clone, Copy, Debug, PartialEq, Eq, Structural)]
pub enum Step {
    /// Create the rendering context.
    CreateContext,
    /// Create the surface of the window that the context renders to.
    CreateWindowSurface { width: u32, height: u32 },
    /// Make the context current to this thread.
    MakeCurrent,
    /// Release the context from this thread.
    MakeNotCurrent,
    /// Load the entry points of the driver.
    LoadFunctions,
    /// Create the context of the drawing library on the device.
    CreateDirectContext,
    /// Read which framebuffer is bound.
    QueryFramebuffer,
    /// Wrap the framebuffer of the window as the primary surface.
    WrapFramebuffer { width: u32, height: u32 },
    /// Create the offscreen surface that collects what changed.
    CreateOffscreen { width: u32, height: u32 },
    /// Resize the surface of the window.
    ResizeWindowSurface { width: u32, height: u32 },
    /// Submit all pending draw commands.
    Flush,
    /// Show what was drawn.
    SwapBuffers,
    /// Create the queue that takes the commands of the device.
    CreateCommandQueue,
    /// Create the swap chain with buffers of the given size.
    CreateSwapChain { count: u32, width: u32, height: u32, flags: u32 },
    /// Free every resource that the drawing library holds on the GPU.
    ReleaseResources,
    /// Reset the context of the drawing library.
    ResetContext,
    /// Drop the surfaces, and with them their references into the buffers.
    DropSurfaces,
    /// Resize the buffers of the swap chain.
    ResizeBuffers { count: u32, width: u32, height: u32 },
    /// Wrap one buffer of the swap chain as a surface.
    WrapBackBuffer { index: u32, width: u32, height: u32 },
    /// Wait until the swap chain can take the next frame, for a bounded time.
    WaitFrameLatency { timeout_ms: u32 },
    /// Submit the pending draw commands of one surface.
    FlushSurface { index: u32 },
    /// Show the whole frame.
    PresentFrame { sync_interval: u32, flags: u32 },
    /// Show the part of the frame that changed.
    PresentRegion { sync_interval: u32, flags: u32, dirty: Rect },
}

impl Step {
    /// Whether the step touches state of the GPU that belongs to the
    /// context, so that the context must be current when it is performed.
    pub open spec fn needs_context(self) -> bool {
        match self {
            Step::LoadFunctions
            | Step::CreateDirectContext
            | Step::QueryFramebuffer
            | Step::WrapFramebuffer { .. }
            | Step::CreateOffscreen { .. }
            | Step::ResizeWindowSurface { .. }
            | Step::Flush
            | Step::SwapBuffers => true,
            _ => false,
        }
    }

    /// What the failure of a step means: a failure to get a device for the
    /// steps that create the context, the queue and the drawing library's
    /// context; a failure to present for the steps that show a frame; a
    /// failure to create a surface for all others.
    pub open spec fn spec_failure(self) -> ApplicationError {
        match self {
            Step::CreateContext
            | Step::LoadFunctions
            | Step::CreateDirectContext
            | Step::CreateCommandQueue => ApplicationError::DeviceAcquisition,
            Step::Flush
            | Step::SwapBuffers
            | Step::WaitFrameLatency { .. }
            | Step::FlushSurface { .. }
            | Step::PresentFrame { .. }
            | Step::PresentRegion { .. } => ApplicationError::Present,
            _ => ApplicationError::SurfaceCreation,
        }
    }

    /// What the failure of this step means.
    pub fn failure(self) -> (r: ApplicationError)
        ensures
            r == self.spec_failure(),
    {
        match self {
            Step::CreateContext
            | Step::LoadFunctions
            | Step::CreateDirectContext
            | Step::CreateCommandQueue => ApplicationError::DeviceAcquisition,
            Step::Flush
            | Step::SwapBuffers
            | Step::WaitFrameLatency { .. }
            | Step::FlushSurface { .. }
            | Step::PresentFrame { .. }
            | Step::PresentRegion { .. } => ApplicationError::Present,
            _ => ApplicationError::SurfaceCreation,
        }
    }
}

/// Whether the context is current just before step `i` of a plan, all steps
/// before it having succeeded: the last of them that made the context current
/// or released it made it current.
pub open spec fn current_before(steps: Seq<Step>, i: int) -> bool
    decreases i,
{
    if i <= 0 || i > steps.len() {
        false
    } else if steps[i - 1] == Step::MakeCurrent {
        true
    } else if steps[i - 1] == Step::MakeNotCurrent {
        false
    } else {
        current_before(steps, i - 1)
    }
}

/// A plan in which every step that needs the context comes while the context
/// is current.
pub open spec fn scoped(steps: Seq<Step>) -> bool {
    forall|i: int|
        0 <= i < steps.len() && (#[trigger] steps[i]).needs_context() ==> current_before(steps, i)
}

/// How far a procedure has come.
#[derive(Clone, Copy, Debug, PartialEq, Eq, Structural)]
pub enum Stage {
    /// Steps of the plan are being handed out.
    Running,
    /// The plan is over and the release of the context was handed out.
    Releasing,
    /// Nothing is left to do.
    Done,
}

/// A procedure as a plain value.
pub struct ProcedureState {
    /// The steps that were planned.
    pub steps: Seq<Step>,
    /// How many of them were handed out.
    pub issued: nat,
    /// Whether the procedure made the context current and has not released
    /// it since.
    pub bound: bool,
    /// The step that failed, if one did.
    pub failed: Option<Step>,
    pub stage: Stage,
}

impl ProcedureState {
    /// A procedure before its first step.
    pub open spec fn fresh(steps: Seq<Step>) -> ProcedureState {
        ProcedureState { steps, issued: 0, bound: false, failed: None, stage: Stage::Running }
    }

    /// Whether the procedure has come to its end with every step handed out
    /// and none failed.
    pub open spec fn succeeded(self) -> bool {
        self.stage == Stage::Done && self.failed is None && self.issued == self.steps.len()
    }

    /// What holds of every procedure: no more steps were handed out than
    /// were planned; a procedure that is done holds no context; while it
    /// runs nothing has failed, and it holds the context exactly if the steps
    /// before the last one made it current.
    pub open spec fn wf(self) -> bool {
        &&& self.issued <= self.steps.len()
        &&& self.stage != Stage::Running ==> !self.bound
        &&& self.stage == Stage::Running ==> self.failed is None
        &&& self.stage == Stage::Running ==> self.bound == current_before(
            self.steps,
            self.issued - 1,
        )
    }

    /// The procedure once the outcome of the step handed out last is taken
    /// into account: a failure is recorded; a context made current is held,
    /// a context released is held no more.
    pub open spec fn noted(self, succeeded: bool) -> ProcedureState {
        if self.stage != Stage::Running || self.issued == 0 {
            self
        } else {
            let last = self.steps[self.issued - 1];
            if !succeeded {
                ProcedureState { failed: Some(last), ..self }
            } else if last == Step::MakeCurrent {
                ProcedureState { bound: true, ..self }
            } else if last == Step::MakeNotCurrent {
                ProcedureState { bound: false, ..self }
            } else {
                self
            }
        }
    }

    /// The step that is handed out next, the outcome of the last one given:
    /// the next step of the plan while nothing has failed; at the end of the
    /// plan or after a failure the release of the context, if it is held;
    /// nothing after that.
    pub open spec fn next_step(self, succeeded: bool) -> Option<Step> {
        let noted = self.noted(succeeded);
        if self.stage != Stage::Running {
            None
        } else if noted.failed is None && noted.issued < noted.steps.len() {
            Some(noted.steps[noted.issued as int])
        } else if noted.bound {
            Some(Step::MakeNotCurrent)
        } else {
            None
        }
    }

    /// The procedure after it handed out its next step.
    pub open spec fn advanced(self, succeeded: bool) -> ProcedureState {
        let noted = self.noted(succeeded);
        match self.stage {
            Stage::Done => self,
            Stage::Releasing => ProcedureState { stage: Stage::Done, ..self },
            Stage::Running => if noted.failed is None && noted.issued < noted.steps.len() {
                ProcedureState { issued: noted.issued + 1, ..noted }
            } else if noted.bound {
                ProcedureState { bound: false, stage: Stage::Releasing, ..noted }
            } else {
                ProcedureState { stage: Stage::Done, ..noted }
            },
        }
    }
}

/// A plan of steps that is handed out one step at a time. Each step is
/// handed out only when the one before it succeeded. When the plan ends or a
/// step fails, the context is released if the procedure holds it: no way out
/// of a procedure leaves the context current.
#[derive(Debug)]
pub struct Procedure {
    steps: Vec<Step>,
    progress: Progress,
}

/// How far a procedure has come through its steps.
#[derive(Clone, Copy, Debug)]
struct Progress {
    issued: usize,
    bound: bool,
    failed: Option<Step>,
    stage: Stage,
}

impl View for Procedure {
    type V = ProcedureState;

    closed spec fn view(&self) -> ProcedureState {
        ProcedureState {
            steps: self.steps@,
            issued: self.progress.issued as nat,
            bound: self.progress.bound,
            failed: self.progress.failed,
            stage: self.progress.stage,
        }
    }
}

impl Procedure {
    #[verifier::type_invariant]
    spec fn well_formed(self) -> bool {
        self@.wf()
    }

    /// A procedure that will hand out the given steps.
    pub fn new(steps: Vec<Step>) -> (r: Procedure)
        ensures
            r@ == ProcedureState::fresh(steps@),
            r@.wf(),
    {
        Procedure {
            steps,
            progress: Progress { issued: 0, bound: false, failed: None, stage: Stage::Running },
        }
    }

    /// Hands out the next step. `succeeded` says whether the step handed out
    /// by the call before this one succeeded; the first call ignores it.
    pub fn advance(&mut self, succeeded: bool) -> (step: Option<Step>)
        ensures
            step == old(self)@.next_step(succeeded),
            final(self)@ == old(self)@.advanced(succeeded),
            final(self)@.wf(),
            step is None ==> final(self)@.stage == Stage::Done && !final(self)@.bound,
    {
        proof {
            use_type_invariant(&*self);
        }
        let was = self.progress;
        match was.stage {
            Stage::Done => None,
            Stage::Releasing => {
                self.progress = Progress { stage: Stage::Done, ..was };
                None
            },
            Stage::Running => {
                let mut bound = was.bound;
                let mut failed = was.failed;
                if was.issued > 0 {
                    let last = self.steps[was.issued - 1];
                    if !succeeded {
                        failed = Some(last);
                    } else if last == Step::MakeCurrent {
                        bound = true;
                    } else if last == Step::MakeNotCurrent {
                        bound = false;
                    }
                }
                if failed.is_none() && was.issued < self.steps.len() {
                    let step = self.steps[was.issued];
                    self.progress = Progress {
                        issued: was.issued + 1,
                        bound,
                        failed,
                        stage: Stage::Running,
                    };
                    Some(step)
                } else if bound {
                    self.progress = Progress {
                        issued: was.issued,
                        bound: false,
                        failed,
                        stage: Stage::Releasing,
                    };
                    Some(Step::MakeNotCurrent)
                } else {
                    self.progress = Progress {
                        issued: was.issued,
                        bound,
                        failed,
                        stage: Stage::Done,
                    };
                    None
                }
            },
        }
    }

    /// Whether nothing is left to do.
    pub fn is_done(&self) -> (r: bool)
        ensures
            r == (self@.stage == Stage::Done),
    {
        self.progress.stage == Stage::Done
    }

    /// Whether the procedure has come to its end with every step handed out
    /// and none failed.
    pub fn succeeded(&self) -> (r: bool)
        ensures
            r == self@.succeeded(),
    {
        self.progress.stage == Stage::Done && self.progress.failed.is_none()
            && self.progress.issued == self.steps.len()
    }

    /// Whether the steps that were planned are exactly those of `plan`.
    pub fn follows(&self, plan: &Vec<Step>) -> (r: bool)
        ensures
            r == (self@.steps == plan@),
    {
        if self.steps.len() != plan.len() {
            return false;
        }
        let mut i: usize = 0;
        while i < plan.len()
            invariant
                i <= plan.len(),
                self.steps@.len() == plan@.len(),
                forall|k: int| 0 <= k < i ==> self.steps@[k] == plan@[k],
            decreases plan.len() - i,
        {
            if self.steps[i] != plan[i] {
                return false;
            }
            i = i + 1;
        }
        assert(self.steps@ =~= plan@);
        true
    }

    /// What went wrong, if a step failed.
    pub fn error(&self) -> (r: Option<ApplicationError>)
        ensures
            r == match self@.failed {
                Some(step) => Some(step.spec_failure()),
                None => None,
            },
    {
        match self.progress.failed {
            Some(step) => Some(step.failure()),
            None => None,
        }
    }

    /// The steps that were planned.
    pub fn steps(&self) -> (r: &Vec<Step>)
        ensures
            r@ == self@.steps,
    {
        &self.steps
    }
}

/// A procedure before its first step is well formed.
pub proof fn lemma_fresh_is_well_formed(steps: Seq<Step>)
    ensures
        ProcedureState::fresh(steps).wf(),
{
}

/// Whatever the outcomes, a procedure stays well formed, and once it hands
/// out nothing it is done and holds no context.
pub proof fn lemma_released_on_every_way_out(s: ProcedureState, succeeded: bool)
    requires
        s.wf(),
    ensures
        s.advanced(succeeded).wf(),
        s.next_step(succeeded) is None ==> s.advanced(succeeded).stage == Stage::Done
            && !s.advanced(succeeded).bound,
        s.advanced(succeeded).stage == Stage::Done ==> !s.advanced(succeeded).bound,
{
}

/// The steps of a plan are handed out in their order, each only after the
/// one before it succeeded; the only other step ever handed out is the
/// release of a context that the procedure holds.
pub proof fn lemma_steps_in_order(s: ProcedureState, succeeded: bool)
    requires
        s.wf(),
    ensures
        match s.next_step(succeeded) {
            Some(step) => {
                ||| (step == s.steps[s.issued as int] && s.issued < s.steps.len()
                    && s.advanced(succeeded).issued == s.issued + 1 && (s.issued > 0
                    ==> succeeded))
                ||| (step == Step::MakeNotCurrent && s.noted(succeeded).bound && s.advanced(
                    succeeded,
                ).stage == Stage::Releasing)
            },
            None => true,
        },
{
}

/// In a scoped plan, a step that needs the context is handed out only while
/// the procedure holds the context.
pub proof fn lemma_context_held(s: ProcedureState, succeeded: bool)
    requires
        s.wf(),
        scoped(s.steps),
        s.next_step(succeeded) matches Some(step) && step.needs_context(),
    ensures
        s.noted(succeeded).bound,
{
    assert(current_before(s.steps, s.issued as int));
}

} // verus!
