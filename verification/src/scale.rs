//! Scale reconciliation: the one place where a logical window size, the
//! scale factor of the operating system and the user's own scale factor are
//! combined into a physical size, and where it is decided whether the window
//! has to be resized.

use crate::units::{clamp, div_round, lemma_div_round_bounds, Fixed, ScaleFactor};
use vstd::prelude::*;

verus! {

/// A window size in logical (density-independent) pixels.
#[derive(Clone, Copy, Debug, PartialEq, Eq, Structural)]
pub struct WindowSize {
    pub width: u32,
    pub height: u32,
}

/// A size in physical pixels.
#[derive(Clone, Copy, Debug, PartialEq, Eq, Structural)]
pub struct PhysicalSize {
    pub width: u32,
    pub height: u32,
}

impl PhysicalSize {
    /// A size without area: nothing can be rendered into it.
    pub open spec fn is_degenerate(self) -> bool {
        self.width == 0 || self.height == 0
    }

    /// Whether the size has no area.
    pub fn is_empty(&self) -> (r: bool)
        ensures
            r == self.is_degenerate(),
    {
        self.width == 0 || self.height == 0
    }
}

/// The number of raw units in one whole, squared: the divisor of a product of
/// two scale factors.
pub const UNITS_SQUARED: u64 = 1_000_000_000_000;

/// `logical × os × user`, rounded to the nearest pixel.
pub open spec fn physical_extent(logical: u32, os: ScaleFactor, user: ScaleFactor) -> int {
    div_round(logical * os.raw() * user.raw(), UNITS_SQUARED as int)
}

/// The physical extent as far as 32 bits hold it.
pub open spec fn applied_extent(logical: u32, os: ScaleFactor, user: ScaleFactor) -> u32 {
    clamp(physical_extent(logical, os, user), 0, u32::MAX as int) as u32
}

/// The number of physical pixels that `logical` logical pixels cover under
/// the two scale factors.
pub fn scale_extent(logical: u32, os: ScaleFactor, user: ScaleFactor) -> (r: u32)
    ensures
        r == applied_extent(logical, os, user),
        physical_extent(logical, os, user) >= 0,
        physical_extent(logical, os, user) <= u32::MAX ==> r == physical_extent(logical, os, user),
        logical == 0 ==> r == 0,
{
    let l: u128 = logical as u128;
    let a: u128 = os.get() as u128;
    let b: u128 = user.get() as u128;
    assert(l * a <= 0xffff_ffff * 0xffff_ffff) by (nonlinear_arith)
        requires
            l <= 0xffff_ffff,
            a <= 0xffff_ffff,
    ;
    let la: u128 = l * a;
    assert(la * b <= 0xffff_ffff * 0xffff_ffff * 0xffff_ffff) by (nonlinear_arith)
        requires
            la <= 0xffff_ffff * 0xffff_ffff,
            b <= 0xffff_ffff,
    ;
    let product: u128 = la * b;
    assert(product == logical * os.raw() * user.raw()) by (nonlinear_arith)
        requires
            product == la * b,
            la == l * a,
            l == logical,
            a == os.raw(),
            b == user.raw(),
    ;
    assert(logical == 0 ==> product == 0) by (nonlinear_arith)
        requires
            product == la * b,
            la == l * a,
            l == logical,
    ;
    proof {
        lemma_div_round_bounds(product as int, UNITS_SQUARED as int);
    }
    let q: u128 = (2 * product + UNITS_SQUARED as u128) / (2 * (UNITS_SQUARED as u128));
    if q > u32::MAX as u128 {
        u32::MAX
    } else {
        q as u32
    }
}

/// `native / user`, rounded to the nearest logical pixel and limited to what
/// 32 bits hold: the logical extent of a window whose native extent includes
/// the user's scale factor.
pub open spec fn logical_extent(native: Fixed, user: ScaleFactor) -> u32 {
    clamp(div_round(native.raw as int, user.raw()), 0, u32::MAX as int) as u32
}

/// The logical extent that a native extent stands for once the user's scale
/// factor is taken out of it.
pub fn unscale_extent(native: Fixed, user: ScaleFactor) -> (r: u32)
    ensures
        r == logical_extent(native, user),
{
    let d: u128 = user.get() as u128;
    if native.raw <= 0 {
        proof {
            if native.raw < 0 {
                lemma_div_round_bounds(-(native.raw as int), user.raw());
            } else {
                lemma_div_round_bounds(0, user.raw());
            }
        }
        0
    } else {
        let n: u128 = native.raw as u128;
        proof {
            lemma_div_round_bounds(n as int, d as int);
        }
        let q: u128 = (2 * n + d) / (2 * d);
        if q > u32::MAX as u128 {
            u32::MAX
        } else {
            q as u32
        }
    }
}

/// `logical × user` in millionths of a pixel, limited to the representable
/// range: the extent to ask of a native window that counts the user's scale
/// factor as part of its logical size.
pub open spec fn native_extent(logical: u32, user: ScaleFactor) -> Fixed {
    Fixed { raw: clamp(logical * user.raw(), 0, i64::MAX as int) as i64 }
}

/// The extent to ask of the native window for `logical` logical pixels.
pub fn requested_extent(logical: u32, user: ScaleFactor) -> (r: Fixed)
    ensures
        r == native_extent(logical, user),
{
    let l: u128 = logical as u128;
    let f: u128 = user.get() as u128;
    assert(l * f <= 0xffff_ffff * 0xffff_ffff) by (nonlinear_arith)
        requires
            l <= 0xffff_ffff,
            f <= 0xffff_ffff,
    ;
    let product: u128 = l * f;
    if product > i64::MAX as u128 {
        Fixed { raw: i64::MAX }
    } else {
        Fixed { raw: product as i64 }
    }
}

/// What the window's size currently is, in both kinds of pixel, and the two
/// factors that relate them.
#[derive(Clone, Copy, Debug, PartialEq, Eq, Structural)]
pub struct ScaleState {
    pub os_scale_factor: ScaleFactor,
    pub user_scale_factor: ScaleFactor,
    pub logical_size: WindowSize,
    pub physical_size: PhysicalSize,
}

impl ScaleState {
    /// The physical size is the scaled logical size.
    pub open spec fn consistent(self) -> bool {
        &&& self.physical_size.width == applied_extent(
            self.logical_size.width,
            self.os_scale_factor,
            self.user_scale_factor,
        )
        &&& self.physical_size.height == applied_extent(
            self.logical_size.height,
            self.os_scale_factor,
            self.user_scale_factor,
        )
    }

    /// The state that the three inputs determine.
    pub open spec fn of(logical_size: WindowSize, os: ScaleFactor, user: ScaleFactor) -> ScaleState {
        ScaleState {
            os_scale_factor: os,
            user_scale_factor: user,
            logical_size,
            physical_size: PhysicalSize {
                width: applied_extent(logical_size.width, os, user),
                height: applied_extent(logical_size.height, os, user),
            },
        }
    }

    /// Computes the state that the three inputs determine.
    pub fn compute(logical_size: WindowSize, os: ScaleFactor, user: ScaleFactor) -> (r: ScaleState)
        ensures
            r == ScaleState::of(logical_size, os, user),
            r.consistent(),
    {
        ScaleState {
            os_scale_factor: os,
            user_scale_factor: user,
            logical_size,
            physical_size: PhysicalSize {
                width: scale_extent(logical_size.width, os, user),
                height: scale_extent(logical_size.height, os, user),
            },
        }
    }
}

/// Holds the scale state that was last applied and decides, for each new set
/// of inputs, whether the window has to be resized.
#[derive(Clone, Copy, Debug)]
pub struct ScaleCoordinator {
    applied: ScaleState,
}

impl ScaleCoordinator {
    #[verifier::type_invariant]
    spec fn applied_is_consistent(self) -> bool {
        self.applied.consistent()
    }

    /// The state that was last applied.
    pub closed spec fn state(self) -> ScaleState {
        self.applied
    }

    /// Whether a resize is needed for the given inputs: the logical size or
    /// the user's factor differs from what was last applied.
    pub open spec fn resize_needed(self, logical_size: WindowSize, user: ScaleFactor) -> bool {
        logical_size != self.state().logical_size || user != self.state().user_scale_factor
    }

    /// A coordinator whose applied state is the one that the inputs determine.
    pub fn new(logical_size: WindowSize, os: ScaleFactor, user: ScaleFactor) -> (r: ScaleCoordinator)
        ensures
            r.state() == ScaleState::of(logical_size, os, user),
    {
        ScaleCoordinator { applied: ScaleState::compute(logical_size, os, user) }
    }

    /// Takes the current inputs, recomputes the state from them and says
    /// whether the window has to be resized.
    pub fn reconcile(&mut self, logical_size: WindowSize, os: ScaleFactor, user: ScaleFactor) -> (needs_resize: bool)
        ensures
            needs_resize == old(self).resize_needed(logical_size, user),
            final(self).state() == ScaleState::of(logical_size, os, user),
            final(self).state().consistent(),
    {
        let needs_resize = logical_size != self.applied.logical_size
            || user != self.applied.user_scale_factor;
        *self = ScaleCoordinator { applied: ScaleState::compute(logical_size, os, user) };
        needs_resize
    }

    /// The state that was last applied.
    pub fn current(&self) -> (r: ScaleState)
        ensures
            r == self.state(),
            r.consistent(),
    {
        proof {
            use_type_invariant(self);
        }
        self.applied
    }

    /// Whether surfaces may be created or recreated: the physical size has an
    /// area.
    pub fn permits_surfaces(&self) -> (r: bool)
        ensures
            r == !self.state().physical_size.is_degenerate(),
    {
        !self.applied.physical_size.is_empty()
    }
}

/// The physical extent is the rounded product whenever 32 bits hold it, the
/// largest 32-bit number otherwise, and zero for an empty logical extent.
pub proof fn lemma_physical_extent(logical: u32, os: ScaleFactor, user: ScaleFactor)
    requires
        os.wf(),
        user.wf(),
    ensures
        0 <= physical_extent(logical, os, user),
        physical_extent(logical, os, user) <= u32::MAX ==> applied_extent(logical, os, user)
            == physical_extent(logical, os, user),
        physical_extent(logical, os, user) > u32::MAX ==> applied_extent(logical, os, user)
            == u32::MAX,
        logical == 0 ==> applied_extent(logical, os, user) == 0,
{
    let product = logical * os.raw() * user.raw();
    assert(product >= 0) by (nonlinear_arith)
        requires
            product == logical * os.raw() * user.raw(),
            logical >= 0,
            os.raw() > 0,
            user.raw() > 0,
    ;
    assert(logical == 0 ==> product == 0) by (nonlinear_arith)
        requires
            product == logical * os.raw() * user.raw(),
    ;
    lemma_div_round_bounds(product, UNITS_SQUARED as int);
}

/// Reconciling the same inputs twice in a row asks for no second resize:
/// once a coordinator holds the state that some inputs determine, those
/// inputs need no resize and determine the state it already holds.
pub proof fn lemma_reconcile_idempotent(
    coordinator: ScaleCoordinator,
    logical_size: WindowSize,
    os: ScaleFactor,
    user: ScaleFactor,
)
    requires
        coordinator.state() == ScaleState::of(logical_size, os, user),
    ensures
        !coordinator.resize_needed(logical_size, user),
        ScaleState::of(logical_size, os, user) == coordinator.state(),
{
}

} // verus!
