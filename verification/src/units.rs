//! Fixed-point quantities: lengths, positions and scale factors in millionths.
//!
//! Every quantity that need not be a whole number is carried as an integer
//! count of millionths, so that all arithmetic is exact and every rounding is
//! stated.

use vstd::prelude::*;

verus! {

/// The number of raw units in one whole.
pub const UNITS_PER_WHOLE: i64 = 1_000_000;

/// `n / d` rounded to the nearest integer, ties away from zero.
pub open spec fn div_round(n: int, d: int) -> int
    recommends
        d > 0,
{
    if n >= 0 {
        (2 * n + d) / (2 * d)
    } else {
        -((2 * (-n) + d) / (2 * d))
    }
}

/// `v` limited to the range `lo ..= hi`.
pub open spec fn clamp(v: int, lo: int, hi: int) -> int
    recommends
        lo <= hi,
{
    if v < lo {
        lo
    } else if v > hi {
        hi
    } else {
        v
    }
}

/// The nearest integer to `n / d` for a non-negative `n`, ties upward.
fn div_round_magnitude(n: u128, d: u128) -> (q: u128)
    requires
        d > 0,
        2 * n + d <= u128::MAX,
        2 * d <= u128::MAX,
    ensures
        q == div_round(n as int, d as int),
        q <= n,
{
    let q = (2 * n + d) / (2 * d);
    proof {
        lemma_div_round_bounds(n as int, d as int);
    }
    q
}

/// A rounded quotient of a non-negative number lies between zero and that number.
pub proof fn lemma_div_round_bounds(n: int, d: int)
    requires
        n >= 0,
        d > 0,
    ensures
        0 <= div_round(n, d) <= n,
        n == 0 ==> div_round(n, d) == 0,
{
    let q = (2 * n + d) / (2 * d);
    assert(0 <= q) by (nonlinear_arith)
        requires
            q == (2 * n + d) / (2 * d),
            n >= 0,
            d > 0,
    ;
    assert(q <= n) by (nonlinear_arith)
        requires
            q == (2 * n + d) / (2 * d),
            n >= 0,
            d > 0,
    ;
}

/// A signed quantity counted in millionths: a length, a position or a
/// scroll distance that need not be a whole number.
#[derive(Clone, Copy, Debug, PartialEq, Eq, Structural)]
pub struct Fixed {
    pub raw: i64,
}

impl Fixed {
    /// The whole number `n`.
    pub fn from_int(n: i32) -> (r: Fixed)
        ensures
            r.raw == n * UNITS_PER_WHOLE,
    {
        Fixed { raw: (n as i64) * UNITS_PER_WHOLE }
    }

    /// The quantity of `raw` millionths.
    pub fn from_raw(raw: i64) -> (r: Fixed)
        ensures
            r.raw == raw,
    {
        Fixed { raw }
    }

    /// The sum of two quantities, limited to the representable range.
    pub fn saturating_add(self, rhs: Fixed) -> (r: Fixed)
        ensures
            r.raw == clamp(self.raw + rhs.raw, i64::MIN as int, i64::MAX as int),
    {
        let sum: i128 = self.raw as i128 + rhs.raw as i128;
        if sum < i64::MIN as i128 {
            Fixed { raw: i64::MIN }
        } else if sum > i64::MAX as i128 {
            Fixed { raw: i64::MAX }
        } else {
            Fixed { raw: sum as i64 }
        }
    }

    /// This quantity multiplied by a scale factor, to the nearest millionth.
    pub open spec fn spec_scaled(self, factor: ScaleFactor) -> Fixed {
        Fixed {
            raw: clamp(
                div_round(self.raw * factor.raw(), UNITS_PER_WHOLE as int),
                i64::MIN as int,
                i64::MAX as int,
            ) as i64,
        }
    }

    /// This quantity multiplied by a scale factor, to the nearest millionth,
    /// limited to the representable range.
    pub fn scaled(self, factor: ScaleFactor) -> (r: Fixed)
        ensures
            r == self.spec_scaled(factor),
    {
        let f: u128 = factor.get() as u128;
        if self.raw >= 0 {
            let n: u128 = self.raw as u128;
            assert(n * f <= 0x7fff_ffff_ffff_ffff * 0xffff_ffff) by (nonlinear_arith)
                requires
                    n <= 0x7fff_ffff_ffff_ffff,
                    f <= 0xffff_ffff,
            ;
            let q = div_round_magnitude(n * f, UNITS_PER_WHOLE as u128);
            assert(self.raw * factor.raw() == (n * f) as int);
            if q > i64::MAX as u128 {
                Fixed { raw: i64::MAX }
            } else {
                Fixed { raw: q as i64 }
            }
        } else {
            let n: u128 = (-(self.raw as i128)) as u128;
            assert(n * f <= 0x8000_0000_0000_0000 * 0xffff_ffff) by (nonlinear_arith)
                requires
                    n <= 0x8000_0000_0000_0000,
                    f <= 0xffff_ffff,
            ;
            let q = div_round_magnitude(n * f, UNITS_PER_WHOLE as u128);
            assert(-(self.raw * factor.raw()) == (n * f) as int) by (nonlinear_arith)
                requires
                    n == -self.raw,
                    f == factor.raw(),
            ;
            assert(self.raw * factor.raw() < 0) by (nonlinear_arith)
                requires
                    self.raw < 0,
                    factor.raw() > 0,
            ;
            if q > 0x8000_0000_0000_0000 {
                Fixed { raw: i64::MIN }
            } else {
                Fixed { raw: (-(q as i128)) as i64 }
            }
        }
    }
}

/// A strictly positive multiplier counted in millionths: `1_000_000` leaves
/// a length unchanged.
#[derive(Clone, Copy, Debug, PartialEq, Eq, Structural)]
pub struct ScaleFactor {
    raw: u32,
}

impl ScaleFactor {
    #[verifier::type_invariant]
    spec fn positive(self) -> bool {
        self.raw > 0
    }

    /// The multiplier in millionths.
    pub closed spec fn raw(self) -> int {
        self.raw as int
    }

    /// Whether this value is a multiplier at all: it is strictly positive.
    pub open spec fn wf(self) -> bool {
        0 < self.raw() <= u32::MAX
    }

    /// The factor of `raw` millionths; none for zero.
    pub fn new(raw: u32) -> (r: Option<ScaleFactor>)
        ensures
            raw == 0 <==> r is None,
            r matches Some(factor) ==> factor.raw() == raw && factor.wf(),
    {
        if raw == 0 {
            None
        } else {
            Some(ScaleFactor { raw })
        }
    }

    /// The factor that leaves every length unchanged.
    pub closed spec fn spec_identity() -> ScaleFactor {
        ScaleFactor { raw: 1_000_000 }
    }

    /// The factor that leaves every length unchanged.
    pub fn identity() -> (r: ScaleFactor)
        ensures
            r == ScaleFactor::spec_identity(),
            r.raw() == UNITS_PER_WHOLE,
            r.wf(),
    {
        ScaleFactor { raw: 1_000_000 }
    }

    /// The multiplier in millionths.
    pub fn get(&self) -> (r: u32)
        ensures
            r == self.raw(),
            self.wf(),
    {
        proof {
            use_type_invariant(self);
        }
        self.raw
    }
}

} // verus!
