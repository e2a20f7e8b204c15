//! Scalar model: IEEE-754 single-precision values carried as raw bit
//! patterns, and the strategy interface through which every arithmetic and
//! trigonometric operation on them is performed.
//!
//! The imaging core never interprets a bit pattern itself: all scalar
//! computation goes through a [`MathStrategy`] chosen by the caller at build
//! time.  A strategy with exact trigonometry and one with a bounded-error
//! fast polynomial approximation (worst-case error about 0.1%, typically
//! about 0.01%) are both admissible; the error bound is part of the chosen
//! strategy's contract, not of this crate's.  Everything proved about the
//! core therefore holds for every strategy: the contracts of the imaging
//! functions pin each produced scalar down to the exact tree of strategy
//! operations applied to it.

use vstd::prelude::*;

verus! {

/// A single-precision scalar, represented by its raw IEEE-754 bit pattern.
#[derive(Clone, Copy, PartialEq, Eq, Structural, Debug, Hash)]
pub struct Real {
    pub bits: u32,
}

/// A complex sample: real and imaginary part.
#[derive(Clone, Copy, PartialEq, Eq, Structural, Debug, Hash)]
pub struct Cpx {
    pub re: Real,
    pub im: Real,
}

/// Bit pattern of 0.0f32.
pub const ZERO_BITS: u32 = 0;
/// Bit pattern of 1.0f32.
pub const ONE_BITS: u32 = 0x3f80_0000;
/// Bit pattern of the single-precision value nearest to pi.
pub const PI_BITS: u32 = 0x4049_0fdb;
/// Bit pattern of the single-precision value nearest to pi / 2.
pub const PI_OVER_2_BITS: u32 = 0x3fc9_0fdb;
/// Bit pattern of the single-precision value nearest to 2 * pi.
pub const TWO_PI_BITS: u32 = 0x40c9_0fdb;
/// Bit pattern of the single-precision value nearest to -2 * pi.
pub const NEG_TWO_PI_BITS: u32 = 0xc0c9_0fdb;
/// Bit pattern of single-precision negative infinity.
pub const NEG_INFINITY_BITS: u32 = 0xff80_0000;
/// Bit pattern of single-precision positive infinity.
pub const INFINITY_BITS: u32 = 0x7f80_0000;
/// Bit pattern of the reference wavelength in metres: the single-precision
/// quotient of the speed of light (2.99793e8 m/s) by the GPS L1 carrier
/// frequency (1.57542e9 Hz).
pub const L1_WAVELENGTH_BITS: u32 = 0x3e42_dc6f;

/// Strategy interface for scalar arithmetic, chosen by the caller at build
/// time (exact math, or a documented bounded-error fast path).  The abstract
/// `..._spec` functions name what each implementation computes; each
/// executable operation is pinned to its own spec function, so the imaging
/// core's contracts describe results exactly as trees of strategy
/// operations.  The crate itself implements no strategy: the proofs here
/// hold for every implementation that meets these signatures.
pub trait MathStrategy {
    /// Value of the sum of two scalars under this strategy.
    spec fn add_spec(a: Real, b: Real) -> Real;

    /// Value of the difference of two scalars under this strategy.
    spec fn sub_spec(a: Real, b: Real) -> Real;

    /// Value of the product of two scalars under this strategy.
    spec fn mul_spec(a: Real, b: Real) -> Real;

    /// Value of the quotient of two scalars under this strategy.
    spec fn div_spec(a: Real, b: Real) -> Real;

    /// Value of the negation of a scalar under this strategy.
    spec fn neg_spec(a: Real) -> Real;

    /// Value of the absolute value of a scalar under this strategy.
    spec fn abs_spec(a: Real) -> Real;

    /// Value of the square root of a scalar under this strategy.
    spec fn sqrt_spec(a: Real) -> Real;

    /// Value of the reciprocal of a scalar under this strategy.
    spec fn recip_spec(a: Real) -> Real;

    /// Value of the smaller of two scalars under this strategy.
    spec fn min_spec(a: Real, b: Real) -> Real;

    /// Value of the larger of two scalars under this strategy.
    spec fn max_spec(a: Real, b: Real) -> Real;

    /// Whether `a` compares strictly below `b` under this strategy.
    spec fn lt_spec(a: Real, b: Real) -> bool;

    /// Scalar standing for the given count under this strategy.
    spec fn from_count_spec(n: usize) -> Real;

    /// Single-precision narrowing of a double-precision bit pattern.
    spec fn narrow_spec(wide_bits: u64) -> Real;

    /// Sine of a scalar under this strategy.
    spec fn sin_spec(x: Real) -> Real;

    /// Cosine of a scalar under this strategy.
    spec fn cos_spec(x: Real) -> Real;

    /// Magnitude of a complex sample under this strategy.
    spec fn magnitude_spec(z: Cpx) -> Real;

    /// Adds two scalars.
    fn add(a: Real, b: Real) -> (r: Real)
        ensures
            r == Self::add_spec(a, b),
    ;

    /// Subtracts `b` from `a`.
    fn sub(a: Real, b: Real) -> (r: Real)
        ensures
            r == Self::sub_spec(a, b),
    ;

    /// Multiplies two scalars.
    fn mul(a: Real, b: Real) -> (r: Real)
        ensures
            r == Self::mul_spec(a, b),
    ;

    /// Divides `a` by `b`.
    fn div(a: Real, b: Real) -> (r: Real)
        ensures
            r == Self::div_spec(a, b),
    ;

    /// Negates a scalar.
    fn neg(a: Real) -> (r: Real)
        ensures
            r == Self::neg_spec(a),
    ;

    /// Absolute value of a scalar.
    fn abs(a: Real) -> (r: Real)
        ensures
            r == Self::abs_spec(a),
    ;

    /// Square root of a scalar.
    fn sqrt(a: Real) -> (r: Real)
        ensures
            r == Self::sqrt_spec(a),
    ;

    /// Reciprocal of a scalar.
    fn recip(a: Real) -> (r: Real)
        ensures
            r == Self::recip_spec(a),
    ;

    /// Smaller of two scalars.
    fn min(a: Real, b: Real) -> (r: Real)
        ensures
            r == Self::min_spec(a, b),
    ;

    /// Larger of two scalars.
    fn max(a: Real, b: Real) -> (r: Real)
        ensures
            r == Self::max_spec(a, b),
    ;

    /// Strict comparison of two scalars.
    fn lt(a: Real, b: Real) -> (r: bool)
        ensures
            r == Self::lt_spec(a, b),
    ;

    /// Converts a count to a scalar.
    fn from_count(n: usize) -> (r: Real)
        ensures
            r == Self::from_count_spec(n),
    ;

    /// Narrows a double-precision bit pattern to single precision.
    fn narrow(wide_bits: u64) -> (r: Real)
        ensures
            r == Self::narrow_spec(wide_bits),
    ;

    /// Sine and cosine of a scalar, in that order.  This is the strategy
    /// point where an implementation may substitute its fast approximation
    /// for exact trigonometry.
    fn sin_cos(x: Real) -> (r: (Real, Real))
        ensures
            r.0 == Self::sin_spec(x),
            r.1 == Self::cos_spec(x),
    ;

    /// Magnitude of a complex sample.  This is the strategy point where an
    /// implementation may substitute its fast approximation for the exact
    /// Euclidean norm.
    fn magnitude(z: Cpx) -> (r: Real)
        ensures
            r == Self::magnitude_spec(z),
    ;
}

/// Sum of two complex samples, part by part.
pub open spec fn cadd_spec<S: MathStrategy>(a: Cpx, b: Cpx) -> Cpx {
    Cpx { re: S::add_spec(a.re, b.re), im: S::add_spec(a.im, b.im) }
}

/// Product of two complex samples:
/// `(a.re + i a.im)(b.re + i b.im)`, each part evaluated as the strategy
/// evaluates `x*y -+ z*w`.
pub open spec fn cmul_spec<S: MathStrategy>(a: Cpx, b: Cpx) -> Cpx {
    Cpx {
        re: S::sub_spec(S::mul_spec(a.re, b.re), S::mul_spec(a.im, b.im)),
        im: S::add_spec(S::mul_spec(a.re, b.im), S::mul_spec(a.im, b.re)),
    }
}

/// Product of a complex sample with a real scalar, part by part.
pub open spec fn cscale_spec<S: MathStrategy>(a: Cpx, s: Real) -> Cpx {
    Cpx { re: S::mul_spec(a.re, s), im: S::mul_spec(a.im, s) }
}

/// Adds two complex samples.
pub fn cadd<S: MathStrategy>(a: Cpx, b: Cpx) -> (r: Cpx)
    ensures
        r == cadd_spec::<S>(a, b),
{
    Cpx { re: S::add(a.re, b.re), im: S::add(a.im, b.im) }
}

/// Multiplies two complex samples.
pub fn cmul<S: MathStrategy>(a: Cpx, b: Cpx) -> (r: Cpx)
    ensures
        r == cmul_spec::<S>(a, b),
{
    Cpx {
        re: S::sub(S::mul(a.re, b.re), S::mul(a.im, b.im)),
        im: S::add(S::mul(a.re, b.im), S::mul(a.im, b.re)),
    }
}

/// Multiplies a complex sample by a real scalar.
pub fn cscale<S: MathStrategy>(a: Cpx, s: Real) -> (r: Cpx)
    ensures
        r == cscale_spec::<S>(a, s),
{
    Cpx { re: S::mul(a.re, s), im: S::mul(a.im, s) }
}

} // verus!
