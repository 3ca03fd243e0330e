//! Exact rational scalars.
//!
//! Every quantity magnitude in this crate is an exact fraction of two `i64`
//! components. A value whose denominator is `0` is *non-finite*: it arises
//! from a division by zero, or when a computed component would not fit in an
//! `i64`. Non-finite values are not an error; they propagate through
//! arithmetic like any other value, the way IEEE infinities would.

use vstd::prelude::*;

verus! {

/// The fraction `n / d`. `d == 0` marks a non-finite value.
#[derive(Copy, Clone, Debug, PartialEq, Eq, Structural)]
pub struct Rat {
    pub n: i64,
    pub d: i64,
}

/// Whether the mathematical integer `x` is representable as an `i64`.
pub open spec fn fits_i64(x: int) -> bool {
    i64::MIN <= x <= i64::MAX
}

/// The fraction with components `n` and `d`, or the non-finite marker when a
/// component is out of range of `i64`.
pub open spec fn rat_clamped(n: int, d: int) -> Rat {
    if fits_i64(n) && fits_i64(d) {
        Rat { n: n as i64, d: d as i64 }
    } else {
        Rat { n: 0, d: 0 }
    }
}

/// Exact sum of two fractions, component-wise over the integers.
pub open spec fn rat_add(x: Rat, y: Rat) -> Rat {
    rat_clamped(x.n * y.d + y.n * x.d, x.d * y.d)
}

/// Exact difference of two fractions.
pub open spec fn rat_sub(x: Rat, y: Rat) -> Rat {
    rat_clamped(x.n * y.d - y.n * x.d, x.d * y.d)
}

/// Exact product of two fractions.
pub open spec fn rat_mul(x: Rat, y: Rat) -> Rat {
    rat_clamped(x.n * y.n, x.d * y.d)
}

/// Exact quotient of two fractions. A zero divisor yields a non-finite
/// result (the denominator component becomes `0`).
pub open spec fn rat_div(x: Rat, y: Rat) -> Rat {
    rat_clamped(x.n * y.d, x.d * y.n)
}

/// A value is finite when its denominator is nonzero.
pub open spec fn rat_finite(x: Rat) -> bool {
    x.d != 0
}

/// Equality of the represented rationals, by cross multiplication.
/// Meaningful for finite values; all non-finite values are related.
pub open spec fn same_ratio(x: Rat, y: Rat) -> bool {
    x.n * y.d == y.n * x.d
}

/// The sum of `x` and `y` is representable without clamping.
pub open spec fn add_fits(x: Rat, y: Rat) -> bool {
    fits_i64(x.n * y.d + y.n * x.d) && fits_i64(x.d * y.d)
}

/// The difference of `x` and `y` is representable without clamping.
pub open spec fn sub_fits(x: Rat, y: Rat) -> bool {
    fits_i64(x.n * y.d - y.n * x.d) && fits_i64(x.d * y.d)
}

/// The product of `x` and `y` is representable without clamping.
pub open spec fn mul_fits(x: Rat, y: Rat) -> bool {
    fits_i64(x.n * y.n) && fits_i64(x.d * y.d)
}

/// The quotient of `x` and `y` is representable without clamping.
pub open spec fn div_fits(x: Rat, y: Rat) -> bool {
    fits_i64(x.n * y.d) && fits_i64(x.d * y.n)
}

/// The product of two values in `i64` range stays well inside `i128` range.
proof fn lemma_i64_mul_bound(x: int, y: int) by (nonlinear_arith)
    requires
        i64::MIN <= x <= i64::MAX,
        i64::MIN <= y <= i64::MAX,
    ensures
        -0x4000_0000_0000_0000_0000_0000_0000_0000 <= x * y
            <= 0x4000_0000_0000_0000_0000_0000_0000_0000,
{
}

impl Rat {
    /// The fraction `n / d`.
    pub fn new(n: i64, d: i64) -> (r: Rat)
        ensures
            r == (Rat { n, d }),
    {
        Rat { n, d }
    }

    /// True unless the value is non-finite.
    pub fn is_finite(&self) -> (r: bool)
        ensures
            r == rat_finite(*self),
    {
        self.d != 0
    }

    /// Whether `self` and `other` represent the same rational number.
    pub fn same_value(&self, other: &Rat) -> (r: bool)
        ensures
            r == same_ratio(*self, *other),
    {
        proof {
            lemma_i64_mul_bound(self.n as int, other.d as int);
            lemma_i64_mul_bound(other.n as int, self.d as int);
        }
        let l = (self.n as i128) * (other.d as i128);
        let r = (other.n as i128) * (self.d as i128);
        l == r
    }

    /// `self + other`, exactly, clamped to the non-finite marker if a
    /// component overflows.
    pub fn add(self, other: Rat) -> (r: Rat)
        ensures
            r == rat_add(self, other),
    {
        proof {
            lemma_i64_mul_bound(self.n as int, other.d as int);
            lemma_i64_mul_bound(other.n as int, self.d as int);
            lemma_i64_mul_bound(self.d as int, other.d as int);
        }
        let cross1 = (self.n as i128).checked_mul(other.d as i128);
        let cross2 = (other.n as i128).checked_mul(self.d as i128);
        let den = (self.d as i128).checked_mul(other.d as i128);
        match (cross1, cross2, den) {
            (Some(cross1), Some(cross2), Some(den)) => match cross1.checked_add(cross2) {
                Some(num) => clamp128(num, den),
                _ => Rat { n: 0, d: 0 },
            },
            _ => Rat { n: 0, d: 0 },
        }
    }

    /// `self - other`, exactly, clamped to the non-finite marker if a
    /// component overflows.
    pub fn sub(self, other: Rat) -> (r: Rat)
        ensures
            r == rat_sub(self, other),
    {
        proof {
            lemma_i64_mul_bound(self.n as int, other.d as int);
            lemma_i64_mul_bound(other.n as int, self.d as int);
            lemma_i64_mul_bound(self.d as int, other.d as int);
        }
        let cross1 = (self.n as i128).checked_mul(other.d as i128);
        let cross2 = (other.n as i128).checked_mul(self.d as i128);
        let den = (self.d as i128).checked_mul(other.d as i128);
        match (cross1, cross2, den) {
            (Some(cross1), Some(cross2), Some(den)) => match cross1.checked_sub(cross2) {
                Some(num) => clamp128(num, den),
                _ => Rat { n: 0, d: 0 },
            },
            _ => Rat { n: 0, d: 0 },
        }
    }

    /// `self * other`, exactly, clamped to the non-finite marker if a
    /// component overflows.
    pub fn mul(self, other: Rat) -> (r: Rat)
        ensures
            r == rat_mul(self, other),
    {
        let num = (self.n as i128).checked_mul(other.n as i128);
        let den = (self.d as i128).checked_mul(other.d as i128);
        match (num, den) {
            (Some(num), Some(den)) => clamp128(num, den),
            _ => Rat { n: 0, d: 0 },
        }
    }

    /// `self / other`, exactly, clamped to the non-finite marker if a
    /// component overflows. Division by zero yields a non-finite value.
    pub fn div(self, other: Rat) -> (r: Rat)
        ensures
            r == rat_div(self, other),
    {
        let num = (self.n as i128).checked_mul(other.d as i128);
        let den = (self.d as i128).checked_mul(other.n as i128);
        match (num, den) {
            (Some(num), Some(den)) => clamp128(num, den),
            _ => Rat { n: 0, d: 0 },
        }
    }
}

/// Narrows exact 128-bit components back to `i64`, or yields the non-finite
/// marker when either is out of range.
fn clamp128(n: i128, d: i128) -> (r: Rat)
    ensures
        r == rat_clamped(n as int, d as int),
{
    if n >= i64::MIN as i128 && n <= i64::MAX as i128 && d >= i64::MIN as i128
        && d <= i64::MAX as i128 {
        Rat { n: n as i64, d: d as i64 }
    } else {
        Rat { n: 0, d: 0 }
    }
}

} // verus!
