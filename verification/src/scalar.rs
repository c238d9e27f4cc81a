//! Fixed-point scalars for layout arithmetic.
//!
//! A [`Scalar`] holds a signed number in units of 1/65536. The largest raw value
//! stands for positive infinity ("wants unbounded space"); every operation is total
//! and saturates instead of overflowing, so no operation here can fail.
use vstd::prelude::*;

verus! {

/// Raw value of the scalar `1`.
pub const ONE_RAW: i64 = 0x1_0000;

/// Raw value of the scalar `1/2`.
pub const HALF_RAW: i64 = 0x8000;

/// Raw value that stands for positive infinity.
pub const INFINITY_RAW: i64 = 0x7fff_ffff_ffff_ffff;

/// Raw value of the most negative scalar.
pub const LOWEST_RAW: i64 = -0x8000_0000_0000_0000;

/// The raw value nearest to `v` that a scalar can hold.
pub open spec fn saturate(v: int) -> i64 {
    if v >= INFINITY_RAW {
        INFINITY_RAW
    } else if v <= LOWEST_RAW {
        LOWEST_RAW
    } else {
        v as i64
    }
}

/// The raw value that stands for infinity with the sign of `v` (zero counts as positive).
pub open spec fn signed_infinity(v: int) -> i64 {
    if v >= 0 {
        INFINITY_RAW
    } else {
        LOWEST_RAW
    }
}

/// A signed fixed-point number with 16 fractional bits, or positive infinity.
#[derive(Clone, Copy, Debug, PartialEq, Eq, Hash, Structural)]
pub struct Scalar {
    pub raw: i64,
}

impl Scalar {
    /// The scalar with the given raw value.
    pub open spec fn of(raw: int) -> Scalar {
        Scalar { raw: saturate(raw) }
    }

    pub open spec fn is_infinite_spec(self) -> bool {
        self.raw == INFINITY_RAW
    }

    pub open spec fn is_negative_spec(self) -> bool {
        self.raw < 0
    }

    /// Sum; infinity absorbs, everything else saturates.
    pub open spec fn add_spec(self, rhs: Scalar) -> Scalar {
        if self.raw == INFINITY_RAW || rhs.raw == INFINITY_RAW {
            Scalar { raw: INFINITY_RAW }
        } else {
            Scalar { raw: saturate(self.raw + rhs.raw) }
        }
    }

    /// Difference; an infinite minuend stays infinite.
    pub open spec fn sub_spec(self, rhs: Scalar) -> Scalar {
        if self.raw == INFINITY_RAW {
            Scalar { raw: INFINITY_RAW }
        } else {
            Scalar { raw: saturate(self.raw - rhs.raw) }
        }
    }

    /// Product, rounded down to the next representable value. Infinity times a
    /// non-negative factor (zero included) is infinity.
    pub open spec fn mul_spec(self, rhs: Scalar) -> Scalar {
        if self.raw == INFINITY_RAW {
            Scalar { raw: signed_infinity(rhs.raw as int) }
        } else if rhs.raw == INFINITY_RAW {
            Scalar { raw: signed_infinity(self.raw as int) }
        } else {
            Scalar { raw: saturate((self.raw * rhs.raw) / (ONE_RAW as int)) }
        }
    }

    /// Quotient, rounded down to the next representable value. Division by zero
    /// gives the infinity with the sign of the dividend; a finite value over
    /// infinity is zero; infinity over infinity is infinity.
    pub open spec fn div_spec(self, rhs: Scalar) -> Scalar {
        if rhs.raw == 0 {
            Scalar { raw: signed_infinity(self.raw as int) }
        } else if self.raw == INFINITY_RAW {
            Scalar { raw: signed_infinity(rhs.raw as int) }
        } else if rhs.raw == INFINITY_RAW {
            Scalar { raw: 0 }
        } else if rhs.raw > 0 {
            Scalar { raw: saturate((self.raw * ONE_RAW) / (rhs.raw as int)) }
        } else {
            Scalar { raw: saturate((-(self.raw * ONE_RAW)) / (-(rhs.raw as int))) }
        }
    }

    pub open spec fn min_spec(self, rhs: Scalar) -> Scalar {
        if self.raw <= rhs.raw {
            self
        } else {
            rhs
        }
    }

    pub open spec fn max_spec(self, rhs: Scalar) -> Scalar {
        if self.raw >= rhs.raw {
            self
        } else {
            rhs
        }
    }

    /// `count` copies of this scalar added up.
    pub open spec fn times_spec(self, count: usize) -> Scalar {
        if count == 0 {
            Scalar { raw: 0 }
        } else if self.raw == INFINITY_RAW {
            self
        } else {
            Scalar { raw: saturate(self.raw * count) }
        }
    }

    /// This scalar split into `count` equal parts, each rounded down. Zero parts
    /// give zero.
    pub open spec fn split_spec(self, count: usize) -> Scalar {
        if count == 0 {
            Scalar { raw: 0 }
        } else if self.raw == INFINITY_RAW {
            self
        } else {
            Scalar { raw: ((self.raw as int) / (count as int)) as i64 }
        }
    }

    pub fn from_raw(raw: i64) -> (r: Scalar)
        ensures
            r.raw == raw,
    {
        Scalar { raw }
    }

    pub fn raw(self) -> (r: i64)
        ensures
            r == self.raw,
    {
        self.raw
    }

    pub fn zero() -> (r: Scalar)
        ensures
            r.raw == 0,
    {
        Scalar { raw: 0 }
    }

    pub fn half() -> (r: Scalar)
        ensures
            r.raw == HALF_RAW,
    {
        Scalar { raw: HALF_RAW }
    }

    pub fn one() -> (r: Scalar)
        ensures
            r.raw == ONE_RAW,
    {
        Scalar { raw: ONE_RAW }
    }

    pub fn infinity() -> (r: Scalar)
        ensures
            r.raw == INFINITY_RAW,
    {
        Scalar { raw: INFINITY_RAW }
    }

    /// The scalar that equals the integer `value`.
    pub fn from_int(value: i32) -> (r: Scalar)
        ensures
            r.raw == value * ONE_RAW,
    {
        let wide: i64 = value as i64;
        Scalar { raw: wide * ONE_RAW }
    }

    #[verifier::when_used_as_spec(is_infinite_spec)]
    pub fn is_infinite(self) -> (r: bool)
        ensures
            r == self.is_infinite_spec(),
    {
        self.raw == INFINITY_RAW
    }

    #[verifier::when_used_as_spec(is_negative_spec)]
    pub fn is_negative(self) -> (r: bool)
        ensures
            r == self.is_negative_spec(),
    {
        self.raw < 0
    }

    pub fn le(self, rhs: Scalar) -> (r: bool)
        ensures
            r == (self.raw <= rhs.raw),
    {
        self.raw <= rhs.raw
    }

    pub fn lt(self, rhs: Scalar) -> (r: bool)
        ensures
            r == (self.raw < rhs.raw),
    {
        self.raw < rhs.raw
    }

    #[verifier::when_used_as_spec(add_spec)]
    pub fn add(self, rhs: Scalar) -> (r: Scalar)
        ensures
            r == self.add_spec(rhs),
    {
        if self.raw == INFINITY_RAW || rhs.raw == INFINITY_RAW {
            Scalar { raw: INFINITY_RAW }
        } else {
            Scalar { raw: saturate_wide(self.raw as i128 + rhs.raw as i128) }
        }
    }

    #[verifier::when_used_as_spec(sub_spec)]
    pub fn sub(self, rhs: Scalar) -> (r: Scalar)
        ensures
            r == self.sub_spec(rhs),
    {
        if self.raw == INFINITY_RAW {
            Scalar { raw: INFINITY_RAW }
        } else {
            Scalar { raw: saturate_wide(self.raw as i128 - rhs.raw as i128) }
        }
    }

    #[verifier::when_used_as_spec(mul_spec)]
    pub fn mul(self, rhs: Scalar) -> (r: Scalar)
        ensures
            r == self.mul_spec(rhs),
    {
        if self.raw == INFINITY_RAW {
            Scalar { raw: infinity_like(rhs.raw) }
        } else if rhs.raw == INFINITY_RAW {
            Scalar { raw: infinity_like(self.raw) }
        } else {
            let product: i128 = wide_product(self.raw, rhs.raw);
            Scalar { raw: saturate_wide(floor_quotient(product, ONE_RAW as i128)) }
        }
    }

    #[verifier::when_used_as_spec(div_spec)]
    pub fn div(self, rhs: Scalar) -> (r: Scalar)
        ensures
            r == self.div_spec(rhs),
    {
        if rhs.raw == 0 {
            Scalar { raw: infinity_like(self.raw) }
        } else if self.raw == INFINITY_RAW {
            Scalar { raw: infinity_like(rhs.raw) }
        } else if rhs.raw == INFINITY_RAW {
            Scalar { raw: 0 }
        } else {
            let scaled: i128 = wide_product(self.raw, ONE_RAW);
            if rhs.raw > 0 {
                Scalar { raw: saturate_wide(floor_quotient(scaled, rhs.raw as i128)) }
            } else {
                Scalar { raw: saturate_wide(floor_quotient(-scaled, -(rhs.raw as i128))) }
            }
        }
    }

    #[verifier::when_used_as_spec(min_spec)]
    pub fn min(self, rhs: Scalar) -> (r: Scalar)
        ensures
            r == self.min_spec(rhs),
    {
        if self.raw <= rhs.raw {
            self
        } else {
            rhs
        }
    }

    #[verifier::when_used_as_spec(max_spec)]
    pub fn max(self, rhs: Scalar) -> (r: Scalar)
        ensures
            r == self.max_spec(rhs),
    {
        if self.raw >= rhs.raw {
            self
        } else {
            rhs
        }
    }

    #[verifier::when_used_as_spec(times_spec)]
    pub fn times(self, count: usize) -> (r: Scalar)
        ensures
            r == self.times_spec(count),
    {
        if count == 0 {
            Scalar { raw: 0 }
        } else if self.raw == INFINITY_RAW {
            self
        } else {
            let copies: i128 = count as i128;
            proof {
                lemma_count_product_bound(self.raw as int, copies as int);
            }
            Scalar { raw: saturate_wide((self.raw as i128) * copies) }
        }
    }

    #[verifier::when_used_as_spec(split_spec)]
    pub fn split(self, count: usize) -> (r: Scalar)
        ensures
            r == self.split_spec(count),
    {
        if count == 0 {
            Scalar { raw: 0 }
        } else if self.raw == INFINITY_RAW {
            self
        } else {
            let parts: i128 = count as i128;
            let q: i128 = floor_quotient(self.raw as i128, parts);
            proof {
                lemma_quotient_within(self.raw as int, parts as int);
            }
            Scalar { raw: q as i64 }
        }
    }
}

fn infinity_like(sign: i64) -> (r: i64)
    ensures
        r == signed_infinity(sign as int),
{
    if sign >= 0 {
        INFINITY_RAW
    } else {
        LOWEST_RAW
    }
}

fn saturate_wide(v: i128) -> (r: i64)
    ensures
        r == saturate(v as int),
{
    if v >= INFINITY_RAW as i128 {
        INFINITY_RAW
    } else if v <= LOWEST_RAW as i128 {
        LOWEST_RAW
    } else {
        v as i64
    }
}

fn wide_product(a: i64, b: i64) -> (r: i128)
    ensures
        r == a * b,
        -0x4000_0000_0000_0000_0000_0000_0000_0000 <= r <= 0x4000_0000_0000_0000_0000_0000_0000_0000,
{
    proof {
        lemma_product_bound(a as int, b as int);
    }
    (a as i128) * (b as i128)
}

/// `n / d` rounded towards negative infinity.
fn floor_quotient(n: i128, d: i128) -> (q: i128)
    requires
        d > 0,
        -0x4000_0000_0000_0000_0000_0000_0000_0000 <= n <= 0x4000_0000_0000_0000_0000_0000_0000_0000,
    ensures
        q == n / d,
{
    proof {
        lemma_quotient_within(n as int, d as int);
    }
    match n.checked_div_euclid(d) {
        Some(q) => q,
        None => 0,
    }
}

proof fn lemma_product_bound(a: int, b: int)
    by (nonlinear_arith)
    requires
        -0x8000_0000_0000_0000 <= a <= 0x7fff_ffff_ffff_ffff,
        -0x8000_0000_0000_0000 <= b <= 0x7fff_ffff_ffff_ffff,
    ensures
        -0x4000_0000_0000_0000_0000_0000_0000_0000 <= a * b <= 0x4000_0000_0000_0000_0000_0000_0000_0000,
{
}

proof fn lemma_count_product_bound(a: int, n: int)
    by (nonlinear_arith)
    requires
        -0x8000_0000_0000_0000 <= a <= 0x7fff_ffff_ffff_ffff,
        0 <= n <= 0xffff_ffff_ffff_ffff,
    ensures
        -0x8000_0000_0000_0000_0000_0000_0000_0000 < a * n < 0x7fff_ffff_ffff_ffff_ffff_ffff_ffff_ffff,
{
}

/// A quotient by a positive divisor lies between zero and the dividend.
pub proof fn lemma_quotient_within(n: int, d: int)
    by (nonlinear_arith)
    requires
        d > 0,
    ensures
        n >= 0 ==> 0 <= n / d <= n,
        n < 0 ==> n <= n / d < 0,
{
}

/// A product of non-negative scalars is not negative, and a factor between zero
/// and one does not enlarge.
pub proof fn lemma_mul_by_fraction(a: Scalar, fraction: Scalar)
    requires
        a.raw >= 0,
        0 <= fraction.raw <= ONE_RAW,
    ensures
        0 <= a.mul_spec(fraction).raw <= a.raw,
{
    if a.raw != INFINITY_RAW {
        lemma_scaled_within(a.raw as int, fraction.raw as int);
    }
}

proof fn lemma_scaled_within(a: int, f: int)
    by (nonlinear_arith)
    requires
        a >= 0,
        0 <= f <= 0x1_0000,
    ensures
        0 <= (a * f) / 0x1_0000 <= a,
{
}

/// A product with one is the other factor.
pub proof fn lemma_mul_by_one(a: Scalar)
    ensures
        a.mul_spec(Scalar { raw: ONE_RAW }) == a,
{
    if a.raw != INFINITY_RAW {
        assert((a.raw * ONE_RAW) / (ONE_RAW as int) == a.raw) by (nonlinear_arith);
    }
}

/// A quotient of non-negative scalars is not negative.
pub proof fn lemma_div_non_negative(a: Scalar, b: Scalar)
    requires
        a.raw >= 0,
        b.raw >= 0,
    ensures
        a.div_spec(b).raw >= 0,
{
    if b.raw > 0 && a.raw != INFINITY_RAW && b.raw != INFINITY_RAW {
        lemma_quotient_within(a.raw * ONE_RAW, b.raw as int);
    }
}

/// Products grow with their factors, where no factor is negative.
pub proof fn lemma_mul_is_monotone(a: Scalar, b: Scalar, c: Scalar, d: Scalar)
    requires
        0 <= a.raw <= c.raw,
        0 <= b.raw <= d.raw,
    ensures
        a.mul_spec(b).raw <= c.mul_spec(d).raw,
{
    if c.raw != INFINITY_RAW && d.raw != INFINITY_RAW {
        let (w, x, y, z, one) = (a.raw as int, b.raw as int, c.raw as int, d.raw as int, ONE_RAW as int);
        assert((w * x) / one <= (y * z) / one) by (nonlinear_arith)
            requires
                0 <= w <= y,
                0 <= x <= z,
                one == 0x1_0000,
        ;
    }
}

/// Quotients grow with the dividend, where nothing is negative.
pub proof fn lemma_div_is_monotone(a: Scalar, c: Scalar, b: Scalar)
    requires
        0 <= a.raw <= c.raw,
        0 <= b.raw,
    ensures
        a.div_spec(b).raw <= c.div_spec(b).raw,
{
    if b.raw > 0 && b.raw != INFINITY_RAW && c.raw != INFINITY_RAW {
        let (w, y, z, one) = (a.raw as int, c.raw as int, b.raw as int, ONE_RAW as int);
        assert((w * one) / z <= (y * one) / z) by (nonlinear_arith)
            requires
                0 <= w <= y,
                0 < z,
                one == 0x1_0000,
        ;
    }
}

} // verus!
