//! Saturating signed fixed-point numbers.
//!
//! A [`Fixed`] stores a real quantity as an `i64` count of 1/[`SCALE`] units
//! (nine decimal fractional digits).  Every arithmetic operation widens to
//! `i128`, truncates division toward zero as the machine does, and clamps the
//! result back into the `i64` range, so no operation can overflow or panic.
//! Each operation's contract states the exact value it produces.

use vstd::prelude::*;

verus! {

/// Number of raw steps per unit: a `Fixed` with `raw == SCALE` is 1.0.
pub const SCALE: i64 = 1_000_000_000;

/// One half, in raw steps.
pub const HALF_SCALE: i64 = 500_000_000;

/// A fixed-point number: the real value `raw / SCALE`.
#[derive(Clone, Copy, Debug, PartialEq, Eq, Structural)]
pub struct Fixed {
    pub raw: i64,
}

/// The fixed-point number with the given raw representation.
pub open spec fn fx(raw: i64) -> Fixed {
    Fixed { raw }
}

/// Clamp an unbounded integer into the `i64` range.
pub open spec fn sat64(x: int) -> int {
    if x > i64::MAX {
        i64::MAX as int
    } else if x < i64::MIN {
        i64::MIN as int
    } else {
        x
    }
}

/// Division truncating toward zero (machine signed division), for a positive
/// divisor.
pub open spec fn tdiv(a: int, b: int) -> int
    recommends
        b > 0,
{
    if a >= 0 {
        a / b
    } else {
        -((-a) / b)
    }
}

/// Remainder of truncating division (machine signed remainder), for a
/// positive divisor: it carries the sign of the dividend.
pub open spec fn trem(a: int, b: int) -> int
    recommends
        b > 0,
{
    if a >= 0 {
        a % b
    } else {
        -((-a) % b)
    }
}

/// Truncating division stays between zero and the dividend.
pub proof fn lemma_tdiv_bound(a: int, b: int)
    requires
        b >= 1,
    ensures
        a >= 0 ==> 0 <= tdiv(a, b) <= a,
        a < 0 ==> a <= tdiv(a, b) <= 0,
{
    if a >= 0 {
        vstd::arithmetic::div_mod::lemma_div_is_ordered_by_denominator(a, 1, b);
        vstd::arithmetic::div_mod::lemma_div_pos_is_pos(a, b);
        assert(a / 1 == a) by {
            vstd::arithmetic::div_mod::lemma_div_basics(a);
        }
    } else {
        vstd::arithmetic::div_mod::lemma_div_is_ordered_by_denominator(-a, 1, b);
        vstd::arithmetic::div_mod::lemma_div_pos_is_pos(-a, b);
        assert((-a) / 1 == -a) by {
            vstd::arithmetic::div_mod::lemma_div_basics(-a);
        }
    }
}

/// The product of two `i64`-range values fits comfortably inside `i128`.
pub proof fn lemma_i64_mul_fits(a: int, b: int)
    requires
        i64::MIN <= a <= i64::MAX,
        i64::MIN <= b <= i64::MAX,
    ensures
        -0x4000_0000_0000_0000_0000_0000_0000_0000 <= a * b <= 0x4000_0000_0000_0000_0000_0000_0000_0000,
{
    assert(-0x4000_0000_0000_0000_0000_0000_0000_0000 <= a * b
        <= 0x4000_0000_0000_0000_0000_0000_0000_0000) by (nonlinear_arith)
        requires
            i64::MIN <= a <= i64::MAX,
            i64::MIN <= b <= i64::MAX,
    ;
}

/// Clamp a wide intermediate result into `i64`.
fn clamp128(x: i128) -> (r: i64)
    ensures
        r as int == sat64(x as int),
{
    if x > i64::MAX as i128 {
        i64::MAX
    } else if x < i64::MIN as i128 {
        i64::MIN
    } else {
        x as i64
    }
}

/// Truncating division of a wide intermediate by a positive divisor, clamped
/// into `i64`.
fn div_clamp(p: i128, d: i128) -> (r: i64)
    requires
        d >= 1,
    ensures
        r as int == sat64(tdiv(p as int, d as int)),
{
    proof {
        lemma_tdiv_bound(p as int, d as int);
    }
    let q: i128 = p / d;
    clamp128(q)
}

impl Fixed {
    /// The fixed-point number zero.
    pub fn zero() -> (r: Fixed)
        ensures
            r.raw == 0,
    {
        Fixed { raw: 0 }
    }

    /// The sum, clamped into range.
    pub open spec fn spec_add(self, other: Fixed) -> Fixed {
        Fixed { raw: sat64(self.raw + other.raw) as i64 }
    }

    /// The difference, clamped into range.
    pub open spec fn spec_sub(self, other: Fixed) -> Fixed {
        Fixed { raw: sat64(self.raw - other.raw) as i64 }
    }

    /// The negation, clamped into range.
    pub open spec fn spec_neg(self) -> Fixed {
        Fixed { raw: sat64(-self.raw) as i64 }
    }

    pub fn add_sat(self, other: Fixed) -> (r: Fixed)
        ensures
            r == self.spec_add(other),
    {
        let wide: i128 = self.raw as i128 + other.raw as i128;
        Fixed { raw: clamp128(wide) }
    }

    pub fn sub_sat(self, other: Fixed) -> (r: Fixed)
        ensures
            r == self.spec_sub(other),
    {
        let wide: i128 = self.raw as i128 - other.raw as i128;
        Fixed { raw: clamp128(wide) }
    }

    pub fn neg_sat(self) -> (r: Fixed)
        ensures
            r == self.spec_neg(),
    {
        let wide: i128 = -(self.raw as i128);
        Fixed { raw: clamp128(wide) }
    }

    /// The product, truncated to the nearest raw step toward zero and clamped
    /// into range.
    pub open spec fn spec_mul(self, other: Fixed) -> Fixed {
        Fixed { raw: sat64(tdiv(self.raw * other.raw, SCALE as int)) as i64 }
    }

    /// The quotient, truncated to the nearest raw step toward zero and
    /// clamped into range.
    pub open spec fn spec_div(self, other: Fixed) -> Fixed
        recommends
            other.raw != 0,
    {
        if other.raw > 0 {
            Fixed { raw: sat64(tdiv(self.raw * SCALE, other.raw as int)) as i64 }
        } else {
            Fixed { raw: sat64(tdiv(-(self.raw * SCALE), -(other.raw as int))) as i64 }
        }
    }

    /// The quotient by a positive integer, truncated toward zero.
    pub open spec fn spec_div_int(self, n: i64) -> Fixed
        recommends
            n > 0,
    {
        Fixed { raw: tdiv(self.raw as int, n as int) as i64 }
    }

    pub fn mul_fix(self, other: Fixed) -> (r: Fixed)
        ensures
            r == self.spec_mul(other),
    {
        proof {
            lemma_i64_mul_fits(self.raw as int, other.raw as int);
        }
        let prod: i128 = (self.raw as i128) * (other.raw as i128);
        Fixed { raw: div_clamp(prod, SCALE as i128) }
    }

    pub fn div_fix(self, other: Fixed) -> (r: Fixed)
        requires
            other.raw != 0,
        ensures
            r == self.spec_div(other),
    {
        proof {
            lemma_i64_mul_fits(self.raw as int, SCALE as int);
        }
        let scaled: i128 = (self.raw as i128) * (SCALE as i128);
        if other.raw > 0 {
            Fixed { raw: div_clamp(scaled, other.raw as i128) }
        } else {
            Fixed { raw: div_clamp(-scaled, -(other.raw as i128)) }
        }
    }

    pub fn div_int(self, n: i64) -> (r: Fixed)
        requires
            n > 0,
        ensures
            r == self.spec_div_int(n),
    {
        proof {
            lemma_tdiv_bound(self.raw as int, n as int);
        }
        Fixed { raw: self.raw / n }
    }

    /// A whole number of units, clamped into range.
    pub open spec fn spec_from_units(n: i64) -> Fixed {
        Fixed { raw: sat64(n * SCALE) as i64 }
    }

    /// A count of thousandths of a unit, clamped into range.
    pub open spec fn spec_from_milli(n: i64) -> Fixed {
        Fixed { raw: sat64(n * (SCALE / 1000)) as i64 }
    }

    pub fn from_units(n: i64) -> (r: Fixed)
        ensures
            r == Fixed::spec_from_units(n),
    {
        proof {
            lemma_i64_mul_fits(n as int, SCALE as int);
        }
        let wide: i128 = (n as i128) * (SCALE as i128);
        Fixed { raw: clamp128(wide) }
    }

    pub fn from_milli(n: i64) -> (r: Fixed)
        ensures
            r == Fixed::spec_from_milli(n),
    {
        proof {
            lemma_i64_mul_fits(n as int, (SCALE / 1000) as int);
        }
        let wide: i128 = (n as i128) * ((SCALE / 1000) as i128);
        Fixed { raw: clamp128(wide) }
    }

    /// The square root, rounded down to the nearest raw step.
    pub open spec fn spec_sqrt(self) -> Fixed
        recommends
            self.raw >= 0,
    {
        Fixed { raw: spec_isqrt(self.raw * SCALE) as i64 }
    }

    pub fn sqrt_fix(self) -> (r: Fixed)
        requires
            self.raw >= 0,
        ensures
            r == self.spec_sqrt(),
            r.raw >= 0,
            r.raw * r.raw <= self.raw * SCALE,
            (r.raw + 1) * (r.raw + 1) > self.raw * SCALE,
    {
        proof {
            lemma_i64_mul_fits(self.raw as int, SCALE as int);
        }
        let n: u128 = (self.raw as u128) * (SCALE as u128);
        // 2^47 squared is 2^94, above any representable self.raw * SCALE.
        let mut lo: u64 = 0;
        let mut hi: u64 = 0x8000_0000_0000;
        proof {
            assert((hi as int) * (hi as int) > n as int) by (nonlinear_arith)
                requires
                    hi == 0x8000_0000_0000,
                    n as int <= 0x7fff_ffff_ffff_ffff * 0x4000_0000,
            ;
        }
        while lo + 1 < hi
            invariant
                lo < hi,
                hi <= 0x8000_0000_0000,
                (lo as int) * (lo as int) <= n as int,
                (hi as int) * (hi as int) > n as int,
            decreases hi - lo,
        {
            let mid: u64 = lo + (hi - lo) / 2;
            proof {
                assert((mid as int) * (mid as int) <= 0x8000_0000_0000 * 0x8000_0000_0000)
                    by (nonlinear_arith)
                    requires
                        0 <= mid as int <= 0x8000_0000_0000,
                ;
            }
            let sq: u128 = (mid as u128) * (mid as u128);
            if sq <= n {
                lo = mid;
            } else {
                hi = mid;
            }
        }
        proof {
            lemma_isqrt_unique(n as int, lo as int);
        }
        Fixed { raw: lo as i64 }
    }
}

/// The integer square root: the unique `r >= 0` with
/// `r * r <= n < (r + 1) * (r + 1)`.
pub open spec fn spec_isqrt(n: int) -> int
    recommends
        n >= 0,
{
    choose|r: int| r >= 0 && #[trigger] (r * r) <= n && (r + 1) * (r + 1) > n
}

/// A witness of the integer square root's property is the integer square
/// root: the property determines it.
pub proof fn lemma_isqrt_unique(n: int, r: int)
    requires
        r >= 0,
        r * r <= n,
        (r + 1) * (r + 1) > n,
    ensures
        spec_isqrt(n) == r,
{
    let s = spec_isqrt(n);
    assert(s >= 0 && s * s <= n && (s + 1) * (s + 1) > n) by {
        assert(exists|x: int| x >= 0 && #[trigger] (x * x) <= n && (x + 1) * (x + 1) > n) by {
            assert(r >= 0 && #[trigger] (r * r) <= n && (r + 1) * (r + 1) > n);
        }
    }
    assert(s == r) by (nonlinear_arith)
        requires
            r >= 0,
            r * r <= n,
            (r + 1) * (r + 1) > n,
            s >= 0,
            s * s <= n,
            (s + 1) * (s + 1) > n,
    ;
}

/// Multiplying by the fixed-point zero gives the fixed-point zero.
pub proof fn lemma_zero_times(a: Fixed)
    ensures
        fx(0).spec_mul(a) == fx(0),
        a.spec_mul(fx(0)) == fx(0),
{
    vstd::arithmetic::mul::lemma_mul_basics(a.raw as int);
    vstd::arithmetic::div_mod::lemma_div_of0(SCALE as int);
}

/// Dividing the fixed-point zero by a positive integer gives zero.
pub proof fn lemma_zero_div_int(n: i64)
    requires
        n > 0,
    ensures
        fx(0).spec_div_int(n) == fx(0),
{
    vstd::arithmetic::div_mod::lemma_div_of0(n as int);
}

} // verus!
