//! Fixed-point sine and decaying exponential.
//!
//! The analytic solver needs `sin` and `exp` of fixed-point arguments.  Both
//! are computed by truncated Taylor series after range reduction, and each
//! contract states the exact truncated series the code evaluates, so a caller
//! knows the result to the last raw step.

use crate::fixed::fx;
use crate::fixed::trem;
use crate::fixed::Fixed;
use crate::fixed::SCALE;
use vstd::prelude::*;

verus! {

/// Two pi in raw fixed-point steps.
pub const TWO_PI_RAW: i64 = 6_283_185_307;

/// Pi in raw fixed-point steps.
pub const PI_RAW: i64 = 3_141_592_653;

/// The angle congruent to `x` modulo two pi (as represented) that lies
/// within about [-pi, pi], in raw steps.
pub open spec fn spec_reduce_angle(x: int) -> int {
    let r = trem(x, TWO_PI_RAW as int);
    if r > PI_RAW {
        r - TWO_PI_RAW
    } else if r < -(PI_RAW as int) {
        r + TWO_PI_RAW
    } else {
        r
    }
}

fn reduce_angle(x: Fixed) -> (r: Fixed)
    ensures
        r.raw == spec_reduce_angle(x.raw as int),
        -(PI_RAW as int) <= r.raw <= PI_RAW,
{
    let rem: i64 = x.raw % TWO_PI_RAW;
    if rem > PI_RAW {
        Fixed { raw: rem - TWO_PI_RAW }
    } else if rem < -PI_RAW {
        Fixed { raw: rem + TWO_PI_RAW }
    } else {
        Fixed { raw: rem }
    }
}

/// The truncated Taylor polynomial for the sine of a reduced angle:
/// `x (1 - (x^2/6)(1 - (x^2/20)(1 - (x^2/42)(1 - (x^2/72)(1 - (x^2/110)(1 - x^2/156))))))`,
/// every product and quotient truncated to raw steps.
pub open spec fn spec_sin_poly(x: Fixed) -> Fixed {
    let one = fx(SCALE);
    let x2 = x.spec_mul(x);
    let a156 = one.spec_sub(x2.spec_div_int(156));
    let a110 = one.spec_sub(x2.spec_div_int(110).spec_mul(a156));
    let a72 = one.spec_sub(x2.spec_div_int(72).spec_mul(a110));
    let a42 = one.spec_sub(x2.spec_div_int(42).spec_mul(a72));
    let a20 = one.spec_sub(x2.spec_div_int(20).spec_mul(a42));
    let a6 = one.spec_sub(x2.spec_div_int(6).spec_mul(a20));
    x.spec_mul(a6)
}

/// The sine of `x`: the angle is reduced to [-pi, pi], then the truncated
/// series is evaluated.
pub open spec fn spec_sin(x: Fixed) -> Fixed {
    spec_sin_poly(fx(spec_reduce_angle(x.raw as int) as i64))
}

pub fn sin_fix(x: Fixed) -> (r: Fixed)
    ensures
        r == spec_sin(x),
{
    let one = Fixed { raw: SCALE };
    let xr = reduce_angle(x);
    let x2 = xr.mul_fix(xr);
    let a156 = one.sub_sat(x2.div_int(156));
    let a110 = one.sub_sat(x2.div_int(110).mul_fix(a156));
    let a72 = one.sub_sat(x2.div_int(72).mul_fix(a110));
    let a42 = one.sub_sat(x2.div_int(42).mul_fix(a72));
    let a20 = one.sub_sat(x2.div_int(20).mul_fix(a42));
    let a6 = one.sub_sat(x2.div_int(6).mul_fix(a20));
    xr.mul_fix(a6)
}

/// The truncated Taylor polynomial for `exp(-x)` on arguments up to one:
/// `1 - x(1 - (x/2)(1 - (x/3)(... (1 - x/12) ...)))`,
/// every product and quotient truncated to raw steps.
pub open spec fn spec_exp_series(x: Fixed) -> Fixed {
    let one = fx(SCALE);
    let a12 = one.spec_sub(x.spec_div_int(12));
    let a11 = one.spec_sub(x.spec_div_int(11).spec_mul(a12));
    let a10 = one.spec_sub(x.spec_div_int(10).spec_mul(a11));
    let a9 = one.spec_sub(x.spec_div_int(9).spec_mul(a10));
    let a8 = one.spec_sub(x.spec_div_int(8).spec_mul(a9));
    let a7 = one.spec_sub(x.spec_div_int(7).spec_mul(a8));
    let a6 = one.spec_sub(x.spec_div_int(6).spec_mul(a7));
    let a5 = one.spec_sub(x.spec_div_int(5).spec_mul(a6));
    let a4 = one.spec_sub(x.spec_div_int(4).spec_mul(a5));
    let a3 = one.spec_sub(x.spec_div_int(3).spec_mul(a4));
    let a2 = one.spec_sub(x.spec_div_int(2).spec_mul(a3));
    one.spec_sub(x.spec_mul(a2))
}

/// Clamp into [0, 1].
pub open spec fn spec_clamp_unit(y: Fixed) -> Fixed {
    if y.raw < 0 {
        fx(0)
    } else if y.raw > SCALE {
        fx(SCALE)
    } else {
        y
    }
}

/// `exp(-x)` for `x >= 0`: the argument is halved until it is at most one,
/// the truncated series applied, and the result squared back up.  The value
/// always lies within [0, 1].
pub open spec fn spec_exp_neg(x: Fixed) -> Fixed
    recommends
        x.raw >= 0,
    decreases x.raw,
{
    if x.raw <= SCALE {
        spec_clamp_unit(spec_exp_series(x))
    } else {
        let h = spec_exp_neg(x.spec_div_int(2));
        h.spec_mul(h)
    }
}

/// The exponential of `-x` extended to every argument: a negative `x` uses
/// the reciprocal of `exp(-(-x))`, saturating when that reciprocal is not
/// representable.
pub open spec fn spec_exp(x: Fixed) -> Fixed {
    if x.raw <= 0 {
        spec_exp_neg(x.spec_neg())
    } else {
        let y = spec_exp_neg(x);
        if y.raw == 0 {
            fx(i64::MAX)
        } else {
            fx(SCALE).spec_div(y)
        }
    }
}

fn exp_neg(x: Fixed) -> (r: Fixed)
    requires
        x.raw >= 0,
    ensures
        r == spec_exp_neg(x),
    decreases x.raw,
{
    if x.raw <= SCALE {
        let one = Fixed { raw: SCALE };
        let a12 = one.sub_sat(x.div_int(12));
        let a11 = one.sub_sat(x.div_int(11).mul_fix(a12));
        let a10 = one.sub_sat(x.div_int(10).mul_fix(a11));
        let a9 = one.sub_sat(x.div_int(9).mul_fix(a10));
        let a8 = one.sub_sat(x.div_int(8).mul_fix(a9));
        let a7 = one.sub_sat(x.div_int(7).mul_fix(a8));
        let a6 = one.sub_sat(x.div_int(6).mul_fix(a7));
        let a5 = one.sub_sat(x.div_int(5).mul_fix(a6));
        let a4 = one.sub_sat(x.div_int(4).mul_fix(a5));
        let a3 = one.sub_sat(x.div_int(3).mul_fix(a4));
        let a2 = one.sub_sat(x.div_int(2).mul_fix(a3));
        let y = one.sub_sat(x.mul_fix(a2));
        if y.raw < 0 {
            Fixed { raw: 0 }
        } else if y.raw > SCALE {
            Fixed { raw: SCALE }
        } else {
            y
        }
    } else {
        proof {
            vstd::arithmetic::div_mod::lemma_div_decreases(x.raw as int, 2);
            vstd::arithmetic::div_mod::lemma_div_pos_is_pos(x.raw as int, 2);
        }
        let h = exp_neg(x.div_int(2));
        h.mul_fix(h)
    }
}

/// The exponential `exp(x)`, as [`spec_exp`] states it.
pub fn exp_fix(x: Fixed) -> (r: Fixed)
    ensures
        r == spec_exp(x),
{
    if x.raw <= 0 {
        exp_neg(x.neg_sat())
    } else {
        let y = exp_neg(x);
        if y.raw == 0 {
            Fixed { raw: i64::MAX }
        } else {
            let one = Fixed { raw: SCALE };
            one.div_fix(y)
        }
    }
}

/// The decaying exponential never escapes the unit interval:
/// `0 <= exp(-x) <= 1` for every nonnegative argument.
pub proof fn lemma_exp_neg_unit(x: Fixed)
    requires
        x.raw >= 0,
    ensures
        0 <= spec_exp_neg(x).raw <= SCALE,
    decreases x.raw,
{
    if x.raw <= SCALE {
    } else {
        let half = x.spec_div_int(2);
        vstd::arithmetic::div_mod::lemma_div_decreases(x.raw as int, 2);
        vstd::arithmetic::div_mod::lemma_div_pos_is_pos(x.raw as int, 2);
        lemma_exp_neg_unit(half);
        let h = spec_exp_neg(half);
        assert(0 <= h.raw * h.raw <= SCALE * SCALE) by (nonlinear_arith)
            requires
                0 <= h.raw <= SCALE,
        ;
        vstd::arithmetic::div_mod::lemma_div_is_ordered(h.raw * h.raw, SCALE * SCALE, SCALE as int);
        assert((SCALE * SCALE) / (SCALE as int) == SCALE) by (nonlinear_arith);
        vstd::arithmetic::div_mod::lemma_div_pos_is_pos(h.raw * h.raw, SCALE as int);
    }
}

/// The sine of the fixed-point zero is zero: the reduced angle is zero and
/// the series' leading factor vanishes.
pub proof fn lemma_sin_zero()
    ensures
        spec_sin(fx(0)) == fx(0),
{
    vstd::arithmetic::div_mod::lemma_small_mod(0, TWO_PI_RAW as nat);
    assert(spec_reduce_angle(0) == 0);
    let x = fx(0);
    let one = fx(SCALE);
    crate::fixed::lemma_zero_times(x);
    let x2 = x.spec_mul(x);
    crate::fixed::lemma_zero_div_int(156);
    crate::fixed::lemma_zero_div_int(110);
    crate::fixed::lemma_zero_div_int(72);
    crate::fixed::lemma_zero_div_int(42);
    crate::fixed::lemma_zero_div_int(20);
    crate::fixed::lemma_zero_div_int(6);
    let a156 = one.spec_sub(x2.spec_div_int(156));
    crate::fixed::lemma_zero_times(a156);
    let a110 = one.spec_sub(x2.spec_div_int(110).spec_mul(a156));
    crate::fixed::lemma_zero_times(a110);
    let a72 = one.spec_sub(x2.spec_div_int(72).spec_mul(a110));
    crate::fixed::lemma_zero_times(a72);
    let a42 = one.spec_sub(x2.spec_div_int(42).spec_mul(a72));
    crate::fixed::lemma_zero_times(a42);
    let a20 = one.spec_sub(x2.spec_div_int(20).spec_mul(a42));
    crate::fixed::lemma_zero_times(a20);
    let a6 = one.spec_sub(x2.spec_div_int(6).spec_mul(a20));
    crate::fixed::lemma_zero_times(a6);
    assert(spec_sin_poly(x) == fx(0));
}

} // verus!
