//! Fixed-point circular functions.
//!
//! Angles are fixed-point radians. An angle is first reduced into
//! `(-pi, pi]`, then folded into `[-pi/2, pi/2]` by the half-turn
//! symmetries, and the sine or cosine is evaluated there by a short
//! truncated Taylor polynomial. The exact fixed-point value of each
//! function is given by its `_s` spec mirror.

use vstd::prelude::*;
use crate::fixed::{fxadd, fxsub, fxmul, fxdiv, idiv, fx_add, fx_sub, fx_mul, fx_div,
    fx_idiv, FX_ONE};

verus! {

/// Pi in fixed-point radians, rounded to the nearest unit step.
pub const FX_PI: i64 = 205887;

/// Pi over two in fixed-point radians.
pub const FX_HALF_PI: i64 = 102944;

/// Two pi in fixed-point radians.
pub const FX_TWO_PI: i64 = 411775;

/// An arbitrary angle folded into `(-FX_PI, FX_TWO_PI - FX_PI]`.
pub open spec fn reduce_s(a: i64) -> i64 {
    let r = a % FX_TWO_PI;
    if r > FX_PI { (r - FX_TWO_PI) as i64 } else { r as i64 }
}

pub fn reduce(a: i64) -> (r: i64)
    ensures r == reduce_s(a),
{
    let m: i64 = match a.checked_rem_euclid(FX_TWO_PI) {
        Some(m) => m,
        None => {
            proof { assert(false); }
            0
        },
    };
    if m > FX_PI { m - FX_TWO_PI } else { m }
}

/// Truncated Taylor polynomial for the sine on `[-pi/2, pi/2]`.
pub open spec fn sin_poly_s(t: i64) -> i64 {
    let t2 = fxmul(t, t);
    let t3 = fxmul(t2, t);
    let t5 = fxmul(t3, t2);
    let t7 = fxmul(t5, t2);
    fxsub(fxadd(fxsub(t, idiv(t3, 6)), idiv(t5, 120)), idiv(t7, 5040))
}

fn sin_poly(t: i64) -> (r: i64)
    ensures r == sin_poly_s(t),
{
    let t2 = fx_mul(t, t);
    let t3 = fx_mul(t2, t);
    let t5 = fx_mul(t3, t2);
    let t7 = fx_mul(t5, t2);
    fx_sub(fx_add(fx_sub(t, fx_idiv(t3, 6)), fx_idiv(t5, 120)), fx_idiv(t7, 5040))
}

/// Truncated Taylor polynomial for the cosine on `[-pi/2, pi/2]`.
pub open spec fn cos_poly_s(t: i64) -> i64 {
    let t2 = fxmul(t, t);
    let t4 = fxmul(t2, t2);
    let t6 = fxmul(t4, t2);
    fxsub(fxadd(fxsub(FX_ONE, idiv(t2, 2)), idiv(t4, 24)), idiv(t6, 720))
}

fn cos_poly(t: i64) -> (r: i64)
    ensures r == cos_poly_s(t),
{
    let t2 = fx_mul(t, t);
    let t4 = fx_mul(t2, t2);
    let t6 = fx_mul(t4, t2);
    fx_sub(fx_add(fx_sub(FX_ONE, fx_idiv(t2, 2)), fx_idiv(t4, 24)), fx_idiv(t6, 720))
}

/// The fixed-point sine of an arbitrary fixed-point angle.
pub open spec fn sin_s(a: i64) -> i64 {
    let t = reduce_s(a);
    if t > FX_HALF_PI {
        sin_poly_s((FX_PI - t) as i64)
    } else if t < -FX_HALF_PI {
        sin_poly_s((-FX_PI - t) as i64)
    } else {
        sin_poly_s(t)
    }
}

pub fn fx_sin(a: i64) -> (r: i64)
    ensures r == sin_s(a),
{
    let t = reduce(a);
    if t > FX_HALF_PI {
        sin_poly(FX_PI - t)
    } else if t < -FX_HALF_PI {
        sin_poly(-FX_PI - t)
    } else {
        sin_poly(t)
    }
}

/// The fixed-point cosine of an arbitrary fixed-point angle.
pub open spec fn cos_s(a: i64) -> i64 {
    let t = reduce_s(a);
    if t > FX_HALF_PI {
        (-cos_poly_s((FX_PI - t) as i64)) as i64
    } else if t < -FX_HALF_PI {
        (-cos_poly_s((FX_PI + t) as i64)) as i64
    } else {
        cos_poly_s(t)
    }
}

pub fn fx_cos(a: i64) -> (r: i64)
    ensures r == cos_s(a),
{
    let t = reduce(a);
    if t > FX_HALF_PI {
        let c = cos_poly(FX_PI - t);
        proof { lemma_cos_poly_bounded(((FX_PI - t) as i64)); }
        -c
    } else if t < -FX_HALF_PI {
        let c = cos_poly(FX_PI + t);
        proof { lemma_cos_poly_bounded(((FX_PI + t) as i64)); }
        -c
    } else {
        cos_poly(t)
    }
}

/// The cosine polynomial never saturates, so negating it cannot overflow.
proof fn lemma_cos_poly_bounded(t: i64)
    ensures -0x8000_0000_0000_0000 < cos_poly_s(t),
{
}

/// The fixed-point tangent: sine over cosine, with the saturated
/// quotient of `fxdiv` at a vanishing cosine.
pub open spec fn tan_s(a: i64) -> i64 {
    fxdiv(sin_s(a), cos_s(a))
}

pub fn fx_tan(a: i64) -> (r: i64)
    ensures r == tan_s(a),
{
    let s = fx_sin(a);
    let c = fx_cos(a);
    fx_div(s, c)
}

} // verus!
