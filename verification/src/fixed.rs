//! Signed 16.16 fixed-point scalars.
//!
//! A scalar is an `i64` holding `value * 65536`. Multiplication and division
//! rescale by the unit and truncate toward zero; every operation saturates at
//! `FX_INF` / `-FX_INF`, so each one is total and its exact result is stated
//! by the spec functions below. `FX_INF` doubles as the "infinite distance"
//! sentinel of the renderer, as an unreachable magnitude.

use vstd::prelude::*;

verus! {

/// The fixed-point unit: the scalar representing one.
pub const FX_ONE: i64 = 65536;

/// The scalar representing two.
pub const FX_TWO: i64 = 131072;

/// Saturation bound and "infinity" sentinel.
pub const FX_INF: i64 = i64::MAX;

/// Clip a mathematical integer into the representable range.
pub open spec fn sat(x: int) -> int {
    if x > FX_INF { FX_INF as int } else if x < -FX_INF { -FX_INF as int } else { x }
}

/// Clip and narrow; the clipped value always fits in an `i64`.
pub open spec fn sat_i64(x: int) -> i64 {
    sat(x) as i64
}

/// Integer division truncating toward zero (the sign convention of
/// hardware division), total apart from a zero divisor.
pub open spec fn tdiv(a: int, b: int) -> int
    recommends b != 0,
{
    let q = abs_i(a) / abs_i(b);
    if (a >= 0) == (b >= 0) { q } else { -q }
}

pub open spec fn abs_i(a: int) -> int {
    if a >= 0 { a } else { -a }
}

/// Saturating fixed-point addition.
pub open spec fn fxadd(a: i64, b: i64) -> i64 {
    sat_i64(a + b)
}

/// Saturating fixed-point subtraction.
pub open spec fn fxsub(a: i64, b: i64) -> i64 {
    sat_i64(a - b)
}

/// Saturating fixed-point multiplication: rescale the double-width product
/// by the unit, truncating toward zero.
pub open spec fn fxmul(a: i64, b: i64) -> i64 {
    sat_i64(tdiv(a * b, FX_ONE as int))
}

/// Saturating fixed-point division. A zero divisor yields the signed
/// saturation bound, mirroring the infinities a float division would give;
/// the renderer documents rather than guards this edge (singular matrices).
pub open spec fn fxdiv(a: i64, b: i64) -> i64 {
    if b == 0 {
        if a >= 0 { FX_INF } else { (-FX_INF) as i64 }
    } else {
        sat_i64(tdiv(a * FX_ONE, b as int))
    }
}

proof fn lemma_mul_bound(a: int, b: int, m: int, n: int)
    by (nonlinear_arith)
    requires
        0 <= m,
        0 <= n,
        -m <= a <= m,
        -n <= b <= n,
    ensures
        -(m * n) <= a * b <= m * n,
{
}

/// Fixed-point addition, saturating at the representable bounds.
pub fn fx_add(a: i64, b: i64) -> (r: i64)
    ensures r == fxadd(a, b),
{
    let s: i128 = a as i128 + b as i128;
    if s > FX_INF as i128 {
        FX_INF
    } else if s < -(FX_INF as i128) {
        -FX_INF
    } else {
        s as i64
    }
}

/// Fixed-point subtraction, saturating at the representable bounds.
pub fn fx_sub(a: i64, b: i64) -> (r: i64)
    ensures r == fxsub(a, b),
{
    let s: i128 = a as i128 - b as i128;
    if s > FX_INF as i128 {
        FX_INF
    } else if s < -(FX_INF as i128) {
        -FX_INF
    } else {
        s as i64
    }
}

/// Fixed-point multiplication: double-width product rescaled by the unit,
/// truncated toward zero, saturated.
pub fn fx_mul(a: i64, b: i64) -> (r: i64)
    ensures r == fxmul(a, b),
{
    proof {
        lemma_mul_bound(a as int, b as int, 0x8000_0000_0000_0000, 0x8000_0000_0000_0000);
    }
    let p: i128 = (a as i128) * (b as i128);
    let q: i128 = match p.checked_div(FX_ONE as i128) {
        Some(q) => q,
        None => {
            proof { assert(false); }
            0
        },
    };
    if q > FX_INF as i128 {
        FX_INF
    } else if q < -(FX_INF as i128) {
        -FX_INF
    } else {
        q as i64
    }
}

/// Fixed-point division: widen the dividend by the unit, divide truncating
/// toward zero, saturate. Division by zero yields the signed bound.
pub fn fx_div(a: i64, b: i64) -> (r: i64)
    ensures r == fxdiv(a, b),
{
    if b == 0 {
        if a >= 0 { FX_INF } else { -FX_INF }
    } else {
        proof {
            lemma_mul_bound(a as int, FX_ONE as int, 0x8000_0000_0000_0000, FX_ONE as int);
        }
        let n: i128 = (a as i128) * (FX_ONE as i128);
        let q: i128 = match n.checked_div(b as i128) {
            Some(q) => q,
            None => {
                proof { assert(false); }
                0
            },
        };
        if q > FX_INF as i128 {
            FX_INF
        } else if q < -(FX_INF as i128) {
            -FX_INF
        } else {
            q as i64
        }
    }
}

/// A microsecond count as fixed-point seconds, truncated.
pub open spec fn fx_from_micros_s(us: u64) -> i64 {
    sat_i64(tdiv(us * FX_ONE, 1000000))
}

pub fn fx_from_micros(us: u64) -> (r: i64)
    ensures r == fx_from_micros_s(us),
{
    let p: i128 = (us as i128) * (FX_ONE as i128);
    let q: i128 = match p.checked_div(1000000) {
        Some(q) => q,
        None => {
            proof { assert(false); }
            0
        },
    };
    if q > FX_INF as i128 {
        FX_INF
    } else if q < -(FX_INF as i128) {
        -FX_INF
    } else {
        q as i64
    }
}

/// Saturating negation.
pub open spec fn fxneg(a: i64) -> i64 {
    sat_i64(-a)
}

pub fn fx_neg(a: i64) -> (r: i64)
    ensures r == fxneg(a),
{
    if a == i64::MIN { i64::MAX } else { -a }
}

/// Scaling by the unit is the identity: one is neutral for `fxmul` on
/// every scalar the saturation bound admits.
pub proof fn lemma_fxmul_one(a: i64)
    requires -FX_INF <= a,
    ensures fxmul(a, FX_ONE) == a,
{
    let p = a * FX_ONE;
    if a >= 0 {
        assert(p >= 0) by (nonlinear_arith)
            requires a >= 0 && p == a * FX_ONE;
        assert(p / (FX_ONE as int) == a) by (nonlinear_arith)
            requires p == a * FX_ONE;
    } else {
        assert(p < 0) by (nonlinear_arith)
            requires a < 0 && p == a * FX_ONE;
        assert((-p) / (FX_ONE as int) == -a) by (nonlinear_arith)
            requires p == a * FX_ONE;
    }
}

/// The product of nonnegative scalars rescales to a nonnegative scalar.
pub proof fn lemma_fxmul_nonneg(a: i64, b: i64)
    requires a >= 0 && b >= 0,
    ensures 0 <= fxmul(a, b) <= FX_INF,
{
    assert(a * b >= 0) by (nonlinear_arith)
        requires a >= 0 && b >= 0;
    assert(tdiv(a * b, FX_ONE as int) >= 0) by (nonlinear_arith)
        requires a * b >= 0;
}

/// Products of whole-unit scalars are exact: no truncation occurs when
/// both factors are whole multiples of the unit and the product stays
/// inside the representable range.
pub proof fn lemma_fxmul_units(j: int, k: int)
    requires
        -0x8000_0000 <= j <= 0x8000_0000,
        -0x8000_0000 <= k <= 0x8000_0000,
        -0x8000_0000 <= j * k <= 0x8000_0000,
    ensures fxmul((j * FX_ONE) as i64, (k * FX_ONE) as i64) == j * k * FX_ONE,
{
    let a = j * FX_ONE;
    let b = k * FX_ONE;
    let p = a * b;
    assert(p == (j * k * FX_ONE) * FX_ONE) by (nonlinear_arith)
        requires a == j * FX_ONE && b == k * FX_ONE && p == a * b;
    vstd::arithmetic::div_mod::lemma_div_multiples_vanish(j * k * FX_ONE, FX_ONE as int);
    if j * k >= 0 {
        assert(p >= 0) by (nonlinear_arith)
            requires p == (j * k * FX_ONE) * FX_ONE && j * k >= 0;
        assert(p / (FX_ONE as int) == j * k * FX_ONE) by (nonlinear_arith)
            requires p == (j * k * FX_ONE) * FX_ONE;
    } else {
        assert(p < 0) by (nonlinear_arith)
            requires p == (j * k * FX_ONE) * FX_ONE && j * k < 0;
        assert((-p) / (FX_ONE as int) == -(j * k * FX_ONE)) by (nonlinear_arith)
            requires p == (j * k * FX_ONE) * FX_ONE;
    }
}

/// Halving an even whole-unit scalar through the fixed division is
/// exact.
pub proof fn lemma_fxdiv_half_units(j: int)
    requires 0 <= j <= 0x8000_0000,
    ensures fxdiv((2 * j * FX_ONE) as i64, FX_TWO) == j * FX_ONE,
{
    let num = (2 * j * FX_ONE) * FX_ONE;
    assert(num == (j * FX_ONE) * (FX_TWO as int)) by (nonlinear_arith)
        requires num == (2 * j * FX_ONE) * FX_ONE;
    assert(num >= 0) by (nonlinear_arith)
        requires num == (j * FX_ONE) * (FX_TWO as int) && j >= 0;
    vstd::arithmetic::div_mod::lemma_div_multiples_vanish(j * FX_ONE, FX_TWO as int);
    assert(num / (FX_TWO as int) == j * FX_ONE) by (nonlinear_arith)
        requires num == (j * FX_ONE) * (FX_TWO as int);
}

/// A nonpositive scalar scaled by a nonnegative one stays nonpositive.
pub proof fn lemma_fxmul_nonpos_nonneg(a: i64, b: i64)
    requires a <= 0 && b >= 0,
    ensures fxmul(a, b) <= 0,
{
    assert(a * b <= 0) by (nonlinear_arith)
        requires a <= 0 && b >= 0;
    assert(tdiv(a * b, FX_ONE as int) <= 0) by (nonlinear_arith)
        requires a * b <= 0;
}

/// A product of nonpositive scalars rescales to a nonnegative scalar.
pub proof fn lemma_fxmul_nonpos_nonpos(a: i64, b: i64)
    requires a <= 0 && b <= 0,
    ensures fxmul(a, b) >= 0,
{
    assert(a * b >= 0) by (nonlinear_arith)
        requires a <= 0 && b <= 0;
    assert(tdiv(a * b, FX_ONE as int) >= 0) by (nonlinear_arith)
        requires a * b >= 0;
}

/// The quotient of nonnegative scalars is nonnegative (a zero divisor
/// saturates high).
pub proof fn lemma_fxdiv_nonneg(a: i64, b: i64)
    requires a >= 0 && b >= 0,
    ensures fxdiv(a, b) >= 0,
{
    if b != 0 {
        assert(a * FX_ONE >= 0) by (nonlinear_arith)
            requires a >= 0;
        assert(tdiv(a * FX_ONE, b as int) >= 0) by (nonlinear_arith)
            requires a * FX_ONE >= 0 && b > 0;
    }
}

/// `r` is the integer square root of `n`.
pub open spec fn is_sqrt(n: int, r: int) -> bool {
    0 <= r && r * r <= n && n < (r + 1) * (r + 1)
}

/// The integer square root, as a mathematical function.
pub open spec fn sqrt_i(n: int) -> int {
    choose|r: int| is_sqrt(n, r)
}

pub proof fn lemma_sqrt_exists(n: nat)
    ensures is_sqrt(n as int, sqrt_i(n as int)),
    decreases n,
{
    if n == 0 {
        assert(is_sqrt(0, 0)) by (nonlinear_arith);
        assert(sqrt_i(0) == choose|r: int| is_sqrt(0, r));
    } else {
        lemma_sqrt_exists((n - 1) as nat);
        let r = sqrt_i(n - 1);
        if (r + 1) * (r + 1) <= n {
            assert(n - 1 < (r + 1) * (r + 1));
            assert(is_sqrt(n as int, r + 1)) by (nonlinear_arith)
                requires
                    0 <= r,
                    (r + 1) * (r + 1) <= n,
                    n - 1 < (r + 1) * (r + 1);
        } else {
            assert(is_sqrt(n as int, r));
        }
    }
}

pub proof fn lemma_sqrt_unique(n: int, r: int)
    requires is_sqrt(n, r),
    ensures r == sqrt_i(n),
{
    let s = sqrt_i(n);
    assert(is_sqrt(n, s));
    assert(r == s) by (nonlinear_arith)
        requires is_sqrt(n, r) && is_sqrt(n, s);
}

/// The fixed-point square root of a nonnegative scalar is nonnegative
/// and far below the saturation bound.
pub proof fn lemma_fxsqrt_bounds(x: i64)
    requires x >= 0,
    ensures 0 <= fxsqrt(x) < 0x100_0000_0000,
{
    let n = x * FX_ONE;
    assert(0 <= n < 0x8000_0000_0000_0000 * 0x10000int) by (nonlinear_arith)
        requires 0 <= x < 0x8000_0000_0000_0000 && n == x * FX_ONE;
    lemma_sqrt_exists(n as nat);
    let r = sqrt_i(n);
    assert(r < 0x100_0000_0000) by (nonlinear_arith)
        requires 0 <= r && r * r <= n && n < 0x8000_0000_0000_0000 * 0x10000int;
}

/// The fixed-point square root: the integer square root of the value
/// widened by one more unit factor, so the result is again fixed-point.
pub open spec fn fxsqrt(x: i64) -> i64
    recommends x >= 0,
{
    sqrt_i(x * FX_ONE) as i64
}

/// Fixed-point square root by binary search on the integer square root.
pub fn fx_sqrt(x: i64) -> (r: i64)
    requires x >= 0,
    ensures
        r == fxsqrt(x),
        0 <= r < 0x100_0000_0000,
{
    proof {
        lemma_mul_bound(x as int, FX_ONE as int, 0x8000_0000_0000_0000, FX_ONE as int);
    }
    let n: u128 = (x as u128) * (FX_ONE as u128);
    let mut lo: u128 = 0;
    let mut hi: u128 = 0x100_0000_0000;
    proof {
        assert((0x100_0000_0000 as int) * (0x100_0000_0000 as int) > n) by (nonlinear_arith)
            requires n < 0x8000_0000_0000_0000 * 0x10000int;
    }
    while lo + 1 < hi
        invariant
            0 <= lo < hi <= 0x100_0000_0000,
            lo * lo <= n,
            n < hi * hi,
        decreases hi - lo,
    {
        let mid: u128 = (lo + hi) / 2;
        proof {
            lemma_mul_bound(mid as int, mid as int, 0x100_0000_0000, 0x100_0000_0000);
        }
        if mid * mid <= n {
            lo = mid;
        } else {
            hi = mid;
        }
    }
    proof {
        assert(is_sqrt(n as int, lo as int));
        lemma_sqrt_unique(n as int, lo as int);
    }
    lo as i64
}

/// Clamp a scalar into `[lo, hi]`.
pub open spec fn fxclamp(x: i64, lo: i64, hi: i64) -> i64
    recommends lo <= hi,
{
    if x < lo { lo } else if x > hi { hi } else { x }
}

pub fn fx_clamp(x: i64, lo: i64, hi: i64) -> (r: i64)
    requires lo <= hi,
    ensures r == fxclamp(x, lo, hi),
{
    if x < lo { lo } else if x > hi { hi } else { x }
}

/// The nonnegative part of a scalar, as in `max(x, 0)`.
pub open spec fn fxmax0(x: i64) -> i64 {
    if x >= 0 { x } else { 0 }
}

pub fn fx_max0(x: i64) -> (r: i64)
    ensures r == fxmax0(x),
{
    if x >= 0 { x } else { 0 }
}

/// Truncating integer division of scalars (no unit rescale), used by the
/// polynomial evaluations and the accumulation average.
pub open spec fn idiv(a: i64, b: i64) -> i64
    recommends b > 0,
{
    tdiv(a as int, b as int) as i64
}

pub fn fx_idiv(a: i64, b: i64) -> (r: i64)
    requires b > 0,
    ensures r == idiv(a, b),
{
    match a.checked_div(b) {
        Some(q) => q,
        None => {
            proof { assert(false); }
            0
        },
    }
}

} // verus!
