//! Four-component vectors over fixed-point scalars.
//!
//! `w` carries homogeneous-coordinate or alpha semantics depending on
//! context; the dot product (and hence lengths and normalization) reads the
//! spatial components only. Every operation returns a new value and its
//! exact fixed-point result is given by the matching `_s` spec function.

use vstd::prelude::*;
use crate::fixed::{fxadd, fxsub, fxmul, fxdiv, fxsqrt, fx_add, fx_sub, fx_mul, fx_div,
    fx_sqrt, tdiv, FX_ONE, FX_INF};

verus! {

#[derive(Clone, Copy, Debug, PartialEq, Eq, Structural)]
pub struct Vector {
    pub x: i64,
    pub y: i64,
    pub z: i64,
    pub w: i64,
}

impl Vector {
    /// Every component is within the saturating range (the one `i64`
    /// value below `-FX_INF` is never produced by the scalar ops).
    pub open spec fn bounded(self) -> bool {
        -FX_INF <= self.x && -FX_INF <= self.y && -FX_INF <= self.z && -FX_INF <= self.w
    }

    pub open spec fn zero_s() -> Vector {
        Vector { x: 0, y: 0, z: 0, w: 0 }
    }

    pub open spec fn add_s(a: Vector, b: Vector) -> Vector {
        Vector {
            x: fxadd(a.x, b.x),
            y: fxadd(a.y, b.y),
            z: fxadd(a.z, b.z),
            w: fxadd(a.w, b.w),
        }
    }

    pub open spec fn sub_s(a: Vector, b: Vector) -> Vector {
        Vector {
            x: fxsub(a.x, b.x),
            y: fxsub(a.y, b.y),
            z: fxsub(a.z, b.z),
            w: fxsub(a.w, b.w),
        }
    }

    pub open spec fn mul_s(a: Vector, b: Vector) -> Vector {
        Vector {
            x: fxmul(a.x, b.x),
            y: fxmul(a.y, b.y),
            z: fxmul(a.z, b.z),
            w: fxmul(a.w, b.w),
        }
    }

    pub open spec fn scale_s(a: Vector, s: i64) -> Vector {
        Vector {
            x: fxmul(a.x, s),
            y: fxmul(a.y, s),
            z: fxmul(a.z, s),
            w: fxmul(a.w, s),
        }
    }

    /// The dot product reads x, y, z only; w is excluded by design.
    pub open spec fn dot_s(a: Vector, b: Vector) -> i64 {
        fxadd(fxadd(fxmul(a.x, b.x), fxmul(a.y, b.y)), fxmul(a.z, b.z))
    }

    pub open spec fn cross_s(a: Vector, b: Vector) -> Vector {
        Vector {
            x: fxsub(fxmul(a.y, b.z), fxmul(a.z, b.y)),
            y: fxsub(fxmul(a.z, b.x), fxmul(a.x, b.z)),
            z: fxsub(fxmul(a.x, b.y), fxmul(a.y, b.x)),
            w: 0,
        }
    }

    pub open spec fn length2_s(a: Vector) -> i64 {
        Vector::dot_s(a, a)
    }

    pub open spec fn length_s(a: Vector) -> i64 {
        fxsqrt(Vector::length2_s(a))
    }

    /// Normalization of the zero vector is the zero vector, a defined
    /// fallback rather than an error. The reciprocal of the length
    /// truncates, so a vector longer than the unit's square (65536
    /// units) also collapses to zero: direction survives normalization
    /// only below that magnitude.
    pub open spec fn normalize_s(a: Vector) -> Vector {
        let m = Vector::length_s(a);
        if m == 0 {
            Vector::zero_s()
        } else {
            Vector::scale_s(a, fxdiv(FX_ONE, m))
        }
    }

    pub open spec fn lerp_s(a: Vector, b: Vector, t: i64) -> Vector {
        Vector::add_s(a, Vector::scale_s(Vector::sub_s(b, a), t))
    }

    pub open spec fn reflect_s(a: Vector, n: Vector) -> Vector {
        let d = Vector::dot_s(a, n);
        Vector::sub_s(a, Vector::scale_s(n, fxadd(d, d)))
    }

    pub fn raw(&self) -> (r: [i64; 4])
        ensures
            r@.len() == 4,
            r@[0] == self.x && r@[1] == self.y && r@[2] == self.z && r@[3] == self.w,
    {
        [self.x, self.y, self.z, self.w]
    }

    pub fn x(&self) -> (r: i64)
        ensures r == self.x,
    {
        self.x
    }

    pub fn y(&self) -> (r: i64)
        ensures r == self.y,
    {
        self.y
    }

    pub fn z(&self) -> (r: i64)
        ensures r == self.z,
    {
        self.z
    }

    pub fn w(&self) -> (r: i64)
        ensures r == self.w,
    {
        self.w
    }

    pub fn set_w(&mut self, w: i64)
        ensures *final(self) == (Vector { w, ..*old(self) }),
    {
        self.w = w;
    }

    pub fn r(&self) -> (r: i64)
        ensures r == self.x,
    {
        self.x
    }

    pub fn g(&self) -> (r: i64)
        ensures r == self.y,
    {
        self.y
    }

    pub fn b(&self) -> (r: i64)
        ensures r == self.z,
    {
        self.z
    }

    pub fn a(&self) -> (r: i64)
        ensures r == self.w,
    {
        self.w
    }

    pub fn new(x: i64, y: i64, z: i64, w: i64) -> (r: Vector)
        ensures r == (Vector { x, y, z, w }),
    {
        Vector { x, y, z, w }
    }

    pub fn zero() -> (r: Vector)
        ensures r == Vector::zero_s(),
    {
        Vector { x: 0, y: 0, z: 0, w: 0 }
    }

    pub fn one() -> (r: Vector)
        ensures r == (Vector { x: FX_ONE, y: FX_ONE, z: FX_ONE, w: FX_ONE }),
    {
        Vector { x: FX_ONE, y: FX_ONE, z: FX_ONE, w: FX_ONE }
    }

    pub fn broadcast(scalar: i64) -> (r: Vector)
        ensures r == (Vector { x: scalar, y: scalar, z: scalar, w: scalar }),
    {
        Vector { x: scalar, y: scalar, z: scalar, w: scalar }
    }

    pub fn add(vec1: &Vector, vec2: &Vector) -> (r: Vector)
        ensures r == Vector::add_s(*vec1, *vec2),
    {
        Vector {
            x: fx_add(vec1.x, vec2.x),
            y: fx_add(vec1.y, vec2.y),
            z: fx_add(vec1.z, vec2.z),
            w: fx_add(vec1.w, vec2.w),
        }
    }

    pub fn sub(vec1: &Vector, vec2: &Vector) -> (r: Vector)
        ensures r == Vector::sub_s(*vec1, *vec2),
    {
        Vector {
            x: fx_sub(vec1.x, vec2.x),
            y: fx_sub(vec1.y, vec2.y),
            z: fx_sub(vec1.z, vec2.z),
            w: fx_sub(vec1.w, vec2.w),
        }
    }

    pub fn mul(vec1: &Vector, vec2: &Vector) -> (r: Vector)
        ensures r == Vector::mul_s(*vec1, *vec2),
    {
        Vector {
            x: fx_mul(vec1.x, vec2.x),
            y: fx_mul(vec1.y, vec2.y),
            z: fx_mul(vec1.z, vec2.z),
            w: fx_mul(vec1.w, vec2.w),
        }
    }

    pub fn scale(vec1: &Vector, scalar: i64) -> (r: Vector)
        ensures r == Vector::scale_s(*vec1, scalar),
    {
        Vector {
            x: fx_mul(vec1.x, scalar),
            y: fx_mul(vec1.y, scalar),
            z: fx_mul(vec1.z, scalar),
            w: fx_mul(vec1.w, scalar),
        }
    }

    pub fn dot(vec1: &Vector, vec2: &Vector) -> (r: i64)
        ensures r == Vector::dot_s(*vec1, *vec2),
    {
        fx_add(
            fx_add(fx_mul(vec1.x, vec2.x), fx_mul(vec1.y, vec2.y)),
            fx_mul(vec1.z, vec2.z),
        )
    }

    pub fn cross(vec1: &Vector, vec2: &Vector) -> (r: Vector)
        ensures r == Vector::cross_s(*vec1, *vec2),
    {
        Vector {
            x: fx_sub(fx_mul(vec1.y, vec2.z), fx_mul(vec1.z, vec2.y)),
            y: fx_sub(fx_mul(vec1.z, vec2.x), fx_mul(vec1.x, vec2.z)),
            z: fx_sub(fx_mul(vec1.x, vec2.y), fx_mul(vec1.y, vec2.x)),
            w: 0,
        }
    }

    pub fn length2(vec1: &Vector) -> (r: i64)
        ensures
            r == Vector::length2_s(*vec1),
            r >= 0,
    {
        proof { lemma_length2_nonneg(*vec1); }
        Vector::dot(vec1, vec1)
    }

    pub fn length(vec1: &Vector) -> (r: i64)
        ensures
            r == Vector::length_s(*vec1),
            r >= 0,
    {
        let l2 = Vector::length2(vec1);
        fx_sqrt(l2)
    }

    pub fn normalize(vec1: &Vector) -> (r: Vector)
        ensures r == Vector::normalize_s(*vec1),
    {
        let magnitude = Vector::length(vec1);
        if magnitude == 0 {
            return Vector::zero();
        }
        Vector::scale(vec1, fx_div(FX_ONE, magnitude))
    }

    pub fn lerp(vec1: &Vector, vec2: &Vector, t: i64) -> (r: Vector)
        ensures r == Vector::lerp_s(*vec1, *vec2, t),
    {
        Vector::add(vec1, &Vector::scale(&Vector::sub(vec2, vec1), t))
    }

    pub fn reflect(vec1: &Vector, normal: &Vector) -> (r: Vector)
        ensures r == Vector::reflect_s(*vec1, *normal),
    {
        let dot_product = Vector::dot(vec1, normal);
        Vector::sub(vec1, &Vector::scale(normal, fx_add(dot_product, dot_product)))
    }
}

/// A scalar times itself never rescales to a negative value.
pub proof fn lemma_fxmul_self_nonneg(a: i64)
    ensures fxmul(a, a) >= 0,
{
    assert(a * a >= 0) by (nonlinear_arith);
    assert(tdiv(a * a, FX_ONE as int) >= 0) by (nonlinear_arith)
        requires a * a >= 0;
}

/// The squared length of any vector is nonnegative.
pub proof fn lemma_length2_nonneg(v: Vector)
    ensures Vector::length2_s(v) >= 0,
{
    lemma_fxmul_self_nonneg(v.x);
    lemma_fxmul_self_nonneg(v.y);
    lemma_fxmul_self_nonneg(v.z);
}

} // verus!
