//! 4x4 matrices over fixed-point scalars, row-major as used by the
//! lookat/perspective builders.
//!
//! Values are immutable; named constructors and combinators return new
//! matrices. Every operation's exact fixed-point result is stated by its
//! `_s` spec mirror. The inverse divides by the determinant without
//! guarding the singular case: a zero determinant yields the saturated
//! reciprocal, a documented numerical edge rather than an error.

use vstd::prelude::*;
use crate::fixed::{fxadd, fxsub, fxmul, fxdiv, fxneg, idiv, fx_add, fx_sub, fx_mul,
    fx_div, fx_neg, fx_idiv, FX_ONE, FX_TWO};
use crate::trig::{tan_s, fx_tan};
use crate::vector::Vector;

verus! {

#[derive(Clone, Copy, Debug, PartialEq, Eq, Structural)]
pub struct Matrix {
    pub m00: i64, pub m01: i64, pub m02: i64, pub m03: i64,
    pub m10: i64, pub m11: i64, pub m12: i64, pub m13: i64,
    pub m20: i64, pub m21: i64, pub m22: i64, pub m23: i64,
    pub m30: i64, pub m31: i64, pub m32: i64, pub m33: i64,
}

impl Matrix {
    pub open spec fn null_s() -> Matrix {
        Matrix {
            m00: 0, m01: 0, m02: 0, m03: 0,
            m10: 0, m11: 0, m12: 0, m13: 0,
            m20: 0, m21: 0, m22: 0, m23: 0,
            m30: 0, m31: 0, m32: 0, m33: 0,
        }
    }

    pub open spec fn identity_s() -> Matrix {
        Matrix {
            m00: FX_ONE, m01: 0, m02: 0, m03: 0,
            m10: 0, m11: FX_ONE, m12: 0, m13: 0,
            m20: 0, m21: 0, m22: FX_ONE, m23: 0,
            m30: 0, m31: 0, m32: 0, m33: FX_ONE,
        }
    }

    pub open spec fn scale_els(a: Matrix, s: i64) -> Matrix {
        Matrix {
            m00: fxmul(a.m00, s), m01: fxmul(a.m01, s), m02: fxmul(a.m02, s), m03: fxmul(a.m03, s),
            m10: fxmul(a.m10, s), m11: fxmul(a.m11, s), m12: fxmul(a.m12, s), m13: fxmul(a.m13, s),
            m20: fxmul(a.m20, s), m21: fxmul(a.m21, s), m22: fxmul(a.m22, s), m23: fxmul(a.m23, s),
            m30: fxmul(a.m30, s), m31: fxmul(a.m31, s), m32: fxmul(a.m32, s), m33: fxmul(a.m33, s),
        }
    }

    pub open spec fn add_els(a: Matrix, b: Matrix) -> Matrix {
        Matrix {
            m00: fxadd(a.m00, b.m00), m01: fxadd(a.m01, b.m01), m02: fxadd(a.m02, b.m02), m03: fxadd(a.m03, b.m03),
            m10: fxadd(a.m10, b.m10), m11: fxadd(a.m11, b.m11), m12: fxadd(a.m12, b.m12), m13: fxadd(a.m13, b.m13),
            m20: fxadd(a.m20, b.m20), m21: fxadd(a.m21, b.m21), m22: fxadd(a.m22, b.m22), m23: fxadd(a.m23, b.m23),
            m30: fxadd(a.m30, b.m30), m31: fxadd(a.m31, b.m31), m32: fxadd(a.m32, b.m32), m33: fxadd(a.m33, b.m33),
        }
    }

    pub open spec fn sub_els(a: Matrix, b: Matrix) -> Matrix {
        Matrix {
            m00: fxsub(a.m00, b.m00), m01: fxsub(a.m01, b.m01), m02: fxsub(a.m02, b.m02), m03: fxsub(a.m03, b.m03),
            m10: fxsub(a.m10, b.m10), m11: fxsub(a.m11, b.m11), m12: fxsub(a.m12, b.m12), m13: fxsub(a.m13, b.m13),
            m20: fxsub(a.m20, b.m20), m21: fxsub(a.m21, b.m21), m22: fxsub(a.m22, b.m22), m23: fxsub(a.m23, b.m23),
            m30: fxsub(a.m30, b.m30), m31: fxsub(a.m31, b.m31), m32: fxsub(a.m32, b.m32), m33: fxsub(a.m33, b.m33),
        }
    }

    /// One entry of the matrix product: the dot of row `i` of `a` with
    /// column `j` of `b`, accumulated left to right from zero.
    pub open spec fn mul_entry(r0: i64, r1: i64, r2: i64, r3: i64,
                               c0: i64, c1: i64, c2: i64, c3: i64) -> i64 {
        fxadd(fxadd(fxadd(fxadd(0, fxmul(r0, c0)), fxmul(r1, c1)), fxmul(r2, c2)), fxmul(r3, c3))
    }

    pub open spec fn mul_s(a: Matrix, b: Matrix) -> Matrix {
        Matrix {
            m00: Matrix::mul_entry(a.m00, a.m01, a.m02, a.m03, b.m00, b.m10, b.m20, b.m30),
            m01: Matrix::mul_entry(a.m00, a.m01, a.m02, a.m03, b.m01, b.m11, b.m21, b.m31),
            m02: Matrix::mul_entry(a.m00, a.m01, a.m02, a.m03, b.m02, b.m12, b.m22, b.m32),
            m03: Matrix::mul_entry(a.m00, a.m01, a.m02, a.m03, b.m03, b.m13, b.m23, b.m33),
            m10: Matrix::mul_entry(a.m10, a.m11, a.m12, a.m13, b.m00, b.m10, b.m20, b.m30),
            m11: Matrix::mul_entry(a.m10, a.m11, a.m12, a.m13, b.m01, b.m11, b.m21, b.m31),
            m12: Matrix::mul_entry(a.m10, a.m11, a.m12, a.m13, b.m02, b.m12, b.m22, b.m32),
            m13: Matrix::mul_entry(a.m10, a.m11, a.m12, a.m13, b.m03, b.m13, b.m23, b.m33),
            m20: Matrix::mul_entry(a.m20, a.m21, a.m22, a.m23, b.m00, b.m10, b.m20, b.m30),
            m21: Matrix::mul_entry(a.m20, a.m21, a.m22, a.m23, b.m01, b.m11, b.m21, b.m31),
            m22: Matrix::mul_entry(a.m20, a.m21, a.m22, a.m23, b.m02, b.m12, b.m22, b.m32),
            m23: Matrix::mul_entry(a.m20, a.m21, a.m22, a.m23, b.m03, b.m13, b.m23, b.m33),
            m30: Matrix::mul_entry(a.m30, a.m31, a.m32, a.m33, b.m00, b.m10, b.m20, b.m30),
            m31: Matrix::mul_entry(a.m30, a.m31, a.m32, a.m33, b.m01, b.m11, b.m21, b.m31),
            m32: Matrix::mul_entry(a.m30, a.m31, a.m32, a.m33, b.m02, b.m12, b.m22, b.m32),
            m33: Matrix::mul_entry(a.m30, a.m31, a.m32, a.m33, b.m03, b.m13, b.m23, b.m33),
        }
    }

    /// The linear transform of the vector in the row-vector convention
    /// the lookat and perspective builders use: each result component is
    /// the dot of the vector with one matrix column.
    pub open spec fn apply_s(a: Matrix, v: Vector) -> Vector {
        Vector {
            x: Matrix::mul_entry(v.x, v.y, v.z, v.w, a.m00, a.m10, a.m20, a.m30),
            y: Matrix::mul_entry(v.x, v.y, v.z, v.w, a.m01, a.m11, a.m21, a.m31),
            z: Matrix::mul_entry(v.x, v.y, v.z, v.w, a.m02, a.m12, a.m22, a.m32),
            w: Matrix::mul_entry(v.x, v.y, v.z, v.w, a.m03, a.m13, a.m23, a.m33),
        }
    }

    pub open spec fn transpose_s(a: Matrix) -> Matrix {
        Matrix {
            m00: a.m00, m01: a.m10, m02: a.m20, m03: a.m30,
            m10: a.m01, m11: a.m11, m12: a.m21, m13: a.m31,
            m20: a.m02, m21: a.m12, m22: a.m22, m23: a.m32,
            m30: a.m03, m31: a.m13, m32: a.m23, m33: a.m33,
        }
    }

    /// Laplace expansion along the first row, folded in source order.
    pub open spec fn determinant_s(a: Matrix) -> i64 {
        let t0 = fxmul(a.m00, fxadd(
            fxsub(
                fxmul(a.m11, fxsub(fxmul(a.m22, a.m33), fxmul(a.m23, a.m32))),
                fxmul(a.m12, fxsub(fxmul(a.m21, a.m33), fxmul(a.m23, a.m31)))),
            fxmul(a.m13, fxsub(fxmul(a.m21, a.m32), fxmul(a.m22, a.m31)))));
        let t1 = fxmul(a.m01, fxadd(
            fxsub(
                fxmul(a.m10, fxsub(fxmul(a.m22, a.m33), fxmul(a.m23, a.m32))),
                fxmul(a.m12, fxsub(fxmul(a.m20, a.m33), fxmul(a.m23, a.m30)))),
            fxmul(a.m13, fxsub(fxmul(a.m20, a.m32), fxmul(a.m22, a.m30)))));
        let t2 = fxmul(a.m02, fxadd(
            fxsub(
                fxmul(a.m10, fxsub(fxmul(a.m21, a.m33), fxmul(a.m23, a.m31))),
                fxmul(a.m11, fxsub(fxmul(a.m20, a.m33), fxmul(a.m23, a.m30)))),
            fxmul(a.m13, fxsub(fxmul(a.m20, a.m31), fxmul(a.m21, a.m30)))));
        let t3 = fxmul(a.m03, fxadd(
            fxsub(
                fxmul(a.m10, fxsub(fxmul(a.m21, a.m32), fxmul(a.m22, a.m31))),
                fxmul(a.m11, fxsub(fxmul(a.m20, a.m32), fxmul(a.m22, a.m30)))),
            fxmul(a.m12, fxsub(fxmul(a.m20, a.m31), fxmul(a.m21, a.m30)))));
        fxsub(fxadd(fxsub(t0, t1), t2), t3)
    }

    /// The determinant of a 3x3 submatrix given row-major, expanded
    /// along its first row.
    pub open spec fn det3(a: i64, b: i64, c: i64,
                          d: i64, e: i64, f: i64,
                          g: i64, h: i64, i: i64) -> i64 {
        fxadd(
            fxsub(
                fxmul(a, fxsub(fxmul(e, i), fxmul(f, h))),
                fxmul(b, fxsub(fxmul(d, i), fxmul(f, g)))),
            fxmul(c, fxsub(fxmul(d, h), fxmul(e, g))))
    }

    /// The matrix of minors: entry (i, j) is the determinant of the 3x3
    /// submatrix left after deleting row i and column j.
    pub open spec fn minors_s(a: Matrix) -> Matrix {
        Matrix {
            m00: Matrix::det3(a.m11, a.m12, a.m13, a.m21, a.m22, a.m23, a.m31, a.m32, a.m33),
            m01: Matrix::det3(a.m10, a.m12, a.m13, a.m20, a.m22, a.m23, a.m30, a.m32, a.m33),
            m02: Matrix::det3(a.m10, a.m11, a.m13, a.m20, a.m21, a.m23, a.m30, a.m31, a.m33),
            m03: Matrix::det3(a.m10, a.m11, a.m12, a.m20, a.m21, a.m22, a.m30, a.m31, a.m32),
            m10: Matrix::det3(a.m01, a.m02, a.m03, a.m21, a.m22, a.m23, a.m31, a.m32, a.m33),
            m11: Matrix::det3(a.m00, a.m02, a.m03, a.m20, a.m22, a.m23, a.m30, a.m32, a.m33),
            m12: Matrix::det3(a.m00, a.m01, a.m03, a.m20, a.m21, a.m23, a.m30, a.m31, a.m33),
            m13: Matrix::det3(a.m00, a.m01, a.m02, a.m20, a.m21, a.m22, a.m30, a.m31, a.m32),
            m20: Matrix::det3(a.m01, a.m02, a.m03, a.m11, a.m12, a.m13, a.m31, a.m32, a.m33),
            m21: Matrix::det3(a.m00, a.m02, a.m03, a.m10, a.m12, a.m13, a.m30, a.m32, a.m33),
            m22: Matrix::det3(a.m00, a.m01, a.m03, a.m10, a.m11, a.m13, a.m30, a.m31, a.m33),
            m23: Matrix::det3(a.m00, a.m01, a.m02, a.m10, a.m11, a.m12, a.m30, a.m31, a.m32),
            m30: Matrix::det3(a.m01, a.m02, a.m03, a.m11, a.m12, a.m13, a.m21, a.m22, a.m23),
            m31: Matrix::det3(a.m00, a.m02, a.m03, a.m10, a.m12, a.m13, a.m20, a.m22, a.m23),
            m32: Matrix::det3(a.m00, a.m01, a.m03, a.m10, a.m11, a.m13, a.m20, a.m21, a.m23),
            m33: Matrix::det3(a.m00, a.m01, a.m02, a.m10, a.m11, a.m12, a.m20, a.m21, a.m22),
        }
    }

    /// Minors with the odd-position entries negated.
    pub open spec fn cofactors_s(a: Matrix) -> Matrix {
        let mi = Matrix::minors_s(a);
        Matrix {
            m00: mi.m00, m01: fxmul(mi.m01, (-FX_ONE) as i64), m02: mi.m02, m03: fxmul(mi.m03, (-FX_ONE) as i64),
            m10: fxmul(mi.m10, (-FX_ONE) as i64), m11: mi.m11, m12: fxmul(mi.m12, (-FX_ONE) as i64), m13: mi.m13,
            m20: mi.m20, m21: fxmul(mi.m21, (-FX_ONE) as i64), m22: mi.m22, m23: fxmul(mi.m23, (-FX_ONE) as i64),
            m30: fxmul(mi.m30, (-FX_ONE) as i64), m31: mi.m31, m32: fxmul(mi.m32, (-FX_ONE) as i64), m33: mi.m33,
        }
    }

    pub open spec fn adjugate_s(a: Matrix) -> Matrix {
        Matrix::transpose_s(Matrix::cofactors_s(a))
    }

    pub fn new(m: [[i64; 4]; 4]) -> (r: Matrix)
        ensures
            r.m00 == m[0][0] && r.m01 == m[0][1] && r.m02 == m[0][2] && r.m03 == m[0][3],
            r.m10 == m[1][0] && r.m11 == m[1][1] && r.m12 == m[1][2] && r.m13 == m[1][3],
            r.m20 == m[2][0] && r.m21 == m[2][1] && r.m22 == m[2][2] && r.m23 == m[2][3],
            r.m30 == m[3][0] && r.m31 == m[3][1] && r.m32 == m[3][2] && r.m33 == m[3][3],
    {
        Matrix {
            m00: m[0][0], m01: m[0][1], m02: m[0][2], m03: m[0][3],
            m10: m[1][0], m11: m[1][1], m12: m[1][2], m13: m[1][3],
            m20: m[2][0], m21: m[2][1], m22: m[2][2], m23: m[2][3],
            m30: m[3][0], m31: m[3][1], m32: m[3][2], m33: m[3][3],
        }
    }

    pub fn null() -> (r: Matrix)
        ensures r == Matrix::null_s(),
    {
        Matrix {
            m00: 0, m01: 0, m02: 0, m03: 0,
            m10: 0, m11: 0, m12: 0, m13: 0,
            m20: 0, m21: 0, m22: 0, m23: 0,
            m30: 0, m31: 0, m32: 0, m33: 0,
        }
    }

    pub fn identity() -> (r: Matrix)
        ensures r == Matrix::identity_s(),
    {
        Matrix {
            m00: FX_ONE, m01: 0, m02: 0, m03: 0,
            m10: 0, m11: FX_ONE, m12: 0, m13: 0,
            m20: 0, m21: 0, m22: FX_ONE, m23: 0,
            m30: 0, m31: 0, m32: 0, m33: FX_ONE,
        }
    }

    pub fn scale(mat1: &Matrix, scalar: i64) -> (r: Matrix)
        ensures r == Matrix::scale_els(*mat1, scalar),
    {
        Matrix {
            m00: fx_mul(mat1.m00, scalar), m01: fx_mul(mat1.m01, scalar),
            m02: fx_mul(mat1.m02, scalar), m03: fx_mul(mat1.m03, scalar),
            m10: fx_mul(mat1.m10, scalar), m11: fx_mul(mat1.m11, scalar),
            m12: fx_mul(mat1.m12, scalar), m13: fx_mul(mat1.m13, scalar),
            m20: fx_mul(mat1.m20, scalar), m21: fx_mul(mat1.m21, scalar),
            m22: fx_mul(mat1.m22, scalar), m23: fx_mul(mat1.m23, scalar),
            m30: fx_mul(mat1.m30, scalar), m31: fx_mul(mat1.m31, scalar),
            m32: fx_mul(mat1.m32, scalar), m33: fx_mul(mat1.m33, scalar),
        }
    }

    pub fn add(mat1: &Matrix, mat2: &Matrix) -> (r: Matrix)
        ensures r == Matrix::add_els(*mat1, *mat2),
    {
        Matrix {
            m00: fx_add(mat1.m00, mat2.m00), m01: fx_add(mat1.m01, mat2.m01),
            m02: fx_add(mat1.m02, mat2.m02), m03: fx_add(mat1.m03, mat2.m03),
            m10: fx_add(mat1.m10, mat2.m10), m11: fx_add(mat1.m11, mat2.m11),
            m12: fx_add(mat1.m12, mat2.m12), m13: fx_add(mat1.m13, mat2.m13),
            m20: fx_add(mat1.m20, mat2.m20), m21: fx_add(mat1.m21, mat2.m21),
            m22: fx_add(mat1.m22, mat2.m22), m23: fx_add(mat1.m23, mat2.m23),
            m30: fx_add(mat1.m30, mat2.m30), m31: fx_add(mat1.m31, mat2.m31),
            m32: fx_add(mat1.m32, mat2.m32), m33: fx_add(mat1.m33, mat2.m33),
        }
    }

    pub fn sub(mat1: &Matrix, mat2: &Matrix) -> (r: Matrix)
        ensures r == Matrix::sub_els(*mat1, *mat2),
    {
        Matrix {
            m00: fx_sub(mat1.m00, mat2.m00), m01: fx_sub(mat1.m01, mat2.m01),
            m02: fx_sub(mat1.m02, mat2.m02), m03: fx_sub(mat1.m03, mat2.m03),
            m10: fx_sub(mat1.m10, mat2.m10), m11: fx_sub(mat1.m11, mat2.m11),
            m12: fx_sub(mat1.m12, mat2.m12), m13: fx_sub(mat1.m13, mat2.m13),
            m20: fx_sub(mat1.m20, mat2.m20), m21: fx_sub(mat1.m21, mat2.m21),
            m22: fx_sub(mat1.m22, mat2.m22), m23: fx_sub(mat1.m23, mat2.m23),
            m30: fx_sub(mat1.m30, mat2.m30), m31: fx_sub(mat1.m31, mat2.m31),
            m32: fx_sub(mat1.m32, mat2.m32), m33: fx_sub(mat1.m33, mat2.m33),
        }
    }

    fn mul_entry_x(r0: i64, r1: i64, r2: i64, r3: i64,
                   c0: i64, c1: i64, c2: i64, c3: i64) -> (r: i64)
        ensures r == Matrix::mul_entry(r0, r1, r2, r3, c0, c1, c2, c3),
    {
        fx_add(fx_add(fx_add(fx_add(0, fx_mul(r0, c0)), fx_mul(r1, c1)), fx_mul(r2, c2)),
            fx_mul(r3, c3))
    }

    pub fn mul(mat1: &Matrix, mat2: &Matrix) -> (r: Matrix)
        ensures r == Matrix::mul_s(*mat1, *mat2),
    {
        Matrix {
            m00: Matrix::mul_entry_x(mat1.m00, mat1.m01, mat1.m02, mat1.m03,
                mat2.m00, mat2.m10, mat2.m20, mat2.m30),
            m01: Matrix::mul_entry_x(mat1.m00, mat1.m01, mat1.m02, mat1.m03,
                mat2.m01, mat2.m11, mat2.m21, mat2.m31),
            m02: Matrix::mul_entry_x(mat1.m00, mat1.m01, mat1.m02, mat1.m03,
                mat2.m02, mat2.m12, mat2.m22, mat2.m32),
            m03: Matrix::mul_entry_x(mat1.m00, mat1.m01, mat1.m02, mat1.m03,
                mat2.m03, mat2.m13, mat2.m23, mat2.m33),
            m10: Matrix::mul_entry_x(mat1.m10, mat1.m11, mat1.m12, mat1.m13,
                mat2.m00, mat2.m10, mat2.m20, mat2.m30),
            m11: Matrix::mul_entry_x(mat1.m10, mat1.m11, mat1.m12, mat1.m13,
                mat2.m01, mat2.m11, mat2.m21, mat2.m31),
            m12: Matrix::mul_entry_x(mat1.m10, mat1.m11, mat1.m12, mat1.m13,
                mat2.m02, mat2.m12, mat2.m22, mat2.m32),
            m13: Matrix::mul_entry_x(mat1.m10, mat1.m11, mat1.m12, mat1.m13,
                mat2.m03, mat2.m13, mat2.m23, mat2.m33),
            m20: Matrix::mul_entry_x(mat1.m20, mat1.m21, mat1.m22, mat1.m23,
                mat2.m00, mat2.m10, mat2.m20, mat2.m30),
            m21: Matrix::mul_entry_x(mat1.m20, mat1.m21, mat1.m22, mat1.m23,
                mat2.m01, mat2.m11, mat2.m21, mat2.m31),
            m22: Matrix::mul_entry_x(mat1.m20, mat1.m21, mat1.m22, mat1.m23,
                mat2.m02, mat2.m12, mat2.m22, mat2.m32),
            m23: Matrix::mul_entry_x(mat1.m20, mat1.m21, mat1.m22, mat1.m23,
                mat2.m03, mat2.m13, mat2.m23, mat2.m33),
            m30: Matrix::mul_entry_x(mat1.m30, mat1.m31, mat1.m32, mat1.m33,
                mat2.m00, mat2.m10, mat2.m20, mat2.m30),
            m31: Matrix::mul_entry_x(mat1.m30, mat1.m31, mat1.m32, mat1.m33,
                mat2.m01, mat2.m11, mat2.m21, mat2.m31),
            m32: Matrix::mul_entry_x(mat1.m30, mat1.m31, mat1.m32, mat1.m33,
                mat2.m02, mat2.m12, mat2.m22, mat2.m32),
            m33: Matrix::mul_entry_x(mat1.m30, mat1.m31, mat1.m32, mat1.m33,
                mat2.m03, mat2.m13, mat2.m23, mat2.m33),
        }
    }

    pub fn apply(mat1: &Matrix, vec1: &Vector) -> (r: Vector)
        ensures r == Matrix::apply_s(*mat1, *vec1),
    {
        Vector {
            x: Matrix::mul_entry_x(vec1.x, vec1.y, vec1.z, vec1.w,
                mat1.m00, mat1.m10, mat1.m20, mat1.m30),
            y: Matrix::mul_entry_x(vec1.x, vec1.y, vec1.z, vec1.w,
                mat1.m01, mat1.m11, mat1.m21, mat1.m31),
            z: Matrix::mul_entry_x(vec1.x, vec1.y, vec1.z, vec1.w,
                mat1.m02, mat1.m12, mat1.m22, mat1.m32),
            w: Matrix::mul_entry_x(vec1.x, vec1.y, vec1.z, vec1.w,
                mat1.m03, mat1.m13, mat1.m23, mat1.m33),
        }
    }

    pub fn transpose(mat1: &Matrix) -> (r: Matrix)
        ensures r == Matrix::transpose_s(*mat1),
    {
        Matrix {
            m00: mat1.m00, m01: mat1.m10, m02: mat1.m20, m03: mat1.m30,
            m10: mat1.m01, m11: mat1.m11, m12: mat1.m21, m13: mat1.m31,
            m20: mat1.m02, m21: mat1.m12, m22: mat1.m22, m23: mat1.m32,
            m30: mat1.m03, m31: mat1.m13, m32: mat1.m23, m33: mat1.m33,
        }
    }

    pub fn determinant(mat1: &Matrix) -> (r: i64)
        ensures r == Matrix::determinant_s(*mat1),
    {
        let t0 = fx_mul(mat1.m00, fx_add(
            fx_sub(
                fx_mul(mat1.m11, fx_sub(fx_mul(mat1.m22, mat1.m33), fx_mul(mat1.m23, mat1.m32))),
                fx_mul(mat1.m12, fx_sub(fx_mul(mat1.m21, mat1.m33), fx_mul(mat1.m23, mat1.m31)))),
            fx_mul(mat1.m13, fx_sub(fx_mul(mat1.m21, mat1.m32), fx_mul(mat1.m22, mat1.m31)))));
        let t1 = fx_mul(mat1.m01, fx_add(
            fx_sub(
                fx_mul(mat1.m10, fx_sub(fx_mul(mat1.m22, mat1.m33), fx_mul(mat1.m23, mat1.m32))),
                fx_mul(mat1.m12, fx_sub(fx_mul(mat1.m20, mat1.m33), fx_mul(mat1.m23, mat1.m30)))),
            fx_mul(mat1.m13, fx_sub(fx_mul(mat1.m20, mat1.m32), fx_mul(mat1.m22, mat1.m30)))));
        let t2 = fx_mul(mat1.m02, fx_add(
            fx_sub(
                fx_mul(mat1.m10, fx_sub(fx_mul(mat1.m21, mat1.m33), fx_mul(mat1.m23, mat1.m31))),
                fx_mul(mat1.m11, fx_sub(fx_mul(mat1.m20, mat1.m33), fx_mul(mat1.m23, mat1.m30)))),
            fx_mul(mat1.m13, fx_sub(fx_mul(mat1.m20, mat1.m31), fx_mul(mat1.m21, mat1.m30)))));
        let t3 = fx_mul(mat1.m03, fx_add(
            fx_sub(
                fx_mul(mat1.m10, fx_sub(fx_mul(mat1.m21, mat1.m32), fx_mul(mat1.m22, mat1.m31))),
                fx_mul(mat1.m11, fx_sub(fx_mul(mat1.m20, mat1.m32), fx_mul(mat1.m22, mat1.m30)))),
            fx_mul(mat1.m12, fx_sub(fx_mul(mat1.m20, mat1.m31), fx_mul(mat1.m21, mat1.m30)))));
        fx_sub(fx_add(fx_sub(t0, t1), t2), t3)
    }

    fn det3_x(a: i64, b: i64, c: i64,
              d: i64, e: i64, f: i64,
              g: i64, h: i64, i: i64) -> (r: i64)
        ensures r == Matrix::det3(a, b, c, d, e, f, g, h, i),
    {
        fx_add(
            fx_sub(
                fx_mul(a, fx_sub(fx_mul(e, i), fx_mul(f, h))),
                fx_mul(b, fx_sub(fx_mul(d, i), fx_mul(f, g)))),
            fx_mul(c, fx_sub(fx_mul(d, h), fx_mul(e, g))))
    }

    pub fn minors(mat1: &Matrix) -> (r: Matrix)
        ensures r == Matrix::minors_s(*mat1),
    {
        Matrix {
            m00: Matrix::det3_x(mat1.m11, mat1.m12, mat1.m13, mat1.m21, mat1.m22, mat1.m23, mat1.m31, mat1.m32, mat1.m33),
            m01: Matrix::det3_x(mat1.m10, mat1.m12, mat1.m13, mat1.m20, mat1.m22, mat1.m23, mat1.m30, mat1.m32, mat1.m33),
            m02: Matrix::det3_x(mat1.m10, mat1.m11, mat1.m13, mat1.m20, mat1.m21, mat1.m23, mat1.m30, mat1.m31, mat1.m33),
            m03: Matrix::det3_x(mat1.m10, mat1.m11, mat1.m12, mat1.m20, mat1.m21, mat1.m22, mat1.m30, mat1.m31, mat1.m32),
            m10: Matrix::det3_x(mat1.m01, mat1.m02, mat1.m03, mat1.m21, mat1.m22, mat1.m23, mat1.m31, mat1.m32, mat1.m33),
            m11: Matrix::det3_x(mat1.m00, mat1.m02, mat1.m03, mat1.m20, mat1.m22, mat1.m23, mat1.m30, mat1.m32, mat1.m33),
            m12: Matrix::det3_x(mat1.m00, mat1.m01, mat1.m03, mat1.m20, mat1.m21, mat1.m23, mat1.m30, mat1.m31, mat1.m33),
            m13: Matrix::det3_x(mat1.m00, mat1.m01, mat1.m02, mat1.m20, mat1.m21, mat1.m22, mat1.m30, mat1.m31, mat1.m32),
            m20: Matrix::det3_x(mat1.m01, mat1.m02, mat1.m03, mat1.m11, mat1.m12, mat1.m13, mat1.m31, mat1.m32, mat1.m33),
            m21: Matrix::det3_x(mat1.m00, mat1.m02, mat1.m03, mat1.m10, mat1.m12, mat1.m13, mat1.m30, mat1.m32, mat1.m33),
            m22: Matrix::det3_x(mat1.m00, mat1.m01, mat1.m03, mat1.m10, mat1.m11, mat1.m13, mat1.m30, mat1.m31, mat1.m33),
            m23: Matrix::det3_x(mat1.m00, mat1.m01, mat1.m02, mat1.m10, mat1.m11, mat1.m12, mat1.m30, mat1.m31, mat1.m32),
            m30: Matrix::det3_x(mat1.m01, mat1.m02, mat1.m03, mat1.m11, mat1.m12, mat1.m13, mat1.m21, mat1.m22, mat1.m23),
            m31: Matrix::det3_x(mat1.m00, mat1.m02, mat1.m03, mat1.m10, mat1.m12, mat1.m13, mat1.m20, mat1.m22, mat1.m23),
            m32: Matrix::det3_x(mat1.m00, mat1.m01, mat1.m03, mat1.m10, mat1.m11, mat1.m13, mat1.m20, mat1.m21, mat1.m23),
            m33: Matrix::det3_x(mat1.m00, mat1.m01, mat1.m02, mat1.m10, mat1.m11, mat1.m12, mat1.m20, mat1.m21, mat1.m22),
        }
    }

    pub fn cofactors(mat1: &Matrix) -> (r: Matrix)
        ensures r == Matrix::cofactors_s(*mat1),
    {
        let mi = Matrix::minors(mat1);
        Matrix {
            m00: mi.m00, m01: fx_mul(mi.m01, -FX_ONE), m02: mi.m02, m03: fx_mul(mi.m03, -FX_ONE),
            m10: fx_mul(mi.m10, -FX_ONE), m11: mi.m11, m12: fx_mul(mi.m12, -FX_ONE), m13: mi.m13,
            m20: mi.m20, m21: fx_mul(mi.m21, -FX_ONE), m22: mi.m22, m23: fx_mul(mi.m23, -FX_ONE),
            m30: fx_mul(mi.m30, -FX_ONE), m31: mi.m31, m32: fx_mul(mi.m32, -FX_ONE), m33: mi.m33,
        }
    }

    pub fn adjugate(mat1: &Matrix) -> (r: Matrix)
        ensures r == Matrix::adjugate_s(*mat1),
    {
        let cofactors = Matrix::cofactors(mat1);
        Matrix::transpose(&cofactors)
    }

    /// Inversion through the adjugate. The singular case would divide by
    /// zero, so it is excluded here as the one panicking input of the
    /// floating-point original.
    pub fn inverse_old(mat1: &Matrix) -> (r: Matrix)
        requires Matrix::determinant_s(*mat1) != 0,
        ensures r == Matrix::scale_els(Matrix::adjugate_s(*mat1),
            fxdiv(FX_ONE, Matrix::determinant_s(*mat1))),
    {
        let det = Matrix::determinant(mat1);
        let adjugate = Matrix::adjugate(mat1);
        Matrix::scale(&adjugate, fx_div(FX_ONE, det))
    }

    /// A three-term cofactor combination `x*a - y*b + z*c`, folded in
    /// source order.
    pub open spec fn cof3(x: i64, a: i64, y: i64, b: i64, z: i64, c: i64) -> i64 {
        fxadd(fxsub(fxmul(x, a), fxmul(y, b)), fxmul(z, c))
    }

    fn cof3_x(x: i64, a: i64, y: i64, b: i64, z: i64, c: i64) -> (r: i64)
        ensures r == Matrix::cof3(x, a, y, b, z, c),
    {
        fx_add(fx_sub(fx_mul(x, a), fx_mul(y, b)), fx_mul(z, c))
    }

    /// Direct cofactor-expansion inverse. The reciprocal of a zero
    /// determinant saturates, so a singular input yields a garbage matrix
    /// rather than a fault, as documented.
    pub open spec fn inverse_s(m: Matrix) -> Matrix {
        let a2323 = fxsub(fxmul(m.m22, m.m33), fxmul(m.m23, m.m32));
        let a1323 = fxsub(fxmul(m.m21, m.m33), fxmul(m.m23, m.m31));
        let a1223 = fxsub(fxmul(m.m21, m.m32), fxmul(m.m22, m.m31));
        let a0323 = fxsub(fxmul(m.m20, m.m33), fxmul(m.m23, m.m30));
        let a0223 = fxsub(fxmul(m.m20, m.m32), fxmul(m.m22, m.m30));
        let a0123 = fxsub(fxmul(m.m20, m.m31), fxmul(m.m21, m.m30));
        let a2313 = fxsub(fxmul(m.m12, m.m33), fxmul(m.m13, m.m32));
        let a1313 = fxsub(fxmul(m.m11, m.m33), fxmul(m.m13, m.m31));
        let a1213 = fxsub(fxmul(m.m11, m.m32), fxmul(m.m12, m.m31));
        let a2312 = fxsub(fxmul(m.m12, m.m23), fxmul(m.m13, m.m22));
        let a1312 = fxsub(fxmul(m.m11, m.m23), fxmul(m.m13, m.m21));
        let a1212 = fxsub(fxmul(m.m11, m.m22), fxmul(m.m12, m.m21));
        let a0313 = fxsub(fxmul(m.m10, m.m33), fxmul(m.m13, m.m30));
        let a0213 = fxsub(fxmul(m.m10, m.m32), fxmul(m.m12, m.m30));
        let a0312 = fxsub(fxmul(m.m10, m.m23), fxmul(m.m13, m.m20));
        let a0212 = fxsub(fxmul(m.m10, m.m22), fxmul(m.m12, m.m20));
        let a0113 = fxsub(fxmul(m.m10, m.m31), fxmul(m.m11, m.m30));
        let a0112 = fxsub(fxmul(m.m10, m.m21), fxmul(m.m11, m.m20));
        let det0 = fxsub(
            fxadd(
                fxsub(
                    fxmul(m.m00, Matrix::cof3(m.m11, a2323, m.m12, a1323, m.m13, a1223)),
                    fxmul(m.m01, Matrix::cof3(m.m10, a2323, m.m12, a0323, m.m13, a0223))),
                fxmul(m.m02, Matrix::cof3(m.m10, a1323, m.m11, a0323, m.m13, a0123))),
            fxmul(m.m03, Matrix::cof3(m.m10, a1223, m.m11, a0223, m.m12, a0123)));
        let det = fxdiv(FX_ONE, det0);
        Matrix {
            m00: fxmul(det, Matrix::cof3(m.m11, a2323, m.m12, a1323, m.m13, a1223)),
            m01: fxmul(det, fxneg(Matrix::cof3(m.m01, a2323, m.m02, a1323, m.m03, a1223))),
            m02: fxmul(det, Matrix::cof3(m.m01, a2313, m.m02, a1313, m.m03, a1213)),
            m03: fxmul(det, fxneg(Matrix::cof3(m.m01, a2312, m.m02, a1312, m.m03, a1212))),
            m10: fxmul(det, fxneg(Matrix::cof3(m.m10, a2323, m.m12, a0323, m.m13, a0223))),
            m11: fxmul(det, Matrix::cof3(m.m00, a2323, m.m02, a0323, m.m03, a0223)),
            m12: fxmul(det, fxneg(Matrix::cof3(m.m00, a2313, m.m02, a0313, m.m03, a0213))),
            m13: fxmul(det, Matrix::cof3(m.m00, a2312, m.m02, a0312, m.m03, a0212)),
            m20: fxmul(det, Matrix::cof3(m.m10, a1323, m.m11, a0323, m.m13, a0123)),
            m21: fxmul(det, fxneg(Matrix::cof3(m.m00, a1323, m.m01, a0323, m.m03, a0123))),
            m22: fxmul(det, Matrix::cof3(m.m00, a1313, m.m01, a0313, m.m03, a0113)),
            m23: fxmul(det, fxneg(Matrix::cof3(m.m00, a1312, m.m01, a0312, m.m03, a0112))),
            m30: fxmul(det, fxneg(Matrix::cof3(m.m10, a1223, m.m11, a0223, m.m12, a0123))),
            m31: fxmul(det, Matrix::cof3(m.m00, a1223, m.m01, a0223, m.m02, a0123)),
            m32: fxmul(det, fxneg(Matrix::cof3(m.m00, a1213, m.m01, a0213, m.m02, a0113))),
            m33: fxmul(det, Matrix::cof3(m.m00, a1212, m.m01, a0212, m.m02, a0112)),
        }
    }

    pub fn inverse(mat1: &Matrix) -> (r: Matrix)
        ensures r == Matrix::inverse_s(*mat1),
    {
        let m = mat1;
        let a2323 = fx_sub(fx_mul(m.m22, m.m33), fx_mul(m.m23, m.m32));
        let a1323 = fx_sub(fx_mul(m.m21, m.m33), fx_mul(m.m23, m.m31));
        let a1223 = fx_sub(fx_mul(m.m21, m.m32), fx_mul(m.m22, m.m31));
        let a0323 = fx_sub(fx_mul(m.m20, m.m33), fx_mul(m.m23, m.m30));
        let a0223 = fx_sub(fx_mul(m.m20, m.m32), fx_mul(m.m22, m.m30));
        let a0123 = fx_sub(fx_mul(m.m20, m.m31), fx_mul(m.m21, m.m30));
        let a2313 = fx_sub(fx_mul(m.m12, m.m33), fx_mul(m.m13, m.m32));
        let a1313 = fx_sub(fx_mul(m.m11, m.m33), fx_mul(m.m13, m.m31));
        let a1213 = fx_sub(fx_mul(m.m11, m.m32), fx_mul(m.m12, m.m31));
        let a2312 = fx_sub(fx_mul(m.m12, m.m23), fx_mul(m.m13, m.m22));
        let a1312 = fx_sub(fx_mul(m.m11, m.m23), fx_mul(m.m13, m.m21));
        let a1212 = fx_sub(fx_mul(m.m11, m.m22), fx_mul(m.m12, m.m21));
        let a0313 = fx_sub(fx_mul(m.m10, m.m33), fx_mul(m.m13, m.m30));
        let a0213 = fx_sub(fx_mul(m.m10, m.m32), fx_mul(m.m12, m.m30));
        let a0312 = fx_sub(fx_mul(m.m10, m.m23), fx_mul(m.m13, m.m20));
        let a0212 = fx_sub(fx_mul(m.m10, m.m22), fx_mul(m.m12, m.m20));
        let a0113 = fx_sub(fx_mul(m.m10, m.m31), fx_mul(m.m11, m.m30));
        let a0112 = fx_sub(fx_mul(m.m10, m.m21), fx_mul(m.m11, m.m20));
        let det0 = fx_sub(
            fx_add(
                fx_sub(
                    fx_mul(m.m00, Matrix::cof3_x(m.m11, a2323, m.m12, a1323, m.m13, a1223)),
                    fx_mul(m.m01, Matrix::cof3_x(m.m10, a2323, m.m12, a0323, m.m13, a0223))),
                fx_mul(m.m02, Matrix::cof3_x(m.m10, a1323, m.m11, a0323, m.m13, a0123))),
            fx_mul(m.m03, Matrix::cof3_x(m.m10, a1223, m.m11, a0223, m.m12, a0123)));
        let det = fx_div(FX_ONE, det0);
        Matrix {
            m00: fx_mul(det, Matrix::cof3_x(m.m11, a2323, m.m12, a1323, m.m13, a1223)),
            m01: fx_mul(det, fx_neg(Matrix::cof3_x(m.m01, a2323, m.m02, a1323, m.m03, a1223))),
            m02: fx_mul(det, Matrix::cof3_x(m.m01, a2313, m.m02, a1313, m.m03, a1213)),
            m03: fx_mul(det, fx_neg(Matrix::cof3_x(m.m01, a2312, m.m02, a1312, m.m03, a1212))),
            m10: fx_mul(det, fx_neg(Matrix::cof3_x(m.m10, a2323, m.m12, a0323, m.m13, a0223))),
            m11: fx_mul(det, Matrix::cof3_x(m.m00, a2323, m.m02, a0323, m.m03, a0223)),
            m12: fx_mul(det, fx_neg(Matrix::cof3_x(m.m00, a2313, m.m02, a0313, m.m03, a0213))),
            m13: fx_mul(det, Matrix::cof3_x(m.m00, a2312, m.m02, a0312, m.m03, a0212)),
            m20: fx_mul(det, Matrix::cof3_x(m.m10, a1323, m.m11, a0323, m.m13, a0123)),
            m21: fx_mul(det, fx_neg(Matrix::cof3_x(m.m00, a1323, m.m01, a0323, m.m03, a0123))),
            m22: fx_mul(det, Matrix::cof3_x(m.m00, a1313, m.m01, a0313, m.m03, a0113)),
            m23: fx_mul(det, fx_neg(Matrix::cof3_x(m.m00, a1312, m.m01, a0312, m.m03, a0112))),
            m30: fx_mul(det, fx_neg(Matrix::cof3_x(m.m10, a1223, m.m11, a0223, m.m12, a0123))),
            m31: fx_mul(det, Matrix::cof3_x(m.m00, a1223, m.m01, a0223, m.m02, a0123)),
            m32: fx_mul(det, fx_neg(Matrix::cof3_x(m.m00, a1213, m.m01, a0213, m.m02, a0113))),
            m33: fx_mul(det, Matrix::cof3_x(m.m00, a1212, m.m01, a0212, m.m02, a0112)),
        }
    }

    /// Right-handed view matrix toward `at` with the given up hint.
    pub open spec fn lookat_s(eye: Vector, at: Vector, up: Vector) -> Matrix {
        let f = Vector::normalize_s(Vector::sub_s(at, eye));
        let r = Vector::normalize_s(Vector::cross_s(up, f));
        let u = Vector::cross_s(f, r);
        Matrix {
            m00: r.x, m01: u.x, m02: fxneg(f.x), m03: 0,
            m10: r.y, m11: u.y, m12: fxneg(f.y), m13: 0,
            m20: r.z, m21: u.z, m22: fxneg(f.z), m23: 0,
            m30: fxneg(Vector::dot_s(r, eye)),
            m31: fxneg(Vector::dot_s(u, eye)),
            m32: Vector::dot_s(f, eye),
            m33: FX_ONE,
        }
    }

    pub fn lookat(eye: &Vector, at: &Vector, up: &Vector) -> (res: Matrix)
        ensures res == Matrix::lookat_s(*eye, *at, *up),
    {
        let f = Vector::normalize(&Vector::sub(at, eye));
        let r = Vector::normalize(&Vector::cross(up, &f));
        let u = Vector::cross(&f, &r);
        Matrix {
            m00: r.x(), m01: u.x(), m02: fx_neg(f.x()), m03: 0,
            m10: r.y(), m11: u.y(), m12: fx_neg(f.y()), m13: 0,
            m20: r.z(), m21: u.z(), m22: fx_neg(f.z()), m23: 0,
            m30: fx_neg(Vector::dot(&r, eye)),
            m31: fx_neg(Vector::dot(&u, eye)),
            m32: Vector::dot(&f, eye),
            m33: FX_ONE,
        }
    }

    /// Right-handed perspective projection; `fov` is the vertical field
    /// of view in fixed-point radians. The focal scale truncates to zero
    /// once the half-angle's tangent saturates (fov within a few steps of
    /// a half turn), where the matrix degenerates to singular; callers
    /// keep the field of view well inside the open interval up to a half
    /// turn, as the camera's ninety degrees is.
    pub open spec fn perspective_s(fov: i64, aspect: i64, near: i64, far: i64) -> Matrix {
        let f = fxdiv(FX_ONE, tan_s(idiv(fov, 2)));
        let range_inv = fxdiv(FX_ONE, fxsub(near, far));
        Matrix {
            m00: fxdiv(f, aspect), m01: 0, m02: 0, m03: 0,
            m10: 0, m11: f, m12: 0, m13: 0,
            m20: 0, m21: 0, m22: fxmul(fxadd(near, far), range_inv), m23: (-FX_ONE) as i64,
            m30: 0, m31: 0, m32: fxmul(fxmul(fxadd(near, near), far), range_inv), m33: 0,
        }
    }

    pub fn perspective(fov: i64, aspect: i64, near: i64, far: i64) -> (r: Matrix)
        ensures r == Matrix::perspective_s(fov, aspect, near, far),
    {
        let f = fx_div(FX_ONE, fx_tan(fx_idiv(fov, 2)));
        let range_inv = fx_div(FX_ONE, fx_sub(near, far));
        Matrix {
            m00: fx_div(f, aspect), m01: 0, m02: 0, m03: 0,
            m10: 0, m11: f, m12: 0, m13: 0,
            m20: 0, m21: 0, m22: fx_mul(fx_add(near, far), range_inv), m23: -FX_ONE,
            m30: 0, m31: 0, m32: fx_mul(fx_mul(fx_add(near, near), far), range_inv), m33: 0,
        }
    }

    /// Right-handed orthographic projection over the given box.
    pub open spec fn orthographic_s(left: i64, right: i64, bottom: i64, top: i64,
                                    near: i64, far: i64) -> Matrix {
        Matrix {
            m00: fxdiv(FX_TWO, fxsub(right, left)), m01: 0, m02: 0, m03: 0,
            m10: 0, m11: fxdiv(FX_TWO, fxsub(top, bottom)), m12: 0, m13: 0,
            m20: 0, m21: 0, m22: fxdiv(fxneg(FX_TWO), fxsub(far, near)), m23: 0,
            m30: fxdiv(fxneg(fxadd(right, left)), fxsub(right, left)),
            m31: fxdiv(fxneg(fxadd(top, bottom)), fxsub(top, bottom)),
            m32: fxdiv(fxneg(fxadd(far, near)), fxsub(far, near)),
            m33: FX_ONE,
        }
    }

    pub fn orthographic(left: i64, right: i64, bottom: i64, top: i64,
                        near: i64, far: i64) -> (r: Matrix)
        ensures r == Matrix::orthographic_s(left, right, bottom, top, near, far),
    {
        Matrix {
            m00: fx_div(FX_TWO, fx_sub(right, left)), m01: 0, m02: 0, m03: 0,
            m10: 0, m11: fx_div(FX_TWO, fx_sub(top, bottom)), m12: 0, m13: 0,
            m20: 0, m21: 0, m22: fx_div(fx_neg(FX_TWO), fx_sub(far, near)), m23: 0,
            m30: fx_div(fx_neg(fx_add(right, left)), fx_sub(right, left)),
            m31: fx_div(fx_neg(fx_add(top, bottom)), fx_sub(top, bottom)),
            m32: fx_div(fx_neg(fx_add(far, near)), fx_sub(far, near)),
            m33: FX_ONE,
        }
    }
}

/// Inversion round-trips on the identity exactly: it is the one fixture
/// free of fixed-point rounding, where `inverse` of `inverse` returns
/// the matrix itself. Rotations and projections round-trip only to
/// within rounding, which the executable fixtures exercise.
#[verifier::rlimit(100)]
pub proof fn lemma_identity_inverse_round_trip()
    ensures
        Matrix::inverse_s(Matrix::identity_s()) == Matrix::identity_s(),
        Matrix::inverse_s(Matrix::inverse_s(Matrix::identity_s())) == Matrix::identity_s(),
{
    assert(fxmul(FX_ONE, FX_ONE) == FX_ONE) by {
        assert((FX_ONE * FX_ONE) as int / (FX_ONE as int) == FX_ONE as int)
            by (nonlinear_arith);
    }
    assert(fxdiv(FX_ONE, FX_ONE) == FX_ONE) by {
        assert((FX_ONE * FX_ONE) as int / (FX_ONE as int) == FX_ONE as int)
            by (nonlinear_arith);
    }
    assert forall|s: i64| #[trigger] fxmul(0i64, s) == 0 by {
        assert(0 * s == 0);
    }
    assert forall|s: i64| #[trigger] fxmul(s, 0i64) == 0 by {
        assert(s * 0 == 0);
    }
    assert(Matrix::inverse_s(Matrix::identity_s()) == Matrix::identity_s());
}

} // verus!
