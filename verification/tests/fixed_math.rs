//! Exact-value checks of the fixed-point scalar, trigonometric, vector
//! and matrix operations.

use luma::fixed::{fx_add, fx_sub, fx_mul, fx_div, fx_neg, fx_sqrt, fx_clamp, fx_max0,
    FX_ONE, FX_TWO, FX_INF};
use luma::trig::{fx_sin, fx_cos, fx_tan, FX_PI, FX_HALF_PI, FX_TWO_PI};
use luma::vector::Vector;
use luma::matrix::Matrix;

#[test]
fn scalar_ops_are_exact_on_whole_values() {
    assert_eq!(fx_add(3 * FX_ONE, 4 * FX_ONE), 7 * FX_ONE);
    assert_eq!(fx_sub(3 * FX_ONE, 4 * FX_ONE), -FX_ONE);
    assert_eq!(fx_mul(3 * FX_ONE, 4 * FX_ONE), 12 * FX_ONE);
    assert_eq!(fx_div(12 * FX_ONE, 4 * FX_ONE), 3 * FX_ONE);
    assert_eq!(fx_mul(FX_ONE / 2, FX_ONE / 2), FX_ONE / 4);
    assert_eq!(fx_neg(5 * FX_ONE), -5 * FX_ONE);
}

#[test]
fn scalar_ops_saturate_instead_of_wrapping() {
    assert_eq!(fx_add(i64::MAX, FX_ONE), i64::MAX);
    assert_eq!(fx_sub(-i64::MAX, FX_ONE), -i64::MAX);
    assert_eq!(fx_mul(i64::MAX, i64::MAX), i64::MAX);
    assert_eq!(fx_mul(i64::MAX, -i64::MAX), -i64::MAX);
}

#[test]
fn division_by_zero_gives_the_signed_bound() {
    assert_eq!(fx_div(FX_ONE, 0), FX_INF);
    assert_eq!(fx_div(-FX_ONE, 0), -FX_INF);
}

#[test]
fn square_root_is_exact_on_perfect_squares() {
    assert_eq!(fx_sqrt(0), 0);
    assert_eq!(fx_sqrt(FX_ONE), FX_ONE);
    assert_eq!(fx_sqrt(4 * FX_ONE), 2 * FX_ONE);
    assert_eq!(fx_sqrt(25 * FX_ONE), 5 * FX_ONE);
}

#[test]
fn clamp_and_nonnegative_part() {
    assert_eq!(fx_clamp(3 * FX_ONE, -FX_ONE, FX_ONE), FX_ONE);
    assert_eq!(fx_clamp(-3 * FX_ONE, -FX_ONE, FX_ONE), -FX_ONE);
    assert_eq!(fx_clamp(1234, -FX_ONE, FX_ONE), 1234);
    assert_eq!(fx_max0(-5), 0);
    assert_eq!(fx_max0(5), 5);
}

#[test]
fn trigonometry_near_the_reference_points() {
    assert_eq!(fx_sin(0), 0);
    assert_eq!(fx_cos(0), FX_ONE);
    assert!((fx_sin(FX_HALF_PI) - FX_ONE).abs() < 200);
    assert!(fx_cos(FX_PI) < -FX_ONE + 600);
    assert!((fx_tan(FX_PI / 4) - FX_ONE).abs() < 700);
    // periodicity through the range reduction
    assert_eq!(fx_sin(FX_TWO_PI + 12345), fx_sin(12345));
}

#[test]
fn vector_componentwise_ops() {
    let a = Vector::new(FX_ONE, 2 * FX_ONE, 3 * FX_ONE, FX_ONE);
    let b = Vector::new(4 * FX_ONE, 5 * FX_ONE, 6 * FX_ONE, FX_ONE);
    let s = Vector::add(&a, &b);
    assert_eq!(s.raw(), [5 * FX_ONE, 7 * FX_ONE, 9 * FX_ONE, 2 * FX_ONE]);
    let d = Vector::sub(&b, &a);
    assert_eq!(d.raw(), [3 * FX_ONE, 3 * FX_ONE, 3 * FX_ONE, 0]);
    let m = Vector::mul(&a, &b);
    assert_eq!(m.raw(), [4 * FX_ONE, 10 * FX_ONE, 18 * FX_ONE, FX_ONE]);
    let sc = Vector::scale(&a, FX_TWO);
    assert_eq!(sc.raw(), [2 * FX_ONE, 4 * FX_ONE, 6 * FX_ONE, 2 * FX_ONE]);
}

#[test]
fn dot_product_excludes_w() {
    let a = Vector::new(FX_ONE, 2 * FX_ONE, 3 * FX_ONE, 100 * FX_ONE);
    let b = Vector::new(4 * FX_ONE, 5 * FX_ONE, 6 * FX_ONE, 100 * FX_ONE);
    // 1*4 + 2*5 + 3*6 = 32, no w term
    assert_eq!(Vector::dot(&a, &b), 32 * FX_ONE);
}

#[test]
fn cross_product_of_axes() {
    let x = Vector::new(FX_ONE, 0, 0, 0);
    let y = Vector::new(0, FX_ONE, 0, 0);
    let z = Vector::cross(&x, &y);
    assert_eq!(z.raw(), [0, 0, FX_ONE, 0]);
}

#[test]
fn length_and_normalize_of_a_3_4_triangle() {
    let v = Vector::new(3 * FX_ONE, 4 * FX_ONE, 0, 0);
    assert_eq!(Vector::length2(&v), 25 * FX_ONE);
    assert_eq!(Vector::length(&v), 5 * FX_ONE);
    let n = Vector::normalize(&v);
    // 1/5 truncates to 13107 steps; components scale exactly from there
    assert_eq!(n.raw(), [39321, 52428, 0, 0]);
}

#[test]
fn normalize_of_zero_is_zero() {
    let z = Vector::normalize(&Vector::zero());
    assert_eq!(z.raw(), [0, 0, 0, 0]);
}

#[test]
fn lerp_midpoint() {
    let a = Vector::zero();
    let b = Vector::one();
    let m = Vector::lerp(&a, &b, FX_ONE / 2);
    assert_eq!(m.raw(), [FX_ONE / 2, FX_ONE / 2, FX_ONE / 2, FX_ONE / 2]);
}

#[test]
fn reflect_about_the_up_normal() {
    let v = Vector::new(FX_ONE, -FX_ONE, 0, 0);
    let n = Vector::new(0, FX_ONE, 0, 0);
    let r = Vector::reflect(&v, &n);
    assert_eq!(r.raw(), [FX_ONE, FX_ONE, 0, 0]);
}

#[test]
fn matrix_identity_facts() {
    let i = Matrix::identity();
    let p = Matrix::mul(&i, &i);
    assert_eq!(p, i);
    assert_eq!(Matrix::determinant(&i), FX_ONE);
    assert_eq!(Matrix::transpose(&i), i);
    assert_eq!(Matrix::inverse(&i), i);
}

#[test]
fn apply_is_the_identity_on_the_identity_matrix() {
    let i = Matrix::identity();
    let v = Vector::new(FX_ONE, 2 * FX_ONE, 3 * FX_ONE, FX_ONE);
    let r = Matrix::apply(&i, &v);
    assert_eq!(r, v);
}

#[test]
fn apply_translates_points_in_the_row_vector_convention() {
    // a translation matrix carries its offsets in the bottom row
    let t = Matrix::new([
        [FX_ONE, 0, 0, 0],
        [0, FX_ONE, 0, 0],
        [0, 0, FX_ONE, 0],
        [10 * FX_ONE, 20 * FX_ONE, 30 * FX_ONE, FX_ONE],
    ]);
    let p = Vector::new(FX_ONE, 2 * FX_ONE, 3 * FX_ONE, FX_ONE);
    let r = Matrix::apply(&t, &p);
    assert_eq!(r.raw(), [11 * FX_ONE, 22 * FX_ONE, 33 * FX_ONE, FX_ONE]);
}

#[test]
fn minors_of_the_identity_are_the_identity() {
    let i = Matrix::identity();
    assert_eq!(Matrix::minors(&i), i);
    assert_eq!(Matrix::cofactors(&i), i);
    assert_eq!(Matrix::adjugate(&i), i);
    assert_eq!(Matrix::inverse_old(&i), i);
}

#[test]
fn minors_delete_one_row_and_one_column() {
    // a matrix of whole numbers whose (0,0) minor is the 3x3 determinant
    // of its lower right block
    let m = Matrix::new([
        [7 * FX_ONE, 0, 0, 0],
        [0, 2 * FX_ONE, 0, 0],
        [0, 0, 3 * FX_ONE, 0],
        [0, 0, 0, 4 * FX_ONE],
    ]);
    let minors = Matrix::minors(&m);
    assert_eq!(minors.m00, 24 * FX_ONE);
    assert_eq!(minors.m11, 84 * FX_ONE);
    assert_eq!(minors.m01, 0);
}

fn max_entry_diff(a: &Matrix, b: &Matrix) -> i64 {
    let mut worst: i64 = 0;
    let pairs = [
        (a.m00, b.m00), (a.m01, b.m01), (a.m02, b.m02), (a.m03, b.m03),
        (a.m10, b.m10), (a.m11, b.m11), (a.m12, b.m12), (a.m13, b.m13),
        (a.m20, b.m20), (a.m21, b.m21), (a.m22, b.m22), (a.m23, b.m23),
        (a.m30, b.m30), (a.m31, b.m31), (a.m32, b.m32), (a.m33, b.m33),
    ];
    for (x, y) in pairs {
        let d = (x - y).abs();
        if d > worst {
            worst = d;
        }
    }
    worst
}

#[test]
fn inverse_round_trip_identity() {
    let i = Matrix::identity();
    let back = Matrix::inverse(&Matrix::inverse(&i));
    assert_eq!(back, i);
}

#[test]
fn inverse_round_trip_rotation() {
    // a quarter turn about z
    let r = Matrix::new([
        [0, -FX_ONE, 0, 0],
        [FX_ONE, 0, 0, 0],
        [0, 0, FX_ONE, 0],
        [0, 0, 0, FX_ONE],
    ]);
    let back = Matrix::inverse(&Matrix::inverse(&r));
    assert!(max_entry_diff(&back, &r) <= 2);
}

#[test]
fn inverse_round_trip_perspective() {
    // ninety-degree vertical field of view, square aspect
    let p = Matrix::perspective(FX_HALF_PI, FX_ONE, 6554, 65536000);
    let back = Matrix::inverse(&Matrix::inverse(&p));
    assert!(max_entry_diff(&back, &p) <= 700);
}

#[test]
fn perspective_entries() {
    let p = Matrix::perspective(FX_HALF_PI, FX_ONE, FX_ONE, 100 * FX_ONE);
    // tan(pi/4) is one up to the polynomial's error, so the focal entries
    // sit near one
    assert!((p.m11 - FX_ONE).abs() < 1500);
    assert_eq!(p.m23, -FX_ONE);
    assert_eq!(p.m33, 0);
}

#[test]
fn orthographic_entries() {
    let o = Matrix::orthographic(-FX_ONE, FX_ONE, -FX_ONE, FX_ONE, 0, 2 * FX_ONE);
    assert_eq!(o.m00, FX_ONE);
    assert_eq!(o.m11, FX_ONE);
    assert_eq!(o.m22, -FX_ONE);
    assert_eq!(o.m33, FX_ONE);
}
