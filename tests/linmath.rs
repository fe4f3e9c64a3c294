use linmath::mat2::{mat2, Mat2};
use linmath::mat3::{mat3, Mat3};
use linmath::mat4::{mat4, Mat4};
use linmath::scalar::{div_trunc, sqrt_floor};
use linmath::vec2::{distance as distance2, vec2, Vec2};
use linmath::vec3::{vec3, Vec3};
use linmath::vec4::{vec4, Vec4};
use linmath::vector::{distance, dot};

fn sample3() -> Mat3<i64> {
    mat3(vec3(2, -1, 0), vec3(1, 3, 4), vec3(0, 5, -2))
}

fn sample4() -> Mat4<i64> {
    mat4(
        vec4(1, 2, 0, 1),
        vec4(0, 1, 3, 0),
        vec4(2, 0, 1, 4),
        vec4(1, 1, 0, 2),
    )
}

#[test]
fn det_of_identity_is_one() {
    assert_eq!(Mat2::ident().det(), 1);
    assert_eq!(Mat3::ident().det(), 1);
    assert_eq!(Mat4::ident().det(), 1);
}

#[test]
fn det3_of_unit_rows() {
    assert_eq!(mat3(vec3(1, 0, 0), vec3(0, 1, 0), vec3(0, 0, 1)).det(), 1);
}

#[test]
fn det_exact_values() {
    assert_eq!(mat2(vec2(3, 8), vec2(4, 6)).det(), -14);
    assert_eq!(sample3().det(), -54);
    assert_eq!(sample4().det(), 7);
}

#[test]
fn dot3_scenario() {
    assert_eq!(vec3(1, 2, 3).dot(vec3(4, 5, 6)), 32);
    assert_eq!(dot(vec3(1, 2, 3), vec3(4, 5, 6)), 32);
    assert_eq!(dot(vec2(1, 2), vec2(3, 4)), 11);
    assert_eq!(dot(vec4(1, 2, 3, 4), vec4(5, 6, 7, 8)), 70);
}

#[test]
fn cofactor_transpose_is_adjoint() {
    let m = sample3();
    assert_eq!(m.cofactor().transpose(), m.adjoint());
    assert_eq!(m.cofactor(), mat3(vec3(-26, 2, 5), vec3(-2, -4, -10), vec3(-4, -8, 7)));
    let n = sample4();
    assert_eq!(n.cofactor().transpose(), n.adjoint());
}

#[test]
fn adjoint_times_matrix_is_det_identity() {
    let m = sample3();
    let p = m.adjoint().mul(m);
    let d = m.det();
    assert_eq!(p, mat3(vec3(d, 0, 0), vec3(0, d, 0), vec3(0, 0, d)));
    let n = sample4();
    let seven = mat4(vec4(7, 0, 0, 0), vec4(0, 7, 0, 0), vec4(0, 0, 7, 0), vec4(0, 0, 0, 7));
    assert_eq!(n.adjoint().mul(n), seven);
}

#[test]
fn inverse_of_unimodular_matrices() {
    let m2 = mat2(vec2(2, 1), vec2(1, 1));
    assert_eq!(m2.inv(), mat2(vec2(1, -1), vec2(-1, 2)));
    assert_eq!(m2.inv().mul(m2), Mat2::ident());
    let m3 = mat3(vec3(1, 2, 3), vec3(0, 1, 4), vec3(5, 6, 0));
    assert_eq!(m3.det(), 1);
    assert_eq!(m3.inv().mul(m3), Mat3::ident());
    let m3n = mat3(vec3(0, 1, 0), vec3(1, 0, 0), vec3(0, 0, 1));
    assert_eq!(m3n.det(), -1);
    assert_eq!(m3n.inv().mul(m3n), Mat3::ident());
    let u = mat4(vec4(1, 2, 0, 1), vec4(0, 1, 3, 0), vec4(0, 0, 1, 4), vec4(0, 0, 0, 1));
    let m4 = u.mul(u.transpose());
    assert_eq!(m4.det(), 1);
    assert_eq!(m4.inv().mul(m4), Mat4::ident());
}

#[test]
fn inverse_of_scaled_identity_truncates() {
    // Integer division: 2 / 4 rounds toward zero.
    let m = mat2(vec2(2, 0), vec2(0, 2));
    assert_eq!(m.inv(), mat2(vec2(0, 0), vec2(0, 0)));
    let m = mat2(vec2(4, 0), vec2(0, 1));
    assert_eq!(m.inv(), mat2(vec2(0, 0), vec2(0, 1)));
}

#[test]
fn transpose_twice() {
    let m = sample3();
    assert_eq!(m.transpose().transpose(), m);
    assert_eq!(m.transpose(), mat3(vec3(2, 1, 0), vec3(-1, 3, 5), vec3(0, 4, -2)));
    let n = sample4();
    assert_eq!(n.transpose().transpose(), n);
    let p = mat2(vec2(1, 2), vec2(3, 4));
    assert_eq!(p.transpose(), mat2(vec2(1, 3), vec2(2, 4)));
}

#[test]
fn multiplication_is_associative() {
    let a = sample3();
    let b = mat3(vec3(1, 0, 2), vec3(-1, 1, 0), vec3(3, 2, 1));
    let c = mat3(vec3(0, 1, 1), vec3(2, 0, -1), vec3(1, 1, 0));
    assert_eq!(a.mul(b).mul(c), a.mul(b.mul(c)));
    assert_eq!(a.mul(b), mat3(vec3(3, -1, 4), vec3(10, 11, 6), vec3(-11, 1, -2)));
    let d = sample4();
    let e = Mat4::ident();
    assert_eq!(d.mul(e).mul(d), d.mul(e.mul(d)));
}

#[test]
fn apply_is_linear() {
    let m = sample3();
    let v1 = vec3(1, 2, 3);
    let v2 = vec3(-4, 0, 7);
    assert_eq!(m.apply_to(v1.add(v2)), m.apply_to(v1).add(m.apply_to(v2)));
    assert_eq!(m.apply_to(v1), vec3(0, 19, 4));
    let p = mat2(vec2(1, 2), vec2(3, 4));
    assert_eq!(p.apply_to(vec2(5, 6)), vec2(17, 39));
    let q = sample4();
    assert_eq!(q.apply_to(vec4(1, 0, 0, 0)), vec4(1, 0, 2, 1));
}

#[test]
fn extend_keeps_top_left_block() {
    let m = sample3();
    let e = m.extend(vec3(7, 8, 9), vec3(10, 11, 12), 13);
    assert_eq!(e, mat4(vec4(2, -1, 0, 7), vec4(1, 3, 4, 8), vec4(0, 5, -2, 9), vec4(10, 11, 12, 13)));
    assert_eq!(vec3(e.x.x, e.x.y, e.x.z), m.x);
    assert_eq!(vec3(e.y.x, e.y.y, e.y.z), m.y);
    assert_eq!(vec3(e.z.x, e.z.y, e.z.z), m.z);
}

#[test]
fn vec2_component_wise() {
    let a = vec2(3i64, -4);
    let b = vec2(1i64, 5);
    assert_eq!(a.add(b), vec2(4, 1));
    assert_eq!(a.sub(b), vec2(2, -9));
    assert_eq!(a.mul(b), vec2(3, -20));
    assert_eq!(a.div(vec2(2, 3)), vec2(1, -1));
    assert_eq!(a.neg(), vec2(-3, 4));
    assert_eq!(a.scale(3), vec2(9, -12));
    assert_eq!(a.div_scalar(2), vec2(1, -2));
    assert_eq!(a.dot(b), -17);
    assert_eq!(a.sum_elem(), -1);
    assert_eq!(a.mul_elem(), -12);
    assert_eq!(a.max_elem(), 3);
    assert_eq!(a.min_elem(), -4);
}

#[test]
fn vec2_identities() {
    assert_eq!(Vec2::zero(), vec2(0, 0));
    assert_eq!(Vec2::one(), vec2(1, 1));
    assert_eq!(vec2(1, 2).extend(3), vec3(1, 2, 3));
    let v: Vec2<i64> = vec2(1i32, -2i32).convert();
    assert_eq!(v, vec2(1i64, -2i64));
}

#[test]
fn vec2_min_max_clamp() {
    let a = vec2(3i64, -4);
    let b = vec2(1i64, 5);
    assert_eq!(a.max(b), vec2(3, 5));
    assert_eq!(a.min(b), vec2(1, -4));
    assert_eq!(vec2(10i64, -10).clamp(vec2(0, 0), vec2(5, 5)), vec2(5, 0));
    assert_eq!(a.elem_max(0), vec2(3, 0));
    assert_eq!(a.elem_min(0), vec2(0, -4));
    assert_eq!(vec2(10i64, -10).elem_clamp(-2, 2), vec2(2, -2));
}

#[test]
fn vec2_magnitude_and_distance() {
    assert_eq!(vec2(3i64, 4).magnitude(), 5);
    assert_eq!(vec2(1i64, 1).magnitude(), 1);
    assert_eq!(vec2(0i64, 0).magnitude(), 0);
    assert_eq!(vec2(30i64, 40).normalize(), vec2(0, 0));
    assert_eq!(vec2(7i64, 0).normalize(), vec2(1, 0));
    assert_eq!(vec2(0i64, -3).normalize(), vec2(0, -1));
    assert_eq!(distance2(vec2(1, 1), vec2(4, 5)), 5);
    assert_eq!(distance(vec2(1, 1), vec2(4, 5)), 5);
    assert_eq!(distance(vec3(0, 0, 0), vec3(2, 3, 6)), 7);
    assert_eq!(distance(vec4(1, 1, 1, 1), vec4(2, 2, 2, 2)), 2);
}

#[test]
fn vec2_bool_reductions() {
    assert!(vec2(true, true).and());
    assert!(!vec2(true, false).and());
    assert!(vec2(false, true).or());
    assert!(!vec2(false, false).or());
}

#[test]
fn vector_ops_three_and_four() {
    assert_eq!(vec3(1, 2, 3).sub(vec3(3, 2, 1)), vec3(-2, 0, 2));
    assert_eq!(vec3(1, 2, 3).neg(), vec3(-1, -2, -3));
    assert_eq!(vec3(7, -7, 8).div_scalar(2), vec3(3, -3, 4));
    assert_eq!(vec3(1, 2, 3).extend(4), vec4(1, 2, 3, 4));
    assert_eq!(vec3(2, 3, 6).magnitude(), 7);
    assert_eq!(vec4(1, 2, 3, 4).add(vec4(1, 1, 1, 1)), vec4(2, 3, 4, 5));
    assert_eq!(vec4(1, 2, 3, 4).neg(), vec4(-1, -2, -3, -4));
    assert_eq!(vec4(9, -9, 3, 0).div_scalar(-2), vec4(-4, 4, -1, 0));
    assert_eq!(vec4(2, 2, 2, 2).magnitude(), 4);
    let _: Vec3<i64> = vec3(0, 0, 0);
    let _: Vec4<i64> = vec4(0, 0, 0, 0);
}

#[test]
fn truncating_division_and_square_root() {
    assert_eq!(div_trunc(-7, 2), -3);
    assert_eq!(div_trunc(7, -2), -3);
    assert_eq!(div_trunc(-7, -2), 3);
    assert_eq!(div_trunc(i64::MIN, i64::MIN), 1);
    assert_eq!(div_trunc(5, i64::MIN), 0);
    assert_eq!(sqrt_floor(24), 4);
    assert_eq!(sqrt_floor(25), 5);
    assert_eq!(sqrt_floor(i64::MAX), 3037000499);
}

#[test]
fn mat2_ops() {
    let a = mat2(vec2(1, 2), vec2(3, 4));
    let b = mat2(vec2(0, 1), vec2(1, 0));
    assert_eq!(a.mul(b), mat2(vec2(2, 1), vec2(4, 3)));
    assert_eq!(a.div_scalar(2), mat2(vec2(0, 1), vec2(1, 2)));
}

#[test]
fn mat3_entry_wise_ops() {
    let a = sample3();
    let b = Mat3::ident();
    assert_eq!(a.add(b), mat3(vec3(3, -1, 0), vec3(1, 4, 4), vec3(0, 5, -1)));
    assert_eq!(a.sub(b), mat3(vec3(1, -1, 0), vec3(1, 2, 4), vec3(0, 5, -3)));
    assert_eq!(a.neg(), mat3(vec3(-2, 1, 0), vec3(-1, -3, -4), vec3(0, -5, 2)));
}

#[test]
fn array_and_tuple_conversions() {
    assert_eq!(vec2(1, 2).into_array(), [1, 2]);
    assert_eq!(vec2(1, 2).into_tuple(), (1, 2));
    assert_eq!(vec3(1, 2, 3).into_array(), [1, 2, 3]);
    assert_eq!(vec3(1, 2, 3).into_tuple(), (1, 2, 3));
    assert_eq!(sample3().into_array(), [[2, -1, 0], [1, 3, 4], [0, 5, -2]]);
}
