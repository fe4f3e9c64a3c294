//! 3x3 matrices, stored as three row vectors.
use vstd::prelude::*;

use crate::mat2::{mat2, Mat2};
use crate::mat4::{mat4, Mat4};
use crate::scalar::fits;
use crate::vec2::{vec2, Vec2};
use crate::vec3::{lemma_dot_add_left, lemma_dot_comm, lemma_dot_scale_left, vec3, Vec3};

verus! {

/// A 3x3 matrix whose rows are `x`, `y` and `z`: `m.x.y` is row 0, column 1.
#[derive(Clone, Copy, Debug, PartialEq, Eq, Hash)]
pub struct Mat3<T> {
    pub x: Vec3<T>,
    pub y: Vec3<T>,
    pub z: Vec3<T>,
}

/// Builds a matrix from its rows.
pub fn mat3<T>(x: Vec3<T>, y: Vec3<T>, z: Vec3<T>) -> (r: Mat3<T>)
    ensures
        r.x == x,
        r.y == y,
        r.z == z,
{
    Mat3 { x: x, y: y, z: z }
}

impl<T: Copy> Mat3<T> {
    /// Rows become columns.
    pub fn transpose(self) -> (r: Self)
        ensures
            r.x == (Vec3 { x: self.x.x, y: self.y.x, z: self.z.x }),
            r.y == (Vec3 { x: self.x.y, y: self.y.y, z: self.z.y }),
            r.z == (Vec3 { x: self.x.z, y: self.y.z, z: self.z.z }),
    {
        mat3(
            vec3(self.x.x, self.y.x, self.z.x),
            vec3(self.x.y, self.y.y, self.z.y),
            vec3(self.x.z, self.y.z, self.z.z),
        )
    }

    /// Embeds the matrix as the top-left block of a 4x4 matrix: each row
    /// gains the matching component of `right`, and the fourth row is
    /// `bottom` followed by `corner`.
    pub fn extend(self, right: Vec3<T>, bottom: Vec3<T>, corner: T) -> (r: Mat4<T>)
        ensures
            r.x.x == self.x.x && r.x.y == self.x.y && r.x.z == self.x.z && r.x.w == right.x,
            r.y.x == self.y.x && r.y.y == self.y.y && r.y.z == self.y.z && r.y.w == right.y,
            r.z.x == self.z.x && r.z.y == self.z.y && r.z.z == self.z.z && r.z.w == right.z,
            r.w.x == bottom.x && r.w.y == bottom.y && r.w.z == bottom.z && r.w.w == corner,
    {
        mat4(
            self.x.extend(right.x),
            self.y.extend(right.y),
            self.z.extend(right.z),
            bottom.extend(corner),
        )
    }
}

impl<T: Copy> Mat3<T> {
    /// The entries as nested arrays, row by row.
    pub fn into_array(self) -> (r: [[T; 3]; 3])
        ensures
            r[0]@ == seq![self.x.x, self.x.y, self.x.z],
            r[1]@ == seq![self.y.x, self.y.y, self.y.z],
            r[2]@ == seq![self.z.x, self.z.y, self.z.z],
    {
        [self.x.into_array(), self.y.into_array(), self.z.into_array()]
    }
}

impl View for Mat3<i64> {
    type V = Mat3<int>;

    open spec fn view(&self) -> Mat3<int> {
        Mat3 { x: self.x@, y: self.y@, z: self.z@ }
    }
}

/// The 2x2 matrix with rows `(a, b)` and `(c, d)`.
pub open spec fn block2(a: int, b: int, c: int, d: int) -> Mat2<int> {
    Mat2 { x: Vec2 { x: a, y: b }, y: Vec2 { x: c, y: d } }
}

/// The mathematical model: matrices of integers.
impl Mat3<int> {
    pub open spec fn spec_ident() -> Self {
        Mat3 {
            x: Vec3 { x: 1, y: 0, z: 0 },
            y: Vec3 { x: 0, y: 1, z: 0 },
            z: Vec3 { x: 0, y: 0, z: 1 },
        }
    }

    /// Every entry times `s`.
    pub open spec fn spec_scale(self, s: int) -> Self {
        Mat3 { x: self.x.spec_scale(s), y: self.y.spec_scale(s), z: self.z.spec_scale(s) }
    }

    pub open spec fn spec_transpose(self) -> Self {
        Mat3 {
            x: Vec3 { x: self.x.x, y: self.y.x, z: self.z.x },
            y: Vec3 { x: self.x.y, y: self.y.y, z: self.z.y },
            z: Vec3 { x: self.x.z, y: self.y.z, z: self.z.z },
        }
    }

    /// The six products of the rule of Sarrus, in the order they are summed.
    pub open spec fn det_terms(self) -> (int, int, int, int, int, int) {
        let (x, y, z) = (self.x, self.y, self.z);
        (
            x.x * y.y * z.z,
            x.y * y.z * z.x,
            x.z * y.x * z.y,
            x.x * y.z * z.y,
            x.y * y.x * z.z,
            x.z * y.y * z.x,
        )
    }

    pub open spec fn spec_det(self) -> int {
        let t = self.det_terms();
        t.0 + t.1 + t.2 - t.3 - t.4 - t.5
    }

    /// The determinant and each of its steps fit in an `i64`.
    pub open spec fn det_fits(self) -> bool {
        let (x, y, z) = (self.x, self.y, self.z);
        let t = self.det_terms();
        &&& fits(x.x * y.y) && fits(x.y * y.z) && fits(x.z * y.x)
        &&& fits(x.x * y.z) && fits(x.y * y.x) && fits(x.z * y.y)
        &&& fits(t.0) && fits(t.1) && fits(t.2) && fits(t.3) && fits(t.4) && fits(t.5)
        &&& fits(t.0 + t.1) && fits(t.0 + t.1 + t.2) && fits(t.0 + t.1 + t.2 - t.3)
        &&& fits(t.0 + t.1 + t.2 - t.3 - t.4) && fits(self.spec_det())
    }

    /// The 2x2 minors, entry `(i, j)` being the matrix without row `i` and
    /// column `j`.
    pub open spec fn spec_minors(self) -> Mat3<Mat2<int>> {
        let (x, y, z) = (self.x, self.y, self.z);
        Mat3 {
            x: Vec3 {
                x: block2(y.y, y.z, z.y, z.z),
                y: block2(y.x, y.z, z.x, z.z),
                z: block2(y.x, y.y, z.x, z.y),
            },
            y: Vec3 {
                x: block2(x.y, x.z, z.y, z.z),
                y: block2(x.x, x.z, z.x, z.z),
                z: block2(x.x, x.y, z.x, z.y),
            },
            z: Vec3 {
                x: block2(x.y, x.z, y.y, y.z),
                y: block2(x.x, x.z, y.x, y.z),
                z: block2(x.x, x.y, y.x, y.y),
            },
        }
    }

    /// Entry `(i, j)` is the determinant of minor `(i, j)`, negated where
    /// `i + j` is odd.
    pub open spec fn spec_cofactor(self) -> Self {
        let m = self.spec_minors();
        Mat3 {
            x: Vec3 { x: m.x.x.spec_det(), y: -m.x.y.spec_det(), z: m.x.z.spec_det() },
            y: Vec3 { x: -m.y.x.spec_det(), y: m.y.y.spec_det(), z: -m.y.z.spec_det() },
            z: Vec3 { x: m.z.x.spec_det(), y: -m.z.y.spec_det(), z: m.z.z.spec_det() },
        }
    }

    /// Every minor's determinant, and its negation where it is negated,
    /// fits in an `i64`.
    pub open spec fn cofactor_fits(self) -> bool {
        let m = self.spec_minors();
        &&& m.x.x.det_fits() && m.x.y.det_fits() && m.x.z.det_fits()
        &&& m.y.x.det_fits() && m.y.y.det_fits() && m.y.z.det_fits()
        &&& m.z.x.det_fits() && m.z.y.det_fits() && m.z.z.det_fits()
        &&& fits(-m.x.y.spec_det()) && fits(-m.y.x.spec_det())
        &&& fits(-m.y.z.spec_det()) && fits(-m.z.y.spec_det())
    }

    /// The transpose of the cofactor matrix.
    pub open spec fn spec_adjoint(self) -> Self {
        self.spec_cofactor().spec_transpose()
    }

    /// The adjoint with every entry divided by the determinant, rounded
    /// toward zero.
    pub open spec fn spec_inv(self) -> Self {
        let a = self.spec_adjoint();
        let d = self.spec_det();
        Mat3 { x: a.x.spec_div_scalar(d), y: a.y.spec_div_scalar(d), z: a.z.spec_div_scalar(d) }
    }

    /// The inverse can be computed in `i64` without overflow or division
    /// by zero.
    pub open spec fn inv_fits(self) -> bool {
        let a = self.spec_adjoint();
        let d = self.spec_det();
        &&& self.cofactor_fits()
        &&& self.det_fits()
        &&& a.x.div_scalar_ok(d) && a.y.div_scalar_ok(d) && a.z.div_scalar_ok(d)
    }

    /// Entry `(i, j)` is the dot product of row `i` of `self` with column
    /// `j` of `o`.
    pub open spec fn spec_mul(self, o: Self) -> Self {
        let t = o.spec_transpose();
        Mat3 {
            x: Vec3 { x: self.x.spec_dot(t.x), y: self.x.spec_dot(t.y), z: self.x.spec_dot(t.z) },
            y: Vec3 { x: self.y.spec_dot(t.x), y: self.y.spec_dot(t.y), z: self.y.spec_dot(t.z) },
            z: Vec3 { x: self.z.spec_dot(t.x), y: self.z.spec_dot(t.y), z: self.z.spec_dot(t.z) },
        }
    }

    pub open spec fn mul_fits(self, o: Self) -> bool {
        let t = o.spec_transpose();
        &&& self.x.dot_fits(t.x) && self.x.dot_fits(t.y) && self.x.dot_fits(t.z)
        &&& self.y.dot_fits(t.x) && self.y.dot_fits(t.y) && self.y.dot_fits(t.z)
        &&& self.z.dot_fits(t.x) && self.z.dot_fits(t.y) && self.z.dot_fits(t.z)
    }

    /// The matrix applied to a column vector.
    pub open spec fn spec_apply(self, v: Vec3<int>) -> Vec3<int> {
        Vec3 { x: self.x.spec_dot(v), y: self.y.spec_dot(v), z: self.z.spec_dot(v) }
    }

    pub open spec fn apply_fits(self, v: Vec3<int>) -> bool {
        self.x.dot_fits(v) && self.y.dot_fits(v) && self.z.dot_fits(v)
    }

    /// The row vector `a` times the matrix: the rows combined with the
    /// components of `a` as weights.
    pub open spec fn spec_left_mul(self, a: Vec3<int>) -> Vec3<int> {
        self.x.spec_scale(a.x).spec_add(self.y.spec_scale(a.y)).spec_add(self.z.spec_scale(a.z))
    }
}

impl Mat3<i64> {
    /// The identity matrix.
    pub fn ident() -> (r: Self)
        ensures
            r@ == Mat3::<int>::spec_ident(),
    {
        mat3(vec3(1, 0, 0), vec3(0, 1, 0), vec3(0, 0, 1))
    }

    /// The determinant, by the rule of Sarrus.
    pub fn det(self) -> (r: i64)
        requires
            self@.det_fits(),
        ensures
            r == self@.spec_det(),
    {
        let Mat3 { x, y, z } = self;
        x.x * y.y * z.z + x.y * y.z * z.x + x.z * y.x * z.y - x.x * y.z * z.y - x.y * y.x * z.z
            - x.z * y.y * z.x
    }

    /// The matrix of cofactors, each the signed determinant of a 2x2 minor.
    pub fn cofactor(self) -> (r: Self)
        requires
            self@.cofactor_fits(),
        ensures
            r@ == self@.spec_cofactor(),
    {
        let Mat3 { x, y, z } = self;
        mat3(
            vec3(
                mat2(vec2(y.y, y.z), vec2(z.y, z.z)).det(),
                -mat2(vec2(y.x, y.z), vec2(z.x, z.z)).det(),
                mat2(vec2(y.x, y.y), vec2(z.x, z.y)).det(),
            ),
            vec3(
                -mat2(vec2(x.y, x.z), vec2(z.y, z.z)).det(),
                mat2(vec2(x.x, x.z), vec2(z.x, z.z)).det(),
                -mat2(vec2(x.x, x.y), vec2(z.x, z.y)).det(),
            ),
            vec3(
                mat2(vec2(x.y, x.z), vec2(y.y, y.z)).det(),
                -mat2(vec2(x.x, x.z), vec2(y.x, y.z)).det(),
                mat2(vec2(x.x, x.y), vec2(y.x, y.y)).det(),
            ),
        )
    }

    /// The transpose of the cofactor matrix.
    pub fn adjoint(self) -> (r: Self)
        requires
            self@.cofactor_fits(),
        ensures
            r@ == self@.spec_adjoint(),
    {
        self.cofactor().transpose()
    }

    /// The inverse: each row of the adjoint divided by the determinant.
    pub fn inv(self) -> (r: Self)
        requires
            self@.inv_fits(),
        ensures
            r@ == self@.spec_inv(),
    {
        let Mat3 { x, y, z } = self.adjoint();
        mat3(x.div_scalar(self.det()), y.div_scalar(self.det()), z.div_scalar(self.det()))
    }

    /// The matrix applied to a column vector: one dot product per row.
    pub fn apply_to(self, v: Vec3<i64>) -> (r: Vec3<i64>)
        requires
            self@.apply_fits(v@),
        ensures
            r@ == self@.spec_apply(v@),
    {
        vec3(self.x.dot(v), self.y.dot(v), self.z.dot(v))
    }

    /// Entry-wise sum.
    pub fn add(self, o: Self) -> (r: Self)
        requires
            self@.x.spec_add(o@.x).all_fit(),
            self@.y.spec_add(o@.y).all_fit(),
            self@.z.spec_add(o@.z).all_fit(),
        ensures
            r@ == (Mat3 { x: self@.x.spec_add(o@.x), y: self@.y.spec_add(o@.y), z: self@.z.spec_add(o@.z) }),
    {
        mat3(self.x.add(o.x), self.y.add(o.y), self.z.add(o.z))
    }

    /// Entry-wise difference.
    pub fn sub(self, o: Self) -> (r: Self)
        requires
            self@.x.spec_sub(o@.x).all_fit(),
            self@.y.spec_sub(o@.y).all_fit(),
            self@.z.spec_sub(o@.z).all_fit(),
        ensures
            r@ == (Mat3 { x: self@.x.spec_sub(o@.x), y: self@.y.spec_sub(o@.y), z: self@.z.spec_sub(o@.z) }),
    {
        mat3(self.x.sub(o.x), self.y.sub(o.y), self.z.sub(o.z))
    }

    /// Every entry negated.
    pub fn neg(self) -> (r: Self)
        requires
            self@.x.spec_neg().all_fit(),
            self@.y.spec_neg().all_fit(),
            self@.z.spec_neg().all_fit(),
        ensures
            r@ == (Mat3 { x: self@.x.spec_neg(), y: self@.y.spec_neg(), z: self@.z.spec_neg() }),
    {
        mat3(self.x.neg(), self.y.neg(), self.z.neg())
    }

    /// The matrix product `self * o`.
    pub fn mul(self, o: Self) -> (r: Self)
        requires
            self@.mul_fits(o@),
        ensures
            r@ == self@.spec_mul(o@),
    {
        let t = o.transpose();
        mat3(
            vec3(self.x.dot(t.x), self.x.dot(t.y), self.x.dot(t.z)),
            vec3(self.y.dot(t.x), self.y.dot(t.y), self.y.dot(t.z)),
            vec3(self.z.dot(t.x), self.z.dot(t.y), self.z.dot(t.z)),
        )
    }
}

/// The polynomial identities behind `adjoint * m == det * identity`, for
/// the matrix with rows `(a, b, c)`, `(d, e, f)` and `(g, h, k)`.
proof fn lemma_adjoint_entries(a: int, b: int, c: int, d: int, e: int, f: int, g: int, h: int, k: int)
    ensures
        (e * k - f * h) * a + -(b * k - c * h) * d + (b * f - c * e) * g == (a * e * k + b * f * g + c * d * h - a * f * h - b * d * k - c * e * g),
        (e * k - f * h) * b + -(b * k - c * h) * e + (b * f - c * e) * h == 0,
        (e * k - f * h) * c + -(b * k - c * h) * f + (b * f - c * e) * k == 0,
        -(d * k - f * g) * a + (a * k - c * g) * d + -(a * f - c * d) * g == 0,
        -(d * k - f * g) * b + (a * k - c * g) * e + -(a * f - c * d) * h == (a * e * k + b * f * g + c * d * h - a * f * h - b * d * k - c * e * g),
        -(d * k - f * g) * c + (a * k - c * g) * f + -(a * f - c * d) * k == 0,
        (d * h - e * g) * a + -(a * h - b * g) * d + (a * e - b * d) * g == 0,
        (d * h - e * g) * b + -(a * h - b * g) * e + (a * e - b * d) * h == 0,
        (d * h - e * g) * c + -(a * h - b * g) * f + (a * e - b * d) * k == (a * e * k + b * f * g + c * d * h - a * f * h - b * d * k - c * e * g),
{
    assert((e * k - f * h) * a == (a * e * k - a * f * h)) by (nonlinear_arith);
    assert(-(b * k - c * h) * d == -(b * d * k - c * d * h)) by (nonlinear_arith);
    assert((b * f - c * e) * g == (b * f * g - c * e * g)) by (nonlinear_arith);
    assert((e * k - f * h) * a + -(b * k - c * h) * d + (b * f - c * e) * g == (a * e * k + b * f * g + c * d * h - a * f * h - b * d * k - c * e * g));
    assert((e * k - f * h) * b + -(b * k - c * h) * e + (b * f - c * e) * h == 0) by (nonlinear_arith);
    assert((e * k - f * h) * c + -(b * k - c * h) * f + (b * f - c * e) * k == 0) by (nonlinear_arith);
    assert(-(d * k - f * g) * a + (a * k - c * g) * d + -(a * f - c * d) * g == 0) by (nonlinear_arith);
    assert(-(d * k - f * g) * b == -(b * d * k - b * f * g)) by (nonlinear_arith);
    assert((a * k - c * g) * e == (a * e * k - c * e * g)) by (nonlinear_arith);
    assert(-(a * f - c * d) * h == -(a * f * h - c * d * h)) by (nonlinear_arith);
    assert(-(d * k - f * g) * b + (a * k - c * g) * e + -(a * f - c * d) * h == (a * e * k + b * f * g + c * d * h - a * f * h - b * d * k - c * e * g));
    assert(-(d * k - f * g) * c + (a * k - c * g) * f + -(a * f - c * d) * k == 0) by (nonlinear_arith);
    assert((d * h - e * g) * a + -(a * h - b * g) * d + (a * e - b * d) * g == 0) by (nonlinear_arith);
    assert((d * h - e * g) * b + -(a * h - b * g) * e + (a * e - b * d) * h == 0) by (nonlinear_arith);
    assert((d * h - e * g) * c == (c * d * h - c * e * g)) by (nonlinear_arith);
    assert(-(a * h - b * g) * f == -(a * f * h - b * f * g)) by (nonlinear_arith);
    assert((a * e - b * d) * k == (a * e * k - b * d * k)) by (nonlinear_arith);
    assert((d * h - e * g) * c + -(a * h - b * g) * f + (a * e - b * d) * k == (a * e * k + b * f * g + c * d * h - a * f * h - b * d * k - c * e * g));
}

/// The transpose of the transpose is the matrix itself.
pub proof fn lemma_transpose_transpose(m: Mat3<int>)
    ensures
        m.spec_transpose().spec_transpose() == m,
{
}

/// The determinant of the identity is one.
pub proof fn lemma_det_ident()
    ensures
        Mat3::<int>::spec_ident().spec_det() == 1,
{
}

/// Row `i` of a product is row `i` of the left factor times the right factor.
proof fn lemma_mul_rows(a: Mat3<int>, b: Mat3<int>)
    ensures
        a.spec_mul(b).x == b.spec_left_mul(a.x),
        a.spec_mul(b).y == b.spec_left_mul(a.y),
        a.spec_mul(b).z == b.spec_left_mul(a.z),
{
}

/// `(a * m) . c == a . (m * c)` for a row vector `a` and a column vector `c`.
proof fn lemma_left_mul_dot(m: Mat3<int>, a: Vec3<int>, c: Vec3<int>)
    ensures
        m.spec_left_mul(a).spec_dot(c) == a.spec_dot(m.spec_apply(c)),
{
    let (u, v, w) = (m.x.spec_scale(a.x), m.y.spec_scale(a.y), m.z.spec_scale(a.z));
    lemma_dot_add_left(u.spec_add(v), w, c);
    lemma_dot_add_left(u, v, c);
    lemma_dot_scale_left(a.x, m.x, c);
    lemma_dot_scale_left(a.y, m.y, c);
    lemma_dot_scale_left(a.z, m.z, c);
}

/// Matrix multiplication is associative.
pub proof fn lemma_mul_assoc(a: Mat3<int>, b: Mat3<int>, c: Mat3<int>)
    ensures
        a.spec_mul(b).spec_mul(c) == a.spec_mul(b.spec_mul(c)),
{
    let t = c.spec_transpose();
    lemma_mul_rows(a, b);
    lemma_left_mul_dot(b, a.x, t.x);
    lemma_left_mul_dot(b, a.x, t.y);
    lemma_left_mul_dot(b, a.x, t.z);
    lemma_left_mul_dot(b, a.y, t.x);
    lemma_left_mul_dot(b, a.y, t.y);
    lemma_left_mul_dot(b, a.y, t.z);
    lemma_left_mul_dot(b, a.z, t.x);
    lemma_left_mul_dot(b, a.z, t.y);
    lemma_left_mul_dot(b, a.z, t.z);
}

/// Applying a matrix to a sum is the sum of the applications.
pub proof fn lemma_apply_linear(m: Mat3<int>, v1: Vec3<int>, v2: Vec3<int>)
    ensures
        m.spec_apply(v1.spec_add(v2)) == m.spec_apply(v1).spec_add(m.spec_apply(v2)),
{
    lemma_dot_add_left(v1, v2, m.x);
    lemma_dot_add_left(v1, v2, m.y);
    lemma_dot_add_left(v1, v2, m.z);
    lemma_dot_comm(v1.spec_add(v2), m.x);
    lemma_dot_comm(v1.spec_add(v2), m.y);
    lemma_dot_comm(v1.spec_add(v2), m.z);
    lemma_dot_comm(v1, m.x);
    lemma_dot_comm(v1, m.y);
    lemma_dot_comm(v1, m.z);
    lemma_dot_comm(v2, m.x);
    lemma_dot_comm(v2, m.y);
    lemma_dot_comm(v2, m.z);
}

/// The adjoint times the matrix is the determinant times the identity.
pub proof fn lemma_adjoint_mul(m: Mat3<int>)
    ensures
        m.spec_adjoint().spec_mul(m) == Mat3::<int>::spec_ident().spec_scale(m.spec_det()),
{
    lemma_adjoint_entries(m.x.x, m.x.y, m.x.z, m.y.x, m.y.y, m.y.z, m.z.x, m.z.y, m.z.z);
}

/// For a matrix with an inverse over the integers (determinant 1 or -1),
/// the inverse times the matrix is the identity.
pub proof fn lemma_inv_mul(m: Mat3<int>)
    requires
        m.spec_det() == 1 || m.spec_det() == -1,
    ensures
        m.spec_inv().spec_mul(m) == Mat3::<int>::spec_ident(),
{
    lemma_adjoint_mul(m);
    let a = m.spec_adjoint();
    let i = m.spec_inv();
    if m.spec_det() == -1 {
        assert(i == a.spec_scale(-1));
        let t = m.spec_transpose();
        lemma_dot_scale_left(-1, a.x, t.x);
        lemma_dot_scale_left(-1, a.x, t.y);
        lemma_dot_scale_left(-1, a.x, t.z);
        lemma_dot_scale_left(-1, a.y, t.x);
        lemma_dot_scale_left(-1, a.y, t.y);
        lemma_dot_scale_left(-1, a.y, t.z);
        lemma_dot_scale_left(-1, a.z, t.x);
        lemma_dot_scale_left(-1, a.z, t.y);
        lemma_dot_scale_left(-1, a.z, t.z);
    } else {
        assert(i == a);
    }
}

} // verus!
