//! 4x4 matrices, stored as four row vectors.
use vstd::prelude::*;

use crate::mat3::{mat3, Mat3};
use crate::scalar::fits;
use crate::vec3::{vec3, Vec3};
use crate::vec4::{lemma_dot_add_left, lemma_dot_comm, lemma_dot_scale_left, vec4, Vec4};

verus! {

/// A 4x4 matrix whose rows are `x`, `y`, `z` and `w`: `m.x.y` is row 0,
/// column 1.
#[derive(Clone, Copy, Debug, PartialEq, Eq, Hash)]
pub struct Mat4<T> {
    pub x: Vec4<T>,
    pub y: Vec4<T>,
    pub z: Vec4<T>,
    pub w: Vec4<T>,
}

/// Builds a matrix from its rows.
pub fn mat4<T>(x: Vec4<T>, y: Vec4<T>, z: Vec4<T>, w: Vec4<T>) -> (r: Mat4<T>)
    ensures
        r.x == x,
        r.y == y,
        r.z == z,
        r.w == w,
{
    Mat4 { x: x, y: y, z: z, w: w }
}

impl<T: Copy> Mat4<T> {
    /// Rows become columns.
    pub fn transpose(self) -> (r: Self)
        ensures
            r.x == (Vec4 { x: self.x.x, y: self.y.x, z: self.z.x, w: self.w.x }),
            r.y == (Vec4 { x: self.x.y, y: self.y.y, z: self.z.y, w: self.w.y }),
            r.z == (Vec4 { x: self.x.z, y: self.y.z, z: self.z.z, w: self.w.z }),
            r.w == (Vec4 { x: self.x.w, y: self.y.w, z: self.z.w, w: self.w.w }),
    {
        mat4(
            vec4(self.x.x, self.y.x, self.z.x, self.w.x),
            vec4(self.x.y, self.y.y, self.z.y, self.w.y),
            vec4(self.x.z, self.y.z, self.z.z, self.w.z),
            vec4(self.x.w, self.y.w, self.z.w, self.w.w),
        )
    }
}

impl View for Mat4<i64> {
    type V = Mat4<int>;

    open spec fn view(&self) -> Mat4<int> {
        Mat4 { x: self.x@, y: self.y@, z: self.z@, w: self.w@ }
    }
}

/// The 3x3 matrix with the given entries, row by row.
pub open spec fn block3(a: int, b: int, c: int, d: int, e: int, f: int, g: int, h: int, k: int) -> Mat3<int> {
    Mat3 { x: Vec3 { x: a, y: b, z: c }, y: Vec3 { x: d, y: e, z: f }, z: Vec3 { x: g, y: h, z: k } }
}

/// The mathematical model: matrices of integers.
impl Mat4<int> {
    pub open spec fn spec_ident() -> Self {
        Mat4 {
            x: Vec4 { x: 1, y: 0, z: 0, w: 0 },
            y: Vec4 { x: 0, y: 1, z: 0, w: 0 },
            z: Vec4 { x: 0, y: 0, z: 1, w: 0 },
            w: Vec4 { x: 0, y: 0, z: 0, w: 1 },
        }
    }

    /// Every entry times `s`.
    pub open spec fn spec_scale(self, s: int) -> Self {
        Mat4 {
            x: self.x.spec_scale(s),
            y: self.y.spec_scale(s),
            z: self.z.spec_scale(s),
            w: self.w.spec_scale(s),
        }
    }

    pub open spec fn spec_transpose(self) -> Self {
        Mat4 {
            x: Vec4 { x: self.x.x, y: self.y.x, z: self.z.x, w: self.w.x },
            y: Vec4 { x: self.x.y, y: self.y.y, z: self.z.y, w: self.w.y },
            z: Vec4 { x: self.x.z, y: self.y.z, z: self.z.z, w: self.w.z },
            w: Vec4 { x: self.x.w, y: self.y.w, z: self.z.w, w: self.w.w },
        }
    }

    /// The 3x3 minors, entry `(i, j)` being the matrix without row `i` and
    /// column `j`.
    pub open spec fn spec_minors(self) -> Mat4<Mat3<int>> {
        let (x, y, z, w) = (self.x, self.y, self.z, self.w);
        Mat4 {
            x: Vec4 {
                x: block3(y.y, y.z, y.w, z.y, z.z, z.w, w.y, w.z, w.w),
                y: block3(y.x, y.z, y.w, z.x, z.z, z.w, w.x, w.z, w.w),
                z: block3(y.x, y.y, y.w, z.x, z.y, z.w, w.x, w.y, w.w),
                w: block3(y.x, y.y, y.z, z.x, z.y, z.z, w.x, w.y, w.z),
            },
            y: Vec4 {
                x: block3(x.y, x.z, x.w, z.y, z.z, z.w, w.y, w.z, w.w),
                y: block3(x.x, x.z, x.w, z.x, z.z, z.w, w.x, w.z, w.w),
                z: block3(x.x, x.y, x.w, z.x, z.y, z.w, w.x, w.y, w.w),
                w: block3(x.x, x.y, x.z, z.x, z.y, z.z, w.x, w.y, w.z),
            },
            z: Vec4 {
                x: block3(x.y, x.z, x.w, y.y, y.z, y.w, w.y, w.z, w.w),
                y: block3(x.x, x.z, x.w, y.x, y.z, y.w, w.x, w.z, w.w),
                z: block3(x.x, x.y, x.w, y.x, y.y, y.w, w.x, w.y, w.w),
                w: block3(x.x, x.y, x.z, y.x, y.y, y.z, w.x, w.y, w.z),
            },
            w: Vec4 {
                x: block3(x.y, x.z, x.w, y.y, y.z, y.w, z.y, z.z, z.w),
                y: block3(x.x, x.z, x.w, y.x, y.z, y.w, z.x, z.z, z.w),
                z: block3(x.x, x.y, x.w, y.x, y.y, y.w, z.x, z.y, z.w),
                w: block3(x.x, x.y, x.z, y.x, y.y, y.z, z.x, z.y, z.z),
            },
        }
    }

    /// The four products of the expansion along the first row, in the
    /// order they are summed.
    pub open spec fn det_terms(self) -> (int, int, int, int) {
        let m = self.spec_minors();
        (
            self.x.x * m.x.x.spec_det(),
            self.x.y * m.x.y.spec_det(),
            self.x.z * m.x.z.spec_det(),
            self.x.w * m.x.w.spec_det(),
        )
    }

    /// The determinant, by cofactor expansion along the first row.
    pub open spec fn spec_det(self) -> int {
        let t = self.det_terms();
        t.0 - t.1 + t.2 - t.3
    }

    /// The determinant and each of its steps fit in an `i64`.
    pub open spec fn det_fits(self) -> bool {
        let m = self.spec_minors();
        let t = self.det_terms();
        &&& m.x.x.det_fits() && m.x.y.det_fits() && m.x.z.det_fits() && m.x.w.det_fits()
        &&& fits(t.0) && fits(t.1) && fits(t.2) && fits(t.3)
        &&& fits(t.0 - t.1) && fits(t.0 - t.1 + t.2) && fits(self.spec_det())
    }

    /// Entry `(i, j)` is the determinant of minor `(i, j)`, negated where
    /// `i + j` is odd.
    pub open spec fn spec_cofactor(self) -> Self {
        let m = self.spec_minors();
        Mat4 {
            x: Vec4 {
                x: m.x.x.spec_det(),
                y: -m.x.y.spec_det(),
                z: m.x.z.spec_det(),
                w: -m.x.w.spec_det(),
            },
            y: Vec4 {
                x: -m.y.x.spec_det(),
                y: m.y.y.spec_det(),
                z: -m.y.z.spec_det(),
                w: m.y.w.spec_det(),
            },
            z: Vec4 {
                x: m.z.x.spec_det(),
                y: -m.z.y.spec_det(),
                z: m.z.z.spec_det(),
                w: -m.z.w.spec_det(),
            },
            w: Vec4 {
                x: -m.w.x.spec_det(),
                y: m.w.y.spec_det(),
                z: -m.w.z.spec_det(),
                w: m.w.w.spec_det(),
            },
        }
    }

    /// Every minor's determinant, and its negation where it is negated,
    /// fits in an `i64`.
    pub open spec fn cofactor_fits(self) -> bool {
        let m = self.spec_minors();
        &&& m.x.x.det_fits()
        &&& m.x.y.det_fits()
        &&& m.x.z.det_fits()
        &&& m.x.w.det_fits()
        &&& m.y.x.det_fits()
        &&& m.y.y.det_fits()
        &&& m.y.z.det_fits()
        &&& m.y.w.det_fits()
        &&& m.z.x.det_fits()
        &&& m.z.y.det_fits()
        &&& m.z.z.det_fits()
        &&& m.z.w.det_fits()
        &&& m.w.x.det_fits()
        &&& m.w.y.det_fits()
        &&& m.w.z.det_fits()
        &&& m.w.w.det_fits()
        &&& fits(-m.x.y.spec_det())
        &&& fits(-m.x.w.spec_det())
        &&& fits(-m.y.x.spec_det())
        &&& fits(-m.y.z.spec_det())
        &&& fits(-m.z.y.spec_det())
        &&& fits(-m.z.w.spec_det())
        &&& fits(-m.w.x.spec_det())
        &&& fits(-m.w.z.spec_det())
    }

    /// The transpose of the cofactor matrix.
    pub open spec fn spec_adjoint(self) -> Self {
        self.spec_cofactor().spec_transpose()
    }

    /// The adjoint with every entry divided by the determinant, rounded
    /// toward zero.
    pub open spec fn spec_inv(self) -> Self {
        let a = self.spec_adjoint();
        let d = self.spec_det();
        Mat4 {
            x: a.x.spec_div_scalar(d),
            y: a.y.spec_div_scalar(d),
            z: a.z.spec_div_scalar(d),
            w: a.w.spec_div_scalar(d),
        }
    }

    /// The inverse can be computed in `i64` without overflow or division
    /// by zero.
    pub open spec fn inv_fits(self) -> bool {
        let a = self.spec_adjoint();
        let d = self.spec_det();
        &&& self.cofactor_fits()
        &&& self.det_fits()
        &&& a.x.div_scalar_ok(d) && a.y.div_scalar_ok(d)
        &&& a.z.div_scalar_ok(d) && a.w.div_scalar_ok(d)
    }

    /// Entry `(i, j)` is the dot product of row `i` of `self` with column
    /// `j` of `o`.
    pub open spec fn spec_mul(self, o: Self) -> Self {
        let t = o.spec_transpose();
        Mat4 {
            x: Vec4 { x: self.x.spec_dot(t.x), y: self.x.spec_dot(t.y), z: self.x.spec_dot(t.z), w: self.x.spec_dot(t.w) },
            y: Vec4 { x: self.y.spec_dot(t.x), y: self.y.spec_dot(t.y), z: self.y.spec_dot(t.z), w: self.y.spec_dot(t.w) },
            z: Vec4 { x: self.z.spec_dot(t.x), y: self.z.spec_dot(t.y), z: self.z.spec_dot(t.z), w: self.z.spec_dot(t.w) },
            w: Vec4 { x: self.w.spec_dot(t.x), y: self.w.spec_dot(t.y), z: self.w.spec_dot(t.z), w: self.w.spec_dot(t.w) },
        }
    }

    pub open spec fn mul_fits(self, o: Self) -> bool {
        let t = o.spec_transpose();
        &&& self.x.dot_fits(t.x) && self.x.dot_fits(t.y) && self.x.dot_fits(t.z) && self.x.dot_fits(t.w)
        &&& self.y.dot_fits(t.x) && self.y.dot_fits(t.y) && self.y.dot_fits(t.z) && self.y.dot_fits(t.w)
        &&& self.z.dot_fits(t.x) && self.z.dot_fits(t.y) && self.z.dot_fits(t.z) && self.z.dot_fits(t.w)
        &&& self.w.dot_fits(t.x) && self.w.dot_fits(t.y) && self.w.dot_fits(t.z) && self.w.dot_fits(t.w)
    }

    /// The matrix applied to a column vector.
    pub open spec fn spec_apply(self, v: Vec4<int>) -> Vec4<int> {
        Vec4 {
            x: self.x.spec_dot(v),
            y: self.y.spec_dot(v),
            z: self.z.spec_dot(v),
            w: self.w.spec_dot(v),
        }
    }

    pub open spec fn apply_fits(self, v: Vec4<int>) -> bool {
        self.x.dot_fits(v) && self.y.dot_fits(v) && self.z.dot_fits(v) && self.w.dot_fits(v)
    }

    /// The row vector `a` times the matrix: the rows combined with the
    /// components of `a` as weights.
    pub open spec fn spec_left_mul(self, a: Vec4<int>) -> Vec4<int> {
        self.x.spec_scale(a.x).spec_add(self.y.spec_scale(a.y)).spec_add(
            self.z.spec_scale(a.z),
        ).spec_add(self.w.spec_scale(a.w))
    }
}

impl Mat4<i64> {
    /// The identity matrix.
    pub fn ident() -> (r: Self)
        ensures
            r@ == Mat4::<int>::spec_ident(),
    {
        mat4(
            vec4(1, 0, 0, 0),
            vec4(0, 1, 0, 0),
            vec4(0, 0, 1, 0),
            vec4(0, 0, 0, 1),
        )
    }

    /// The determinant, by cofactor expansion along the first row.
    pub fn det(self) -> (r: i64)
        requires
            self@.det_fits(),
        ensures
            r == self@.spec_det(),
    {
        let Mat4 { x, y, z, w } = self;
        x.x * mat3(vec3(y.y, y.z, y.w), vec3(z.y, z.z, z.w), vec3(w.y, w.z, w.w)).det() - x.y * mat3(vec3(y.x, y.z, y.w), vec3(z.x, z.z, z.w), vec3(w.x, w.z, w.w)).det()
            + x.z * mat3(vec3(y.x, y.y, y.w), vec3(z.x, z.y, z.w), vec3(w.x, w.y, w.w)).det() - x.w * mat3(vec3(y.x, y.y, y.z), vec3(z.x, z.y, z.z), vec3(w.x, w.y, w.z)).det()
    }

    /// The matrix of cofactors, each the signed determinant of a 3x3 minor.
    pub fn cofactor(self) -> (r: Self)
        requires
            self@.cofactor_fits(),
        ensures
            r@ == self@.spec_cofactor(),
    {
        let Mat4 { x, y, z, w } = self;
        mat4(
            vec4(
                mat3(vec3(y.y, y.z, y.w), vec3(z.y, z.z, z.w), vec3(w.y, w.z, w.w)).det(),
                -mat3(vec3(y.x, y.z, y.w), vec3(z.x, z.z, z.w), vec3(w.x, w.z, w.w)).det(),
                mat3(vec3(y.x, y.y, y.w), vec3(z.x, z.y, z.w), vec3(w.x, w.y, w.w)).det(),
                -mat3(vec3(y.x, y.y, y.z), vec3(z.x, z.y, z.z), vec3(w.x, w.y, w.z)).det(),
            ),
            vec4(
                -mat3(vec3(x.y, x.z, x.w), vec3(z.y, z.z, z.w), vec3(w.y, w.z, w.w)).det(),
                mat3(vec3(x.x, x.z, x.w), vec3(z.x, z.z, z.w), vec3(w.x, w.z, w.w)).det(),
                -mat3(vec3(x.x, x.y, x.w), vec3(z.x, z.y, z.w), vec3(w.x, w.y, w.w)).det(),
                mat3(vec3(x.x, x.y, x.z), vec3(z.x, z.y, z.z), vec3(w.x, w.y, w.z)).det(),
            ),
            vec4(
                mat3(vec3(x.y, x.z, x.w), vec3(y.y, y.z, y.w), vec3(w.y, w.z, w.w)).det(),
                -mat3(vec3(x.x, x.z, x.w), vec3(y.x, y.z, y.w), vec3(w.x, w.z, w.w)).det(),
                mat3(vec3(x.x, x.y, x.w), vec3(y.x, y.y, y.w), vec3(w.x, w.y, w.w)).det(),
                -mat3(vec3(x.x, x.y, x.z), vec3(y.x, y.y, y.z), vec3(w.x, w.y, w.z)).det(),
            ),
            vec4(
                -mat3(vec3(x.y, x.z, x.w), vec3(y.y, y.z, y.w), vec3(z.y, z.z, z.w)).det(),
                mat3(vec3(x.x, x.z, x.w), vec3(y.x, y.z, y.w), vec3(z.x, z.z, z.w)).det(),
                -mat3(vec3(x.x, x.y, x.w), vec3(y.x, y.y, y.w), vec3(z.x, z.y, z.w)).det(),
                mat3(vec3(x.x, x.y, x.z), vec3(y.x, y.y, y.z), vec3(z.x, z.y, z.z)).det(),
            ),
        )
    }

    /// The transpose of the cofactor matrix.
    pub fn adjoint(self) -> (r: Self)
        requires
            self@.cofactor_fits(),
        ensures
            r@ == self@.spec_adjoint(),
    {
        self.cofactor().transpose()
    }

    /// The inverse: each row of the adjoint divided by the determinant.
    pub fn inv(self) -> (r: Self)
        requires
            self@.inv_fits(),
        ensures
            r@ == self@.spec_inv(),
    {
        let d = self.det();
        let Mat4 { x, y, z, w } = self.adjoint();
        mat4(x.div_scalar(d), y.div_scalar(d), z.div_scalar(d), w.div_scalar(d))
    }

    /// The matrix applied to a column vector: one dot product per row.
    pub fn apply_to(self, v: Vec4<i64>) -> (r: Vec4<i64>)
        requires
            self@.apply_fits(v@),
        ensures
            r@ == self@.spec_apply(v@),
    {
        vec4(self.x.dot(v), self.y.dot(v), self.z.dot(v), self.w.dot(v))
    }

    /// The matrix product `self * o`.
    pub fn mul(self, o: Self) -> (r: Self)
        requires
            self@.mul_fits(o@),
        ensures
            r@ == self@.spec_mul(o@),
    {
        let t = o.transpose();
        mat4(
            vec4(self.x.dot(t.x), self.x.dot(t.y), self.x.dot(t.z), self.x.dot(t.w)),
            vec4(self.y.dot(t.x), self.y.dot(t.y), self.y.dot(t.z), self.y.dot(t.w)),
            vec4(self.z.dot(t.x), self.z.dot(t.y), self.z.dot(t.z), self.z.dot(t.w)),
            vec4(self.w.dot(t.x), self.w.dot(t.y), self.w.dot(t.z), self.w.dot(t.w)),
        )
    }
}

/// The transpose of the transpose is the matrix itself.
pub proof fn lemma_transpose_transpose(m: Mat4<int>)
    ensures
        m.spec_transpose().spec_transpose() == m,
{
}

/// The determinant of the identity is one.
pub proof fn lemma_det_ident()
    ensures
        Mat4::<int>::spec_ident().spec_det() == 1,
{
}

/// Row `i` of a product is row `i` of the left factor times the right factor.
proof fn lemma_mul_rows(a: Mat4<int>, b: Mat4<int>)
    ensures
        a.spec_mul(b).x == b.spec_left_mul(a.x),
        a.spec_mul(b).y == b.spec_left_mul(a.y),
        a.spec_mul(b).z == b.spec_left_mul(a.z),
        a.spec_mul(b).w == b.spec_left_mul(a.w),
{
}

/// `(a * m) . c == a . (m * c)` for a row vector `a` and a column vector `c`.
proof fn lemma_left_mul_dot(m: Mat4<int>, a: Vec4<int>, c: Vec4<int>)
    ensures
        m.spec_left_mul(a).spec_dot(c) == a.spec_dot(m.spec_apply(c)),
{
    let (u, v) = (m.x.spec_scale(a.x), m.y.spec_scale(a.y));
    let (p, q) = (m.z.spec_scale(a.z), m.w.spec_scale(a.w));
    lemma_dot_add_left(u.spec_add(v).spec_add(p), q, c);
    lemma_dot_add_left(u.spec_add(v), p, c);
    lemma_dot_add_left(u, v, c);
    lemma_dot_scale_left(a.x, m.x, c);
    lemma_dot_scale_left(a.y, m.y, c);
    lemma_dot_scale_left(a.z, m.z, c);
    lemma_dot_scale_left(a.w, m.w, c);
}

/// Matrix multiplication is associative.
pub proof fn lemma_mul_assoc(a: Mat4<int>, b: Mat4<int>, c: Mat4<int>)
    ensures
        a.spec_mul(b).spec_mul(c) == a.spec_mul(b.spec_mul(c)),
{
    let t = c.spec_transpose();
    lemma_mul_rows(a, b);
    lemma_left_mul_dot(b, a.x, t.x);
    lemma_left_mul_dot(b, a.x, t.y);
    lemma_left_mul_dot(b, a.x, t.z);
    lemma_left_mul_dot(b, a.x, t.w);
    lemma_left_mul_dot(b, a.y, t.x);
    lemma_left_mul_dot(b, a.y, t.y);
    lemma_left_mul_dot(b, a.y, t.z);
    lemma_left_mul_dot(b, a.y, t.w);
    lemma_left_mul_dot(b, a.z, t.x);
    lemma_left_mul_dot(b, a.z, t.y);
    lemma_left_mul_dot(b, a.z, t.z);
    lemma_left_mul_dot(b, a.z, t.w);
    lemma_left_mul_dot(b, a.w, t.x);
    lemma_left_mul_dot(b, a.w, t.y);
    lemma_left_mul_dot(b, a.w, t.z);
    lemma_left_mul_dot(b, a.w, t.w);
}

/// Applying a matrix to a sum is the sum of the applications.
pub proof fn lemma_apply_linear(m: Mat4<int>, v1: Vec4<int>, v2: Vec4<int>)
    ensures
        m.spec_apply(v1.spec_add(v2)) == m.spec_apply(v1).spec_add(m.spec_apply(v2)),
{
    lemma_dot_add_left(v1, v2, m.x);
    lemma_dot_add_left(v1, v2, m.y);
    lemma_dot_add_left(v1, v2, m.z);
    lemma_dot_add_left(v1, v2, m.w);
    lemma_dot_comm(v1.spec_add(v2), m.x);
    lemma_dot_comm(v1.spec_add(v2), m.y);
    lemma_dot_comm(v1.spec_add(v2), m.z);
    lemma_dot_comm(v1.spec_add(v2), m.w);
    lemma_dot_comm(v1, m.x);
    lemma_dot_comm(v1, m.y);
    lemma_dot_comm(v1, m.z);
    lemma_dot_comm(v1, m.w);
    lemma_dot_comm(v2, m.x);
    lemma_dot_comm(v2, m.y);
    lemma_dot_comm(v2, m.z);
    lemma_dot_comm(v2, m.w);
}

} // verus!
