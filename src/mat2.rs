//! 2x2 matrices, stored as two row vectors.
use vstd::prelude::*;

use crate::scalar::{div_ok, fits, tdiv};
use crate::vec2::{lemma_dot_add_left, lemma_dot_comm, lemma_dot_scale_left, vec2, Vec2};

verus! {

/// A 2x2 matrix whose rows are `x` and `y`: `m.x.y` is row 0, column 1.
#[derive(Clone, Copy, Debug, PartialEq, Eq, Hash)]
pub struct Mat2<T> {
    pub x: Vec2<T>,
    pub y: Vec2<T>,
}

/// Builds a matrix from its rows.
pub fn mat2<T>(x: Vec2<T>, y: Vec2<T>) -> (r: Mat2<T>)
    ensures
        r.x == x,
        r.y == y,
{
    Mat2 { x: x, y: y }
}

impl<T: Copy> Mat2<T> {
    /// Rows become columns.
    pub fn transpose(self) -> (r: Self)
        ensures
            r.x.x == self.x.x,
            r.x.y == self.y.x,
            r.y.x == self.x.y,
            r.y.y == self.y.y,
    {
        mat2(vec2(self.x.x, self.y.x), vec2(self.x.y, self.y.y))
    }
}

impl View for Mat2<i64> {
    type V = Mat2<int>;

    open spec fn view(&self) -> Mat2<int> {
        Mat2 { x: self.x@, y: self.y@ }
    }
}

/// The mathematical model: matrices of integers.
impl Mat2<int> {
    pub open spec fn spec_ident() -> Self {
        Mat2 { x: Vec2 { x: 1, y: 0 }, y: Vec2 { x: 0, y: 1 } }
    }

    /// Every entry times `s`.
    pub open spec fn spec_scale(self, s: int) -> Self {
        Mat2 { x: self.x.spec_scale(s), y: self.y.spec_scale(s) }
    }

    pub open spec fn spec_transpose(self) -> Self {
        Mat2 { x: Vec2 { x: self.x.x, y: self.y.x }, y: Vec2 { x: self.x.y, y: self.y.y } }
    }

    pub open spec fn spec_det(self) -> int {
        self.x.x * self.y.y - self.x.y * self.y.x
    }

    /// The determinant and each of its steps fit in an `i64`.
    pub open spec fn det_fits(self) -> bool {
        fits(self.x.x * self.y.y) && fits(self.x.y * self.y.x) && fits(self.spec_det())
    }

    /// Entry `(i, j)` is the dot product of row `i` of `self` with column
    /// `j` of `o`.
    pub open spec fn spec_mul(self, o: Self) -> Self {
        let t = o.spec_transpose();
        Mat2 {
            x: Vec2 { x: self.x.spec_dot(t.x), y: self.x.spec_dot(t.y) },
            y: Vec2 { x: self.y.spec_dot(t.x), y: self.y.spec_dot(t.y) },
        }
    }

    pub open spec fn mul_fits(self, o: Self) -> bool {
        let t = o.spec_transpose();
        &&& self.x.dot_fits(t.x)
        &&& self.x.dot_fits(t.y)
        &&& self.y.dot_fits(t.x)
        &&& self.y.dot_fits(t.y)
    }

    /// The matrix applied to a column vector.
    pub open spec fn spec_apply(self, v: Vec2<int>) -> Vec2<int> {
        Vec2 { x: self.x.spec_dot(v), y: self.y.spec_dot(v) }
    }

    pub open spec fn apply_fits(self, v: Vec2<int>) -> bool {
        self.x.dot_fits(v) && self.y.dot_fits(v)
    }

    /// The row vector `a` times the matrix: the rows combined with the
    /// components of `a` as weights.
    pub open spec fn spec_left_mul(self, a: Vec2<int>) -> Vec2<int> {
        self.x.spec_scale(a.x).spec_add(self.y.spec_scale(a.y))
    }

    /// The transpose of the cofactor matrix.
    pub open spec fn spec_adjoint(self) -> Self {
        Mat2 { x: Vec2 { x: self.y.y, y: -self.x.y }, y: Vec2 { x: -self.y.x, y: self.x.x } }
    }

    /// The adjoint with every entry divided by the determinant, rounded
    /// toward zero.
    pub open spec fn spec_inv(self) -> Self {
        let a = self.spec_adjoint();
        let d = self.spec_det();
        Mat2 { x: a.x.spec_div_scalar(d), y: a.y.spec_div_scalar(d) }
    }

    /// The inverse can be computed in `i64` without overflow or division
    /// by zero.
    pub open spec fn inv_fits(self) -> bool {
        let a = self.spec_adjoint();
        let d = self.spec_det();
        &&& self.det_fits()
        &&& a.x.all_fit()
        &&& a.y.all_fit()
        &&& div_ok(a.x.x, d)
        &&& div_ok(a.x.y, d)
        &&& div_ok(a.y.x, d)
        &&& div_ok(a.y.y, d)
    }
}

impl Mat2<i64> {
    /// The identity matrix.
    pub fn ident() -> (r: Self)
        ensures
            r@ == Mat2::<int>::spec_ident(),
    {
        mat2(vec2(1, 0), vec2(0, 1))
    }

    pub fn det(self) -> (r: i64)
        requires
            self@.det_fits(),
        ensures
            r == self@.spec_det(),
    {
        self.x.x * self.y.y - self.x.y * self.y.x
    }

    /// The inverse: the adjoint divided by the determinant.
    pub fn inv(self) -> (r: Self)
        requires
            self@.inv_fits(),
        ensures
            r@ == self@.spec_inv(),
    {
        let d = self.det();
        mat2(vec2(self.y.y, -self.x.y), vec2(-self.y.x, self.x.x)).div_scalar(d)
    }

    /// Every entry divided by `s`, rounded toward zero.
    pub fn div_scalar(self, s: i64) -> (r: Self)
        requires
            div_ok(self.x.x as int, s as int),
            div_ok(self.x.y as int, s as int),
            div_ok(self.y.x as int, s as int),
            div_ok(self.y.y as int, s as int),
        ensures
            r@ == (Mat2 { x: self@.x.spec_div_scalar(s as int), y: self@.y.spec_div_scalar(s as int) }),
    {
        mat2(self.x.div_scalar(s), self.y.div_scalar(s))
    }

    /// The matrix applied to a column vector: one dot product per row.
    pub fn apply_to(self, v: Vec2<i64>) -> (r: Vec2<i64>)
        requires
            self@.apply_fits(v@),
        ensures
            r@ == self@.spec_apply(v@),
    {
        vec2(self.x.dot(v), self.y.dot(v))
    }

    /// The matrix product `self * o`.
    pub fn mul(self, o: Self) -> (r: Self)
        requires
            self@.mul_fits(o@),
        ensures
            r@ == self@.spec_mul(o@),
    {
        let t = o.transpose();
        mat2(vec2(self.x.dot(t.x), self.x.dot(t.y)), vec2(self.y.dot(t.x), self.y.dot(t.y)))
    }
}

/// The transpose of the transpose is the matrix itself.
pub proof fn lemma_transpose_transpose(m: Mat2<int>)
    ensures
        m.spec_transpose().spec_transpose() == m,
{
}

/// The determinant of the identity is one.
pub proof fn lemma_det_ident()
    ensures
        Mat2::<int>::spec_ident().spec_det() == 1,
{
}

/// Row `i` of a product is row `i` of the left factor times the right factor.
proof fn lemma_mul_rows(a: Mat2<int>, b: Mat2<int>)
    ensures
        a.spec_mul(b).x == b.spec_left_mul(a.x),
        a.spec_mul(b).y == b.spec_left_mul(a.y),
{
}

/// `(a * m) . c == a . (m * c)` for a row vector `a` and a column vector `c`.
proof fn lemma_left_mul_dot(m: Mat2<int>, a: Vec2<int>, c: Vec2<int>)
    ensures
        m.spec_left_mul(a).spec_dot(c) == a.spec_dot(m.spec_apply(c)),
{
    lemma_dot_add_left(m.x.spec_scale(a.x), m.y.spec_scale(a.y), c);
    lemma_dot_scale_left(a.x, m.x, c);
    lemma_dot_scale_left(a.y, m.y, c);
}

/// Matrix multiplication is associative.
pub proof fn lemma_mul_assoc(a: Mat2<int>, b: Mat2<int>, c: Mat2<int>)
    ensures
        a.spec_mul(b).spec_mul(c) == a.spec_mul(b.spec_mul(c)),
{
    let t = c.spec_transpose();
    lemma_mul_rows(a, b);
    lemma_left_mul_dot(b, a.x, t.x);
    lemma_left_mul_dot(b, a.x, t.y);
    lemma_left_mul_dot(b, a.y, t.x);
    lemma_left_mul_dot(b, a.y, t.y);
}

/// Applying a matrix to a sum is the sum of the applications.
pub proof fn lemma_apply_linear(m: Mat2<int>, v1: Vec2<int>, v2: Vec2<int>)
    ensures
        m.spec_apply(v1.spec_add(v2)) == m.spec_apply(v1).spec_add(m.spec_apply(v2)),
{
    lemma_dot_add_left(v1, v2, m.x);
    lemma_dot_add_left(v1, v2, m.y);
    lemma_dot_comm(v1.spec_add(v2), m.x);
    lemma_dot_comm(v1.spec_add(v2), m.y);
    lemma_dot_comm(v1, m.x);
    lemma_dot_comm(v1, m.y);
    lemma_dot_comm(v2, m.x);
    lemma_dot_comm(v2, m.y);
}

/// The adjoint times the matrix is the determinant times the identity.
pub proof fn lemma_adjoint_mul(m: Mat2<int>)
    ensures
        m.spec_adjoint().spec_mul(m) == Mat2::<int>::spec_ident().spec_scale(m.spec_det()),
{
    let (a, b, c, d) = (m.x.x, m.x.y, m.y.x, m.y.y);
    assert(d * a + (-b) * c == a * d - b * c) by (nonlinear_arith);
    assert(d * b + (-b) * d == 0) by (nonlinear_arith);
    assert((-c) * a + a * c == 0) by (nonlinear_arith);
    assert((-c) * b + a * d == a * d - b * c) by (nonlinear_arith);
}

/// For a matrix with an inverse over the integers (determinant 1 or -1),
/// the inverse times the matrix is the identity.
pub proof fn lemma_inv_mul(m: Mat2<int>)
    requires
        m.spec_det() == 1 || m.spec_det() == -1,
    ensures
        m.spec_inv().spec_mul(m) == Mat2::<int>::spec_ident(),
{
    lemma_adjoint_mul(m);
    let a = m.spec_adjoint();
    let d = m.spec_det();
    let i = m.spec_inv();
    if d == -1 {
        assert(i == a.spec_scale(-1));
        let t = m.spec_transpose();
        lemma_dot_scale_left(-1, a.x, t.x);
        lemma_dot_scale_left(-1, a.x, t.y);
        lemma_dot_scale_left(-1, a.y, t.x);
        lemma_dot_scale_left(-1, a.y, t.y);
    } else {
        assert(i == a);
    }
}

} // verus!
