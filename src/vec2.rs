//! Two-component vectors.
use vstd::prelude::*;

use crate::scalar::{div_ok, div_trunc, fits, floor_sqrt, is_floor_sqrt, sqrt_floor, tdiv};
use crate::vec3::{vec3, Vec3};

verus! {

/// A vector with components `x` and `y`, in that order.
#[derive(Clone, Copy, Debug, PartialEq, Eq, PartialOrd, Ord, Hash)]
pub struct Vec2<T> {
    pub x: T,
    pub y: T,
}

/// Builds a vector from its components.
pub fn vec2<T>(x: T, y: T) -> (r: Vec2<T>)
    ensures
        r.x == x,
        r.y == y,
{
    Vec2 { x: x, y: y }
}

impl<T> Vec2<T> {
    /// Appends a third component.
    pub fn extend(self, z: T) -> (r: Vec3<T>)
        ensures
            r.x == self.x,
            r.y == self.y,
            r.z == z,
    {
        vec3(self.x, self.y, z)
    }

    /// Converts each component with `Into`.
    pub fn convert<U>(self) -> (r: Vec2<U>)
        where
            T: Into<U>,
        ensures
            <T as vstd::std_specs::convert::IntoSpec<U>>::obeys_into_spec() ==> r == (Vec2 {
                x: <T as vstd::std_specs::convert::IntoSpec<U>>::into_spec(self.x),
                y: <T as vstd::std_specs::convert::IntoSpec<U>>::into_spec(self.y),
            }),
    {
        vec2(self.x.into(), self.y.into())
    }
}

impl<T: Copy> Vec2<T> {
    /// The components as an array, in order.
    pub fn into_array(self) -> (r: [T; 2])
        ensures
            r@ == seq![self.x, self.y],
    {
        [self.x, self.y]
    }

    /// The components as a tuple, in order.
    pub fn into_tuple(self) -> (r: (T, T))
        ensures
            r == (self.x, self.y),
    {
        (self.x, self.y)
    }
}

impl View for Vec2<i64> {
    type V = Vec2<int>;

    open spec fn view(&self) -> Vec2<int> {
        Vec2 { x: self.x as int, y: self.y as int }
    }
}

/// The mathematical model: vectors of integers.
impl Vec2<int> {
    pub open spec fn spec_add(self, o: Self) -> Self {
        Vec2 { x: self.x + o.x, y: self.y + o.y }
    }

    pub open spec fn spec_sub(self, o: Self) -> Self {
        Vec2 { x: self.x - o.x, y: self.y - o.y }
    }

    /// Component-wise product.
    pub open spec fn spec_mul(self, o: Self) -> Self {
        Vec2 { x: self.x * o.x, y: self.y * o.y }
    }

    pub open spec fn spec_neg(self) -> Self {
        Vec2 { x: -self.x, y: -self.y }
    }

    pub open spec fn spec_scale(self, s: int) -> Self {
        Vec2 { x: s * self.x, y: s * self.y }
    }

    /// Each component divided by `s`, rounded toward zero.
    pub open spec fn spec_div_scalar(self, s: int) -> Self {
        Vec2 { x: tdiv(self.x, s), y: tdiv(self.y, s) }
    }

    pub open spec fn spec_sum(self) -> int {
        self.x + self.y
    }

    pub open spec fn spec_dot(self, o: Self) -> int {
        self.spec_mul(o).spec_sum()
    }

    /// The squared length.
    pub open spec fn spec_norm2(self) -> int {
        self.x * self.x + self.y * self.y
    }

    /// The length, rounded down.
    pub open spec fn spec_magnitude(self) -> int {
        floor_sqrt(self.spec_norm2())
    }

    pub open spec fn all_fit(self) -> bool {
        fits(self.x) && fits(self.y)
    }

    /// The dot product and each of its steps fit in an `i64`.
    pub open spec fn dot_fits(self, o: Self) -> bool {
        self.spec_mul(o).all_fit() && fits(self.spec_dot(o))
    }

    /// The squared length fits in an `i64`.
    pub open spec fn norm_fits(self) -> bool {
        self.spec_norm2() <= i64::MAX
    }

    pub open spec fn spec_max(self, o: Self) -> Self {
        Vec2 {
            x: if self.x < o.x { o.x } else { self.x },
            y: if self.y < o.y { o.y } else { self.y },
        }
    }

    pub open spec fn spec_min(self, o: Self) -> Self {
        Vec2 {
            x: if self.x > o.x { o.x } else { self.x },
            y: if self.y > o.y { o.y } else { self.y },
        }
    }
}

impl Vec2<i64> {
    /// The vector with both components zero.
    pub fn zero() -> (r: Self)
        ensures
            r@ == (Vec2::<int> { x: 0, y: 0 }),
    {
        vec2(0, 0)
    }

    /// The vector with both components one.
    pub fn one() -> (r: Self)
        ensures
            r@ == (Vec2::<int> { x: 1, y: 1 }),
    {
        vec2(1, 1)
    }

    pub fn add(self, o: Self) -> (r: Self)
        requires
            self@.spec_add(o@).all_fit(),
        ensures
            r@ == self@.spec_add(o@),
    {
        vec2(self.x + o.x, self.y + o.y)
    }

    pub fn sub(self, o: Self) -> (r: Self)
        requires
            self@.spec_sub(o@).all_fit(),
        ensures
            r@ == self@.spec_sub(o@),
    {
        vec2(self.x - o.x, self.y - o.y)
    }

    /// Component-wise product.
    pub fn mul(self, o: Self) -> (r: Self)
        requires
            self@.spec_mul(o@).all_fit(),
        ensures
            r@ == self@.spec_mul(o@),
    {
        vec2(self.x * o.x, self.y * o.y)
    }

    /// Component-wise quotient, rounded toward zero.
    pub fn div(self, o: Self) -> (r: Self)
        requires
            div_ok(self.x as int, o.x as int),
            div_ok(self.y as int, o.y as int),
        ensures
            r@ == (Vec2::<int> { x: tdiv(self@.x, o@.x), y: tdiv(self@.y, o@.y) }),
    {
        vec2(div_trunc(self.x, o.x), div_trunc(self.y, o.y))
    }

    pub fn neg(self) -> (r: Self)
        requires
            self@.spec_neg().all_fit(),
        ensures
            r@ == self@.spec_neg(),
    {
        vec2(-self.x, -self.y)
    }

    /// Each component times `s`.
    pub fn scale(self, s: i64) -> (r: Self)
        requires
            self@.spec_scale(s as int).all_fit(),
        ensures
            r@ == self@.spec_scale(s as int),
    {
        vec2(s * self.x, s * self.y)
    }

    /// Each component divided by `s`, rounded toward zero.
    pub fn div_scalar(self, s: i64) -> (r: Self)
        requires
            div_ok(self.x as int, s as int),
            div_ok(self.y as int, s as int),
        ensures
            r@ == self@.spec_div_scalar(s as int),
    {
        vec2(div_trunc(self.x, s), div_trunc(self.y, s))
    }

    /// Sum of the component-wise products.
    pub fn dot(self, o: Self) -> (r: i64)
        requires
            self@.dot_fits(o@),
        ensures
            r == self@.spec_dot(o@),
    {
        self.mul(o).sum_elem()
    }

    /// The length, rounded down to an integer.
    pub fn magnitude(self) -> (r: i64)
        requires
            self@.norm_fits(),
        ensures
            r == self@.spec_magnitude(),
            is_floor_sqrt(r as int, self@.spec_norm2()),
    {
        proof {
            assert(self.x * self.x >= 0 && self.y * self.y >= 0) by (nonlinear_arith);
        }
        sqrt_floor(self.x * self.x + self.y * self.y)
    }

    /// Each component divided by the length (rounded down), rounded toward zero.
    pub fn normalize(self) -> (r: Self)
        requires
            self@.norm_fits(),
            self@ != (Vec2::<int> { x: 0, y: 0 }),
        ensures
            r@ == self@.spec_div_scalar(self@.spec_magnitude()),
    {
        let m = self.magnitude();
        proof {
            assert(self@.spec_norm2() >= 1) by (nonlinear_arith)
                requires
                    self@.x != 0 || self@.y != 0,
            ;
            assert(m >= 1) by (nonlinear_arith)
                requires
                    self@.spec_norm2() >= 1,
                    self@.spec_norm2() < (m + 1) * (m + 1),
                    m >= 0,
            ;
        }
        vec2(div_trunc(self.x, m), div_trunc(self.y, m))
    }

    /// The component-wise larger of the two.
    pub fn max(self, o: Self) -> (r: Self)
        ensures
            r@ == self@.spec_max(o@),
    {
        vec2(
            if self.x < o.x { o.x } else { self.x },
            if self.y < o.y { o.y } else { self.y },
        )
    }

    /// The component-wise smaller of the two.
    pub fn min(self, o: Self) -> (r: Self)
        ensures
            r@ == self@.spec_min(o@),
    {
        vec2(
            if self.x > o.x { o.x } else { self.x },
            if self.y > o.y { o.y } else { self.y },
        )
    }

    /// Each component limited to `max` from above, then to `min` from below.
    pub fn clamp(self, min: Self, max: Self) -> (r: Self)
        ensures
            r@ == self@.spec_min(max@).spec_max(min@),
    {
        self.min(max).max(min)
    }

    /// Each component raised to at least `m`.
    pub fn elem_max(self, m: i64) -> (r: Self)
        ensures
            r@ == self@.spec_max(Vec2 { x: m as int, y: m as int }),
    {
        self.max(vec2(m, m))
    }

    /// Each component lowered to at most `m`.
    pub fn elem_min(self, m: i64) -> (r: Self)
        ensures
            r@ == self@.spec_min(Vec2 { x: m as int, y: m as int }),
    {
        self.min(vec2(m, m))
    }

    /// Each component limited to `max` from above, then to `min` from below.
    pub fn elem_clamp(self, min: i64, max: i64) -> (r: Self)
        ensures
            r@ == self@.spec_min(Vec2 { x: max as int, y: max as int }).spec_max(
                Vec2 { x: min as int, y: min as int },
            ),
    {
        self.min(vec2(max, max)).max(vec2(min, min))
    }

    /// The larger component.
    pub fn max_elem(self) -> (r: i64)
        ensures
            r == if self.x > self.y { self.x } else { self.y },
    {
        if self.x > self.y { self.x } else { self.y }
    }

    /// The smaller component.
    pub fn min_elem(self) -> (r: i64)
        ensures
            r == if self.x < self.y { self.x } else { self.y },
    {
        if self.x < self.y { self.x } else { self.y }
    }

    /// The sum of the components.
    pub fn sum_elem(self) -> (r: i64)
        requires
            fits(self@.spec_sum()),
        ensures
            r == self@.spec_sum(),
    {
        self.x + self.y
    }

    /// The product of the components.
    pub fn mul_elem(self) -> (r: i64)
        requires
            fits(self.x * self.y),
        ensures
            r == self.x * self.y,
    {
        self.x * self.y
    }
}

impl Vec2<bool> {
    /// Whether both components hold.
    pub fn and(self) -> (r: bool)
        ensures
            r == (self.x && self.y),
    {
        self.x && self.y
    }

    /// Whether either component holds.
    pub fn or(self) -> (r: bool)
        ensures
            r == (self.x || self.y),
    {
        self.x || self.y
    }
}

/// The length of `v - u`, rounded down.
pub fn distance(v: Vec2<i64>, u: Vec2<i64>) -> (r: i64)
    requires
        v@.spec_sub(u@).all_fit(),
        v@.spec_sub(u@).norm_fits(),
    ensures
        r == v@.spec_sub(u@).spec_magnitude(),
{
    v.sub(u).magnitude()
}

/// The dot product distributes over a sum on the left.
pub proof fn lemma_dot_add_left(u: Vec2<int>, v: Vec2<int>, c: Vec2<int>)
    ensures
        u.spec_add(v).spec_dot(c) == u.spec_dot(c) + v.spec_dot(c),
{
    vstd::arithmetic::mul::lemma_mul_is_distributive_add_other_way(c.x, u.x, v.x);
    vstd::arithmetic::mul::lemma_mul_is_distributive_add_other_way(c.y, u.y, v.y);
}

/// A factor on the left of a dot product comes out of it.
pub proof fn lemma_dot_scale_left(s: int, u: Vec2<int>, c: Vec2<int>)
    ensures
        u.spec_scale(s).spec_dot(c) == s * u.spec_dot(c),
{
    vstd::arithmetic::mul::lemma_mul_is_associative(s, u.x, c.x);
    vstd::arithmetic::mul::lemma_mul_is_associative(s, u.y, c.y);
    vstd::arithmetic::mul::lemma_mul_is_distributive_add(s, u.x * c.x, u.y * c.y);
}

/// The dot product is symmetric.
pub proof fn lemma_dot_comm(u: Vec2<int>, v: Vec2<int>)
    ensures
        u.spec_dot(v) == v.spec_dot(u),
{
    vstd::arithmetic::mul::lemma_mul_is_commutative(u.x, v.x);
    vstd::arithmetic::mul::lemma_mul_is_commutative(u.y, v.y);
}

} // verus!
