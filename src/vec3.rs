//! Three-component vectors.
use vstd::prelude::*;

use crate::scalar::{div_ok, div_trunc, fits, floor_sqrt, is_floor_sqrt, sqrt_floor, tdiv};
use crate::vec4::{vec4, Vec4};

verus! {

/// A vector with components `x`, `y` and `z`, in that order.
#[derive(Clone, Copy, Debug, PartialEq, Eq, PartialOrd, Ord, Hash)]
pub struct Vec3<T> {
    pub x: T,
    pub y: T,
    pub z: T,
}

/// Builds a vector from its components.
pub fn vec3<T>(x: T, y: T, z: T) -> (r: Vec3<T>)
    ensures
        r.x == x,
        r.y == y,
        r.z == z,
{
    Vec3 { x: x, y: y, z: z }
}

impl<T> Vec3<T> {
    /// Appends a fourth component.
    pub fn extend(self, w: T) -> (r: Vec4<T>)
        ensures
            r.x == self.x,
            r.y == self.y,
            r.z == self.z,
            r.w == w,
    {
        vec4(self.x, self.y, self.z, w)
    }
}

impl<T: Copy> Vec3<T> {
    /// The components as an array, in order.
    pub fn into_array(self) -> (r: [T; 3])
        ensures
            r@ == seq![self.x, self.y, self.z],
    {
        [self.x, self.y, self.z]
    }

    /// The components as a tuple, in order.
    pub fn into_tuple(self) -> (r: (T, T, T))
        ensures
            r == (self.x, self.y, self.z),
    {
        (self.x, self.y, self.z)
    }
}

impl View for Vec3<i64> {
    type V = Vec3<int>;

    open spec fn view(&self) -> Vec3<int> {
        Vec3 { x: self.x as int, y: self.y as int, z: self.z as int }
    }
}

/// The mathematical model: vectors of integers.
impl Vec3<int> {
    pub open spec fn spec_add(self, o: Self) -> Self {
        Vec3 { x: self.x + o.x, y: self.y + o.y, z: self.z + o.z }
    }

    pub open spec fn spec_sub(self, o: Self) -> Self {
        Vec3 { x: self.x - o.x, y: self.y - o.y, z: self.z - o.z }
    }

    /// Component-wise product.
    pub open spec fn spec_mul(self, o: Self) -> Self {
        Vec3 { x: self.x * o.x, y: self.y * o.y, z: self.z * o.z }
    }

    pub open spec fn spec_neg(self) -> Self {
        Vec3 { x: -self.x, y: -self.y, z: -self.z }
    }

    pub open spec fn spec_scale(self, s: int) -> Self {
        Vec3 { x: s * self.x, y: s * self.y, z: s * self.z }
    }

    /// Each component divided by `s`, rounded toward zero.
    pub open spec fn spec_div_scalar(self, s: int) -> Self {
        Vec3 { x: tdiv(self.x, s), y: tdiv(self.y, s), z: tdiv(self.z, s) }
    }

    pub open spec fn spec_dot(self, o: Self) -> int {
        self.x * o.x + self.y * o.y + self.z * o.z
    }

    /// The squared length.
    pub open spec fn spec_norm2(self) -> int {
        self.spec_dot(self)
    }

    /// The length, rounded down.
    pub open spec fn spec_magnitude(self) -> int {
        floor_sqrt(self.spec_norm2())
    }

    pub open spec fn all_fit(self) -> bool {
        fits(self.x) && fits(self.y) && fits(self.z)
    }

    /// The dot product and each of its steps fit in an `i64`.
    pub open spec fn dot_fits(self, o: Self) -> bool {
        &&& self.spec_mul(o).all_fit()
        &&& fits(self.x * o.x + self.y * o.y)
        &&& fits(self.spec_dot(o))
    }

    /// Division of each component by `s` is defined and does not overflow.
    pub open spec fn div_scalar_ok(self, s: int) -> bool {
        div_ok(self.x, s) && div_ok(self.y, s) && div_ok(self.z, s)
    }
}

impl Vec3<i64> {
    pub fn add(self, o: Self) -> (r: Self)
        requires
            self@.spec_add(o@).all_fit(),
        ensures
            r@ == self@.spec_add(o@),
    {
        vec3(self.x + o.x, self.y + o.y, self.z + o.z)
    }

    pub fn sub(self, o: Self) -> (r: Self)
        requires
            self@.spec_sub(o@).all_fit(),
        ensures
            r@ == self@.spec_sub(o@),
    {
        vec3(self.x - o.x, self.y - o.y, self.z - o.z)
    }

    pub fn neg(self) -> (r: Self)
        requires
            self@.spec_neg().all_fit(),
        ensures
            r@ == self@.spec_neg(),
    {
        vec3(-self.x, -self.y, -self.z)
    }

    /// Each component divided by `s`, rounded toward zero.
    pub fn div_scalar(self, s: i64) -> (r: Self)
        requires
            self@.div_scalar_ok(s as int),
        ensures
            r@ == self@.spec_div_scalar(s as int),
    {
        vec3(div_trunc(self.x, s), div_trunc(self.y, s), div_trunc(self.z, s))
    }

    /// Sum of the component-wise products.
    pub fn dot(self, o: Self) -> (r: i64)
        requires
            self@.dot_fits(o@),
        ensures
            r == self@.spec_dot(o@),
    {
        self.x * o.x + self.y * o.y + self.z * o.z
    }

    /// The length, rounded down to an integer.
    pub fn magnitude(self) -> (r: i64)
        requires
            self@.dot_fits(self@),
        ensures
            r == self@.spec_magnitude(),
            is_floor_sqrt(r as int, self@.spec_norm2()),
    {
        proof {
            assert(self.x * self.x >= 0 && self.y * self.y >= 0 && self.z * self.z >= 0)
                by (nonlinear_arith);
        }
        sqrt_floor(self.dot(self))
    }
}

/// The dot product distributes over a sum on the left.
pub proof fn lemma_dot_add_left(u: Vec3<int>, v: Vec3<int>, c: Vec3<int>)
    ensures
        u.spec_add(v).spec_dot(c) == u.spec_dot(c) + v.spec_dot(c),
{
    vstd::arithmetic::mul::lemma_mul_is_distributive_add_other_way(c.x, u.x, v.x);
    vstd::arithmetic::mul::lemma_mul_is_distributive_add_other_way(c.y, u.y, v.y);
    vstd::arithmetic::mul::lemma_mul_is_distributive_add_other_way(c.z, u.z, v.z);
}

/// A factor on the left of a dot product comes out of it.
pub proof fn lemma_dot_scale_left(s: int, u: Vec3<int>, c: Vec3<int>)
    ensures
        u.spec_scale(s).spec_dot(c) == s * u.spec_dot(c),
{
    vstd::arithmetic::mul::lemma_mul_is_associative(s, u.x, c.x);
    vstd::arithmetic::mul::lemma_mul_is_associative(s, u.y, c.y);
    vstd::arithmetic::mul::lemma_mul_is_associative(s, u.z, c.z);
    vstd::arithmetic::mul::lemma_mul_is_distributive_add(s, u.x * c.x + u.y * c.y, u.z * c.z);
    vstd::arithmetic::mul::lemma_mul_is_distributive_add(s, u.x * c.x, u.y * c.y);
}

/// The dot product is symmetric.
pub proof fn lemma_dot_comm(u: Vec3<int>, v: Vec3<int>)
    ensures
        u.spec_dot(v) == v.spec_dot(u),
{
    vstd::arithmetic::mul::lemma_mul_is_commutative(u.x, v.x);
    vstd::arithmetic::mul::lemma_mul_is_commutative(u.y, v.y);
    vstd::arithmetic::mul::lemma_mul_is_commutative(u.z, v.z);
}

} // verus!
