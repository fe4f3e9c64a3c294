//! Operations shared by the vector types of every dimension.
use vstd::prelude::*;

use crate::vec2::Vec2;
use crate::vec3::Vec3;
use crate::vec4::Vec4;

verus! {

/// A vector of `i64` components.
pub trait Vector: Sized {
    /// The dot product and each of its steps fit in an `i64`.
    spec fn dot_defined(self, o: Self) -> bool;

    /// The dot product over the integers.
    spec fn dot_value(self, o: Self) -> int;

    /// `self - o` and its squared length fit in an `i64`.
    spec fn distance_defined(self, o: Self) -> bool;

    /// The length of `self - o`, rounded down.
    spec fn distance_value(self, o: Self) -> int;

    /// Sum of the component-wise products.
    fn dot(self, o: Self) -> (r: i64)
        requires
            self.dot_defined(o),
        ensures
            r == self.dot_value(o),
    ;

    /// The length of `self - o`, rounded down.
    fn distance(self, o: Self) -> (r: i64)
        requires
            self.distance_defined(o),
        ensures
            r == self.distance_value(o),
    ;
}

impl Vector for Vec2<i64> {
    open spec fn dot_defined(self, o: Self) -> bool {
        self@.dot_fits(o@)
    }

    open spec fn dot_value(self, o: Self) -> int {
        self@.spec_dot(o@)
    }

    open spec fn distance_defined(self, o: Self) -> bool {
        self@.spec_sub(o@).all_fit() && self@.spec_sub(o@).norm_fits()
    }

    open spec fn distance_value(self, o: Self) -> int {
        self@.spec_sub(o@).spec_magnitude()
    }

    fn dot(self, o: Self) -> (r: i64) {
        Vec2::dot(self, o)
    }

    fn distance(self, o: Self) -> (r: i64) {
        self.sub(o).magnitude()
    }
}

impl Vector for Vec3<i64> {
    open spec fn dot_defined(self, o: Self) -> bool {
        self@.dot_fits(o@)
    }

    open spec fn dot_value(self, o: Self) -> int {
        self@.spec_dot(o@)
    }

    open spec fn distance_defined(self, o: Self) -> bool {
        self@.spec_sub(o@).all_fit() && self@.spec_sub(o@).dot_fits(self@.spec_sub(o@))
    }

    open spec fn distance_value(self, o: Self) -> int {
        self@.spec_sub(o@).spec_magnitude()
    }

    fn dot(self, o: Self) -> (r: i64) {
        Vec3::dot(self, o)
    }

    fn distance(self, o: Self) -> (r: i64) {
        self.sub(o).magnitude()
    }
}

impl Vector for Vec4<i64> {
    open spec fn dot_defined(self, o: Self) -> bool {
        self@.dot_fits(o@)
    }

    open spec fn dot_value(self, o: Self) -> int {
        self@.spec_dot(o@)
    }

    open spec fn distance_defined(self, o: Self) -> bool {
        self@.spec_sub(o@).all_fit() && self@.spec_sub(o@).dot_fits(self@.spec_sub(o@))
    }

    open spec fn distance_value(self, o: Self) -> int {
        self@.spec_sub(o@).spec_magnitude()
    }

    fn dot(self, o: Self) -> (r: i64) {
        Vec4::dot(self, o)
    }

    fn distance(self, o: Self) -> (r: i64) {
        self.sub(o).magnitude()
    }
}

/// The dot product of two vectors.
pub fn dot<V: Vector>(a: V, b: V) -> (r: i64)
    requires
        a.dot_defined(b),
    ensures
        r == a.dot_value(b),
{
    a.dot(b)
}

/// The distance between two points, rounded down.
pub fn distance<V: Vector>(a: V, b: V) -> (r: i64)
    requires
        a.distance_defined(b),
    ensures
        r == a.distance_value(b),
{
    a.distance(b)
}

} // verus!
