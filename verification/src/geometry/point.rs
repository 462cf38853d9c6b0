//! Points in space.
use crate::geometry::vector::is_axis_permutation;
use crate::geometry::vector::Vector3;
use crate::scalar::Scalar;
use vstd::prelude::*;
use vstd::std_specs::ops::AddSpecImpl;
use vstd::std_specs::ops::MulSpecImpl;
use vstd::std_specs::ops::SubSpecImpl;

verus! {

/// A location in space.
#[derive(Clone, Copy, Debug, PartialEq, Eq, Structural)]
pub struct Point3 {
    pub x: Scalar,
    pub y: Scalar,
    pub z: Scalar,
}

impl Point3 {
    pub open spec fn origin_spec() -> Point3 {
        Point3 { x: Scalar::of_int(0), y: Scalar::of_int(0), z: Scalar::of_int(0) }
    }

    /// The coordinate on axis `i`: x for 0, y for 1, z for 2.
    pub open spec fn component(self, i: int) -> Scalar {
        if i == 0 {
            self.x
        } else if i == 1 {
            self.y
        } else {
            self.z
        }
    }

    /// Whether every coordinate is a number.
    pub open spec fn is_finite(self) -> bool {
        self.x.is_finite() && self.y.is_finite() && self.z.is_finite()
    }

    /// The point moved by a vector.
    pub open spec fn plus(self, v: Vector3) -> Point3 {
        Point3 { x: self.x.plus(v.x), y: self.y.plus(v.y), z: self.z.plus(v.z) }
    }

    /// The coordinatewise sum of two points.
    pub open spec fn plus_point(self, p: Point3) -> Point3 {
        Point3 { x: self.x.plus(p.x), y: self.y.plus(p.y), z: self.z.plus(p.z) }
    }

    /// The vector that leads from `p` to `self`.
    pub open spec fn minus(self, p: Point3) -> Vector3 {
        Vector3 { x: self.x.minus(p.x), y: self.y.minus(p.y), z: self.z.minus(p.z) }
    }

    pub open spec fn times(self, s: Scalar) -> Point3 {
        Point3 { x: self.x.times(s), y: self.y.times(s), z: self.z.times(s) }
    }

    pub open spec fn abs_spec(self) -> Vector3 {
        Vector3 { x: self.x.abs_spec(), y: self.y.abs_spec(), z: self.z.abs_spec() }
    }

    pub open spec fn floor_spec(self) -> Vector3 {
        Vector3 { x: self.x.floor_spec(), y: self.y.floor_spec(), z: self.z.floor_spec() }
    }

    pub open spec fn ceil_spec(self) -> Vector3 {
        Vector3 { x: self.x.ceil_spec(), y: self.y.ceil_spec(), z: self.z.ceil_spec() }
    }

    pub open spec fn permuted(self, xi: usize, yi: usize, zi: usize) -> Point3 {
        Point3 {
            x: self.component(xi as int),
            y: self.component(yi as int),
            z: self.component(zi as int),
        }
    }

    pub fn origin() -> (r: Point3)
        ensures
            r == Point3::origin_spec(),
    {
        Point3 { x: Scalar::zero(), y: Scalar::zero(), z: Scalar::zero() }
    }

    pub fn abs(&self) -> (r: Vector3)
        ensures
            r == self.abs_spec(),
    {
        Vector3 { x: self.x.abs(), y: self.y.abs(), z: self.z.abs() }
    }

    pub fn floor(&self) -> (r: Vector3)
        ensures
            r == self.floor_spec(),
    {
        Vector3 { x: self.x.floor(), y: self.y.floor(), z: self.z.floor() }
    }

    pub fn ceil(&self) -> (r: Vector3)
        ensures
            r == self.ceil_spec(),
    {
        Vector3 { x: self.x.ceil(), y: self.y.ceil(), z: self.z.ceil() }
    }

    /// The point with its coordinates rearranged: the new x is the old
    /// coordinate `xi`, and so on.
    pub fn permute(&self, xi: usize, yi: usize, zi: usize) -> (r: Point3)
        requires
            is_axis_permutation(xi, yi, zi),
        ensures
            r == self.permuted(xi, yi, zi),
    {
        if xi == yi || yi == zi || xi == zi {
            vstd::pervasive::unreached()
        } else {
            Point3 { x: self[xi], y: self[yi], z: self[zi] }
        }
    }
}

impl core::ops::Index<usize> for Point3 {
    type Output = Scalar;

    fn index(&self, ind: usize) -> (r: &Scalar)
        ensures
            *r == self.component(ind as int),
    {
        if ind == 0 {
            &self.x
        } else if ind == 1 {
            &self.y
        } else if ind == 2 {
            &self.z
        } else {
            vstd::pervasive::unreached()
        }
    }
}

impl vstd::std_specs::core::IndexSpecImpl<usize> for Point3 {
    open spec fn index_req(&self, index: &usize) -> bool {
        *index < 3
    }
}

impl core::ops::Add<Vector3> for Point3 {
    type Output = Point3;

    fn add(self, rhs: Vector3) -> (r: Point3) {
        Point3 { x: self.x + rhs.x, y: self.y + rhs.y, z: self.z + rhs.z }
    }
}

impl AddSpecImpl<Vector3> for Point3 {
    open spec fn obeys_add_spec() -> bool {
        true
    }

    open spec fn add_req(self, rhs: Vector3) -> bool {
        true
    }

    open spec fn add_spec(self, rhs: Vector3) -> Point3 {
        self.plus(rhs)
    }
}

impl core::ops::Add<Point3> for Point3 {
    type Output = Point3;

    fn add(self, rhs: Point3) -> (r: Point3) {
        Point3 { x: self.x + rhs.x, y: self.y + rhs.y, z: self.z + rhs.z }
    }
}

impl AddSpecImpl<Point3> for Point3 {
    open spec fn obeys_add_spec() -> bool {
        true
    }

    open spec fn add_req(self, rhs: Point3) -> bool {
        true
    }

    open spec fn add_spec(self, rhs: Point3) -> Point3 {
        self.plus_point(rhs)
    }
}

impl core::ops::Sub<Point3> for Point3 {
    type Output = Vector3;

    fn sub(self, rhs: Point3) -> (r: Vector3) {
        Vector3 { x: self.x - rhs.x, y: self.y - rhs.y, z: self.z - rhs.z }
    }
}

impl SubSpecImpl<Point3> for Point3 {
    open spec fn obeys_sub_spec() -> bool {
        true
    }

    open spec fn sub_req(self, rhs: Point3) -> bool {
        true
    }

    open spec fn sub_spec(self, rhs: Point3) -> Vector3 {
        self.minus(rhs)
    }
}

impl core::ops::Mul<Scalar> for Point3 {
    type Output = Point3;

    fn mul(self, rhs: Scalar) -> (r: Point3) {
        Point3 { x: self.x * rhs, y: self.y * rhs, z: self.z * rhs }
    }
}

impl MulSpecImpl<Scalar> for Point3 {
    open spec fn obeys_mul_spec() -> bool {
        true
    }

    open spec fn mul_req(self, rhs: Scalar) -> bool {
        true
    }

    open spec fn mul_spec(self, rhs: Scalar) -> Point3 {
        self.times(rhs)
    }
}

/// The length of the vector between two points.
pub open spec fn distance_spec(a: Point3, b: Point3) -> Scalar {
    b.minus(a).norm_spec()
}

/// The point a fraction `t` of the way from `a` to `b`.
pub open spec fn lerp_spec(a: Point3, b: Point3, t: Scalar) -> Point3 {
    a.times(Scalar::of_int(1).minus(t)).plus_point(b.times(t))
}

pub open spec fn min_point_spec(a: Point3, b: Point3) -> Point3 {
    Point3 { x: a.x.min_spec(b.x), y: a.y.min_spec(b.y), z: a.z.min_spec(b.z) }
}

pub open spec fn max_point_spec(a: Point3, b: Point3) -> Point3 {
    Point3 { x: a.x.max_spec(b.x), y: a.y.max_spec(b.y), z: a.z.max_spec(b.z) }
}

pub fn distance(a: Point3, b: Point3) -> (r: Scalar)
    ensures
        r == distance_spec(a, b),
{
    (b - a).norm()
}

pub fn distance_squared(a: Point3, b: Point3) -> (r: Scalar)
    ensures
        r == distance_spec(a, b).times(distance_spec(a, b)),
{
    let d = (b - a).norm();
    d * d
}

pub fn lerp(a: Point3, b: Point3, t: Scalar) -> (r: Point3)
    ensures
        r == lerp_spec(a, b, t),
{
    a * (Scalar::one() - t) + b * t
}

pub fn min_point(a: Point3, b: Point3) -> (r: Point3)
    ensures
        r == min_point_spec(a, b),
{
    Point3 { x: a.x.min(b.x), y: a.y.min(b.y), z: a.z.min(b.z) }
}

pub fn max_point(a: Point3, b: Point3) -> (r: Point3)
    ensures
        r == max_point_spec(a, b),
{
    Point3 { x: a.x.max(b.x), y: a.y.max(b.y), z: a.z.max(b.z) }
}

/// Moving a point by the vector that leads to another point arrives at that
/// point, on every axis where that vector can be represented or where the
/// target is itself not a number.
pub proof fn lemma_sub_add_round_trip(p: Point3, q: Point3)
    requires
        q.x.is_finite() ==> q.minus(p).x.is_finite(),
        q.y.is_finite() ==> q.minus(p).y.is_finite(),
        q.z.is_finite() ==> q.minus(p).z.is_finite(),
    ensures
        p.plus(q.minus(p)) == q,
{
}

} // verus!
