//! Rays: an origin, a direction and a validity tag.
use crate::geometry::intersection::intersect_ray_with_sphere;
use crate::geometry::intersection::intersect_spec;
use crate::geometry::point::Point3;
use crate::geometry::sphere::Sphere;
use crate::geometry::vector::Vector3;
use crate::scalar::Scalar;
use crate::scalar::SCALE;
use vstd::arithmetic::div_mod::lemma_fundamental_div_mod;
use vstd::arithmetic::div_mod::lemma_mod_bound;
use vstd::prelude::*;

verus! {

/// Whether a ray is still physically meaningful.
#[derive(Clone, Copy, Debug, PartialEq, Eq, Structural)]
pub enum RayValidity {
    /// The ray follows the optical path.
    VALID,
    /// The ray has left the optical path.
    INVALID,
    /// The ray has undergone total internal reflection.
    TIR,
}

/// A ray. The direction is meant to have unit length; [`Ray3::new`]
/// normalizes it, and nothing checks it afterwards.
#[derive(Clone, Copy, Debug, PartialEq, Eq, Structural)]
pub struct Ray3 {
    pub origin: Point3,
    pub direction: Vector3,
    pub validity: RayValidity,
}

impl RayValidity {
    /// The lower-case name of the tag.
    pub open spec fn name_spec(self) -> Seq<char> {
        match self {
            RayValidity::VALID => "valid"@,
            RayValidity::INVALID => "invalid"@,
            RayValidity::TIR => "tir"@,
        }
    }

    pub fn name(&self) -> (r: &'static str)
        ensures
            r@ == self.name_spec(),
    {
        match self {
            RayValidity::VALID => "valid",
            RayValidity::INVALID => "invalid",
            RayValidity::TIR => "tir",
        }
    }
}

impl Ray3 {
    /// The point at parameter `t` along the ray.
    pub open spec fn at_spec(self, t: Scalar) -> Point3 {
        self.origin.plus(self.direction.times(t))
    }

    /// Whether the plane at height `z` lies ahead of the origin and the ray
    /// climbs toward it.
    pub open spec fn heads_toward_z(self, z: Scalar) -> bool {
        self.origin.z.lt_spec(z) && Scalar::of_int(0).lt_spec(self.direction.z)
    }

    /// The parameter at which the ray meets the plane at height `z`.
    pub open spec fn parameter_at_z(self, z: Scalar) -> Scalar {
        z.minus(self.origin.z).over(self.direction.z)
    }

    /// The ray moved along itself onto the plane at height `z`.
    pub open spec fn moved_to_z(self, z: Scalar) -> Ray3 {
        Ray3 {
            origin: self.at_spec(self.parameter_at_z(z)),
            direction: self.direction,
            validity: self.validity,
        }
    }

    /// Whether `propagate_to_z` moves the ray: it must be valid and head
    /// toward the plane.
    pub open spec fn reaches_z(self, z: Scalar) -> bool {
        self.heads_toward_z(z) && self.validity == RayValidity::VALID
    }

    pub fn at(&self, t: Scalar) -> (r: Point3)
        ensures
            r == self.at_spec(t),
    {
        self.origin + self.direction * t
    }

    /// A valid ray from `p` along the normalized `v`.
    pub fn new(p: Point3, v: Vector3) -> (r: Ray3)
        ensures
            r == (Ray3 { origin: p, direction: v.normalized(), validity: RayValidity::VALID }),
    {
        Ray3 { origin: p, direction: v.clone_normalized(), validity: RayValidity::VALID }
    }

    /// Whether the ray heads toward the plane at height `z`.
    pub fn is_heading_toward_z(&self, z: Scalar) -> (r: bool)
        ensures
            r == self.heads_toward_z(z),
    {
        self.origin.z.lt(z) && self.direction.z.gt(Scalar::zero())
    }

    /// The ray moved onto the plane at height `z`, whatever its validity.
    pub fn advanced_to_z(&self, z: Scalar) -> (r: Ray3)
        ensures
            r == self.moved_to_z(z),
    {
        let t = (z - self.origin.z) / self.direction.z;
        Ray3 { origin: self.at(t), direction: self.direction, validity: self.validity }
    }

    /// Moves a valid ray onto the plane at height `z` that lies ahead of it.
    ///
    /// Returns whether the ray was moved. A ray that is not valid, does not
    /// climb, or has its origin at or past the plane is left as it is.
    pub fn propagate_to_z(&mut self, z: Scalar) -> (r: bool)
        ensures
            r == old(self).reaches_z(z),
            r ==> *final(self) == old(self).moved_to_z(z),
            !r ==> *final(self) == *old(self),
            z.le_spec(old(self).origin.z) ==> !r && *final(self) == *old(self),
    {
        if !self.is_heading_toward_z(z) || self.validity != RayValidity::VALID {
            return false;
        }
        let moved = self.advanced_to_z(z);
        self.origin = moved.origin;
        true
    }

    pub fn intersect_with_sphere(&self, sphere: Sphere) -> (r: Option<Point3>)
        ensures
            r == intersect_spec(*self, sphere.origin, sphere.radius),
    {
        intersect_ray_with_sphere(*self, sphere.origin, sphere.radius)
    }
}

/// A ray moved onto a plane lands on it or one raw unit before it, never
/// past it, provided its direction climbs by at most one per unit of
/// parameter, as every direction of unit length does, and the new height
/// can be represented.
pub proof fn lemma_moved_to_z_lands_on_plane(ray: Ray3, z: Scalar)
    requires
        ray.heads_toward_z(z),
        ray.direction.z.raw <= SCALE,
        ray.moved_to_z(z).origin.z.is_finite(),
    ensures
        z.raw - 1 <= ray.moved_to_z(z).origin.z.raw <= z.raw,
{
    let s = SCALE as int;
    let d = ray.direction.z.raw as int;
    let t = ray.parameter_at_z(z);
    let rise = ray.direction.z.times(t);
    assert(rise.is_finite() && t.is_finite());
    let dz = z.raw - ray.origin.z.raw;
    assert(z.minus(ray.origin.z).raw == dz);
    assert(t.raw == (dz * s) / d);
    lemma_fundamental_div_mod(dz * s, d);
    lemma_mod_bound(dz * s, d);
    assert(rise.raw == (d * t.raw) / s);
    assert(rise.raw * s <= d * t.raw < rise.raw * s + s);
    if rise.raw > dz {
        assert(rise.raw * s >= dz * s + s) by (nonlinear_arith)
            requires
                rise.raw >= dz + 1,
                s > 0,
        ;
    }
    if rise.raw < dz - 1 {
        assert(rise.raw * s + s <= dz * s - s) by (nonlinear_arith)
            requires
                rise.raw + 1 <= dz - 1,
                s > 0,
        ;
    }
}

} // verus!
