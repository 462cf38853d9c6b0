//! Spheres.
use crate::geometry::intersection::intersect_ray_with_sphere;
use crate::geometry::intersection::intersect_spec;
use crate::geometry::point::Point3;
use crate::geometry::ray::Ray3;
use crate::scalar::Scalar;
use vstd::prelude::*;

verus! {

/// A sphere given by its center and radius.
#[derive(Clone, Copy, Debug, PartialEq, Eq, Structural)]
pub struct Sphere {
    pub origin: Point3,
    pub radius: Scalar,
}

impl Sphere {
    pub fn new(origin: Point3, radius: Scalar) -> (r: Sphere)
        ensures
            r == (Sphere { origin, radius }),
    {
        Sphere { origin, radius }
    }

    pub fn intersect_with_ray(&self, ray: Ray3) -> (r: Option<Point3>)
        ensures
            r == intersect_spec(ray, self.origin, self.radius),
    {
        intersect_ray_with_sphere(ray, self.origin, self.radius)
    }
}

} // verus!
