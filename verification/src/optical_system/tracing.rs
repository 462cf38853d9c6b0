//! One trace step over a prescription row.
use crate::geometry::point::Point3;
use crate::geometry::ray::Ray3;
use crate::optical_surfaces::optical_surfaces::SequentialOpticalSurface;
use crate::optical_system::sequential_optical_system::settle;
use crate::optical_system::sequential_optical_system::shape_of;
use crate::optical_system::sequential_optical_system::step_spec;
use crate::optical_system::sequential_optical_system::trace_plane_ray;
use crate::optical_system::sequential_optical_system::trace_sphere_ray;
use crate::optical_system::sequential_optical_system::SurfaceShape;
use vstd::prelude::*;

verus! {

/// The ray after the surface standing at `vertex`.
pub fn trace(ray: Ray3, surface: SequentialOpticalSurface, vertex: Point3) -> (r: Ray3)
    ensures
        r == step_spec(ray, shape_of(surface.radius), vertex),
{
    let hit = match surface.shape() {
        SurfaceShape::Plane => trace_plane_ray(ray, vertex.z),
        SurfaceShape::Sphere { radius } => trace_sphere_ray(ray, vertex, radius),
    };
    settle(ray, hit, vertex.z)
}

} // verus!
