//! One row of a lens prescription.
use crate::materials::material::Glass;
use crate::optical_system::sequential_optical_system::shape_of;
use crate::optical_system::sequential_optical_system::SurfaceShape;
use crate::scalar::Scalar;
use vstd::prelude::*;

verus! {

/// The role of a surface in the prescription.
#[derive(Clone, Copy, Debug, PartialEq, Eq, Structural)]
pub enum SequentialOpticalSurfaceType {
    Standard,
    Image,
}

/// A surface with the medium that follows it.
pub struct SequentialOpticalSurface {
    pub surface_type: SequentialOpticalSurfaceType,
    pub comment: String,
    /// Signed radius of curvature; zero for a plane.
    pub radius: Scalar,
    /// Axial distance to the next surface.
    pub thickness: Scalar,
    pub material: Glass,
    pub clear_semi_diameter: Scalar,
}

impl SequentialOpticalSurface {
    pub fn new(
        surface_type: SequentialOpticalSurfaceType,
        comment: String,
        radius: Scalar,
        thickness: Scalar,
        material: Glass,
        clear_semi_diameter: Scalar,
    ) -> (r: Self)
        ensures
            r.surface_type == surface_type,
            r.comment == comment,
            r.radius == radius,
            r.thickness == thickness,
            r.material == material,
            r.clear_semi_diameter == clear_semi_diameter,
    {
        Self { surface_type, comment, radius, thickness, material, clear_semi_diameter }
    }

    /// The shape that the radius stands for.
    pub fn shape(&self) -> (r: SurfaceShape)
        ensures
            r == shape_of(self.radius),
    {
        if self.radius.is_nan() || self.radius.raw == 0 {
            SurfaceShape::Plane
        } else {
            SurfaceShape::Sphere { radius: self.radius }
        }
    }
}

} // verus!
