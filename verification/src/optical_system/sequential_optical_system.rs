//! An ordered list of surfaces and the march of a ray through it.
//!
//! A surface stores only its thickness, the axial distance to the next
//! surface. Where a surface stands is derived on every query as the sum of
//! the thicknesses before it, so adding or removing a surface moves all
//! later ones with no further step.
use crate::geometry::intersection::intersect_ray_with_sphere;
use crate::geometry::intersection::intersect_spec;
use crate::geometry::point::Point3;
use crate::geometry::ray::Ray3;
use crate::geometry::ray::RayValidity;
use crate::geometry::sphere::Sphere;
use crate::geometry::vector::Vector3;
use crate::materials::material::Material;
use crate::scalar::Scalar;
use vstd::prelude::*;

verus! {

/// The family of surface equations. Only the standard surface, a plane or a
/// sphere, is present.
#[derive(Clone, Copy, Debug, PartialEq, Eq, Structural)]
pub enum OpticalSurfaceType {
    Standard,
}

impl OpticalSurfaceType {
    pub fn name(&self) -> (r: &'static str)
        ensures
            r@ == "Standard"@,
    {
        match self {
            OpticalSurfaceType::Standard => "Standard",
        }
    }
}

impl Default for OpticalSurfaceType {
    fn default() -> (r: Self)
        ensures
            r == OpticalSurfaceType::Standard,
    {
        OpticalSurfaceType::Standard
    }
}

/// What a ray is intersected with.
#[derive(Clone, Copy, Debug, PartialEq, Eq, Structural)]
pub enum SurfaceShape {
    Plane,
    Sphere { radius: Scalar },
}

/// The shape that a signed radius stands for: a plane when the radius is
/// zero or absent, else a sphere.
pub open spec fn shape_of(radius: Scalar) -> SurfaceShape {
    if radius.is_finite() && radius.raw != 0 {
        SurfaceShape::Sphere { radius }
    } else {
        SurfaceShape::Plane
    }
}

/// The center of a sphere surface: ahead of the vertex along z by the signed
/// radius.
pub open spec fn center_spec(vertex: Point3, radius: Scalar) -> Point3 {
    vertex.plus(Vector3 { x: Scalar::of_int(0), y: Scalar::of_int(0), z: radius })
}

/// A valid ray moved onto the plane through `z`; none where it does not
/// reach it.
pub open spec fn plane_hit_spec(ray: Ray3, z: Scalar) -> Option<Ray3> {
    if ray.reaches_z(z) {
        Some(ray.moved_to_z(z))
    } else {
        None
    }
}

/// A valid ray moved to where it strikes the sphere surface with the given
/// vertex and radius; none where it does not strike it.
pub open spec fn sphere_hit_spec(ray: Ray3, vertex: Point3, radius: Scalar) -> Option<Ray3> {
    if ray.validity == RayValidity::VALID {
        match intersect_spec(ray, center_spec(vertex, radius), radius) {
            Some(p) => Some(Ray3 { origin: p, direction: ray.direction, validity: ray.validity }),
            None => None,
        }
    } else {
        None
    }
}

/// The ray brought onto a surface, where it meets it.
pub open spec fn hit_spec(ray: Ray3, shape: SurfaceShape, vertex: Point3) -> Option<Ray3> {
    match shape {
        SurfaceShape::Plane => plane_hit_spec(ray, vertex.z),
        SurfaceShape::Sphere { radius } => sphere_hit_spec(ray, vertex, radius),
    }
}

/// The ray after a surface, given what the intersection gave.
///
/// A valid ray takes the intersection, or becomes invalid where there is
/// none. A ray that is no longer valid is carried in a straight line onto
/// the plane through the vertex when it heads toward it, and keeps its tag.
pub open spec fn settle_spec(ray: Ray3, hit: Option<Ray3>, z: Scalar) -> Ray3 {
    if ray.validity == RayValidity::VALID {
        match hit {
            Some(r) => r,
            None => Ray3 {
                origin: ray.origin,
                direction: ray.direction,
                validity: RayValidity::INVALID,
            },
        }
    } else if ray.heads_toward_z(z) {
        ray.moved_to_z(z)
    } else {
        ray
    }
}

/// One step of the trace: the ray after the surface of the given shape and
/// vertex.
pub open spec fn step_spec(ray: Ray3, shape: SurfaceShape, vertex: Point3) -> Ray3 {
    settle_spec(ray, hit_spec(ray, shape, vertex), vertex.z)
}

/// The capability that the trace consumes: what a surface is and where the
/// next one follows.
pub trait OpticalSurface {
    fn name(&self) -> &str;

    fn comment(&self) -> &str;

    fn surface_type(&self) -> &OpticalSurfaceType;

    /// The radius of a sphere surface; none for a plane.
    fn radius(&self) -> Option<Scalar>;

    fn thickness(&self) -> Option<Scalar>;

    /// The ray brought onto this surface standing at `vertex`.
    fn trace(&self, ray: Ray3, vertex: Point3) -> Option<Ray3>;
}

/// A plane or sphere surface followed by a medium.
pub struct StandardSurface {
    pub name: String,
    pub comment: String,
    pub surface_type: OpticalSurfaceType,
    /// Signed radius of curvature; zero for a plane.
    pub radius: Scalar,
    /// Axial distance to the next surface.
    pub thickness: Scalar,
    pub material: Box<dyn Material>,
}

impl StandardSurface {
    pub open spec fn shape_spec(&self) -> SurfaceShape {
        shape_of(self.radius)
    }

    pub fn shape(&self) -> (r: SurfaceShape)
        ensures
            r == self.shape_spec(),
    {
        if self.radius.is_nan() || self.radius.raw == 0 {
            SurfaceShape::Plane
        } else {
            SurfaceShape::Sphere { radius: self.radius }
        }
    }

    /// The sphere of a sphere surface standing at `vertex`; none for a
    /// plane.
    pub fn as_sphere(&self, vertex: Point3) -> (r: Option<Sphere>)
        ensures
            r == match self.shape_spec() {
                SurfaceShape::Plane => None,
                SurfaceShape::Sphere { radius } => Some(
                    Sphere { origin: center_spec(vertex, radius), radius },
                ),
            },
    {
        match self.shape() {
            SurfaceShape::Plane => None,
            SurfaceShape::Sphere { radius } => Some(
                Sphere { origin: sphere_center(vertex, radius), radius },
            ),
        }
    }
}

impl OpticalSurface for StandardSurface {
    fn name(&self) -> (r: &str)
        ensures
            r@ == self.name@,
    {
        self.name.as_str()
    }

    fn comment(&self) -> (r: &str)
        ensures
            r@ == self.comment@,
    {
        self.comment.as_str()
    }

    fn surface_type(&self) -> (r: &OpticalSurfaceType)
        ensures
            *r == self.surface_type,
    {
        &self.surface_type
    }

    fn radius(&self) -> (r: Option<Scalar>)
        ensures
            r == match self.shape_spec() {
                SurfaceShape::Plane => None,
                SurfaceShape::Sphere { radius } => Some(radius),
            },
    {
        match self.shape() {
            SurfaceShape::Plane => None,
            SurfaceShape::Sphere { radius } => Some(radius),
        }
    }

    fn thickness(&self) -> (r: Option<Scalar>)
        ensures
            r == Some(self.thickness),
    {
        Some(self.thickness)
    }

    fn trace(&self, ray: Ray3, vertex: Point3) -> (r: Option<Ray3>)
        ensures
            r == hit_spec(ray, self.shape_spec(), vertex),
    {
        self::trace(ray, self, vertex)
    }
}

/// The center of a sphere surface with the given vertex and signed radius.
pub fn sphere_center(vertex: Point3, radius: Scalar) -> (r: Point3)
    ensures
        r == center_spec(vertex, radius),
{
    vertex + Vector3 { x: Scalar::zero(), y: Scalar::zero(), z: radius }
}

/// Brings a ray onto the surface standing at `vertex`; none where the ray
/// is not valid or does not meet the surface.
pub fn trace(ray: Ray3, surface: &StandardSurface, vertex: Point3) -> (r: Option<Ray3>)
    ensures
        r == hit_spec(ray, surface.shape_spec(), vertex),
{
    match surface.surface_type {
        OpticalSurfaceType::Standard => match surface.radius() {
            None => trace_plane(ray, surface, vertex),
            Some(_) => trace_sphere(ray, surface, vertex),
        },
    }
}

/// Brings a valid ray to where it strikes the sphere of the surface's
/// radius.
pub fn trace_sphere(ray: Ray3, surface: &StandardSurface, vertex: Point3) -> (r: Option<Ray3>)
    ensures
        r == sphere_hit_spec(ray, vertex, surface.radius),
{
    trace_sphere_ray(ray, vertex, surface.radius)
}

/// Brings a valid ray onto the plane through the vertex.
pub fn trace_plane(ray: Ray3, surface: &StandardSurface, vertex: Point3) -> (r: Option<Ray3>)
    ensures
        r == plane_hit_spec(ray, vertex.z),
{
    trace_plane_ray(ray, vertex.z)
}

pub fn trace_plane_ray(ray: Ray3, z: Scalar) -> (r: Option<Ray3>)
    ensures
        r == plane_hit_spec(ray, z),
{
    let mut ray = ray;
    if ray.propagate_to_z(z) {
        return Some(ray);
    }
    None
}

pub fn trace_sphere_ray(ray: Ray3, vertex: Point3, radius: Scalar) -> (r: Option<Ray3>)
    ensures
        r == sphere_hit_spec(ray, vertex, radius),
{
    if ray.validity != RayValidity::VALID {
        return None;
    }
    match intersect_ray_with_sphere(ray, sphere_center(vertex, radius), radius) {
        Some(p) => Some(Ray3 { origin: p, direction: ray.direction, validity: ray.validity }),
        None => None,
    }
}

/// The ray after a surface whose vertex lies at height `z`, given what the
/// intersection with the surface gave.
pub fn settle(ray: Ray3, hit: Option<Ray3>, z: Scalar) -> (r: Ray3)
    ensures
        r == settle_spec(ray, hit, z),
{
    if ray.validity == RayValidity::VALID {
        match hit {
            Some(r) => r,
            None => Ray3 {
                origin: ray.origin,
                direction: ray.direction,
                validity: RayValidity::INVALID,
            },
        }
    } else if ray.is_heading_toward_z(z) {
        ray.advanced_to_z(z)
    } else {
        ray
    }
}

/// One step of the trace through the surface standing at `vertex`.
pub fn trace_step(ray: Ray3, surface: &StandardSurface, vertex: Point3) -> (r: Ray3)
    ensures
        r == step_spec(ray, surface.shape_spec(), vertex),
{
    settle(ray, self::trace(ray, surface, vertex), vertex.z)
}

/// The axial distance of surface `i` from the entry plane: the sum of the
/// thicknesses of the surfaces before it.
pub open spec fn axial_offset(surfaces: Seq<StandardSurface>, i: int) -> Scalar
    decreases i,
{
    if i <= 0 {
        Scalar::of_int(0)
    } else {
        axial_offset(surfaces, i - 1).plus(surfaces[i - 1].thickness)
    }
}

/// Where surface `i` stands: on the axis, at its axial offset.
pub open spec fn vertex_spec(surfaces: Seq<StandardSurface>, i: int) -> Point3 {
    Point3 { x: Scalar::of_int(0), y: Scalar::of_int(0), z: axial_offset(surfaces, i) }
}

/// The ray after the first `n` surfaces, each met in order.
pub open spec fn traced_through(surfaces: Seq<StandardSurface>, n: int, ray: Ray3) -> Ray3
    decreases n,
{
    if n <= 0 {
        ray
    } else {
        step_spec(
            traced_through(surfaces, n - 1, ray),
            surfaces[n - 1].shape_spec(),
            vertex_spec(surfaces, n - 1),
        )
    }
}

/// Something that a ray can be traced through.
pub trait Trace {
    fn trace_ray(&self, ray: Ray3) -> Ray3;
}

/// Surfaces in the order in which a ray meets them.
pub struct SequentialOpticalSystem {
    pub surfaces: Vec<StandardSurface>,
}

impl Default for SequentialOpticalSystem {
    fn default() -> (r: Self)
        ensures
            r.surfaces@.len() == 0,
    {
        SequentialOpticalSystem { surfaces: Vec::new() }
    }
}

impl View for SequentialOpticalSystem {
    type V = Seq<StandardSurface>;

    open spec fn view(&self) -> Seq<StandardSurface> {
        self.surfaces@
    }
}

impl Trace for SequentialOpticalSystem {
    /// Marches the ray through every surface in order.
    fn trace_ray(&self, ray: Ray3) -> (r: Ray3)
        ensures
            r == traced_through(self@, self@.len() as int, ray),
            r.direction == ray.direction,
            r.validity == ray.validity || r.validity == RayValidity::INVALID,
            ray.validity != RayValidity::VALID ==> r.validity == ray.validity,
    {
        let mut current = ray;
        let mut offset = Scalar::zero();
        let mut i: usize = 0;
        while i < self.surfaces.len()
            invariant
                i <= self.surfaces.len(),
                offset == axial_offset(self@, i as int),
                current == traced_through(self@, i as int, ray),
            decreases self.surfaces.len() - i,
        {
            let surface = &self.surfaces[i];
            let vertex = Point3 { x: Scalar::zero(), y: Scalar::zero(), z: offset };
            current = trace_step(current, surface, vertex);
            offset = offset + surface.thickness;
            i += 1;
        }
        proof {
            lemma_trace_keeps_direction(self@, self@.len() as int, ray);
            lemma_trace_tag(self@, self@.len() as int, ray);
            if ray.validity != RayValidity::VALID {
                lemma_trace_keeps_lost_tag(self@, self@.len() as int, ray);
            }
        }
        current
    }
}

impl SequentialOpticalSystem {
    /// Appends a surface behind the last one.
    pub fn add_surface(&mut self, surface: StandardSurface)
        ensures
            final(self)@ == old(self)@.push(surface),
    {
        self.surfaces.push(surface)
    }

    /// Takes out the surface at `index`, if there is one.
    pub fn remove_surface(&mut self, index: usize) -> (r: Option<StandardSurface>)
        ensures
            index < old(self)@.len() ==> r == Some(old(self)@[index as int]) && final(self)@
                == old(self)@.remove(index as int),
            index >= old(self)@.len() ==> r is None && final(self)@ == old(self)@,
    {
        if index < self.surfaces.len() {
            Some(self.surfaces.remove(index))
        } else {
            None
        }
    }

    /// Takes out the last surface, if there is one.
    pub fn remove_last(&mut self) -> (r: Option<StandardSurface>)
        ensures
            old(self)@.len() > 0 ==> r == Some(old(self)@.last()) && final(self)@ == old(
                self,
            )@.drop_last(),
            old(self)@.len() == 0 ==> r is None && final(self)@ == old(self)@,
    {
        self.surfaces.pop()
    }

    pub fn surface_count(&self) -> (r: usize)
        ensures
            r == self@.len(),
    {
        self.surfaces.len()
    }

    /// Where surface `index` stands. The index one past the last surface
    /// gives the plane that follows the last thickness.
    pub fn surface_position(&self, index: usize) -> (r: Option<Point3>)
        ensures
            index <= self@.len() ==> r == Some(vertex_spec(self@, index as int)),
            index > self@.len() ==> r is None,
    {
        if index > self.surfaces.len() {
            return None;
        }
        let mut offset = Scalar::zero();
        let mut i: usize = 0;
        while i < index
            invariant
                i <= index <= self.surfaces.len(),
                offset == axial_offset(self@, i as int),
            decreases index - i,
        {
            offset = offset + self.surfaces[i].thickness;
            i += 1;
        }
        Some(Point3 { x: Scalar::zero(), y: Scalar::zero(), z: offset })
    }
}

/// Where a surface stands depends only on the thicknesses before it: two
/// lists that agree on the first `i` thicknesses place surface `i` alike.
/// So appending a surface, or removing one at or behind `i`, moves nothing
/// up to `i`.
pub proof fn lemma_offset_depends_on_prefix(
    s1: Seq<StandardSurface>,
    s2: Seq<StandardSurface>,
    i: int,
)
    requires
        0 <= i <= s1.len(),
        i <= s2.len(),
        forall|j: int| 0 <= j < i ==> s1[j].thickness == s2[j].thickness,
    ensures
        axial_offset(s1, i) == axial_offset(s2, i),
    decreases i,
{
    if i > 0 {
        lemma_offset_depends_on_prefix(s1, s2, i - 1);
    }
}

/// Removing surface `k` leaves every surface up to `k` where it stood.
pub proof fn lemma_remove_keeps_earlier_positions(s: Seq<StandardSurface>, k: int, i: int)
    requires
        0 <= k < s.len(),
        0 <= i <= k,
    ensures
        vertex_spec(s.remove(k), i) == vertex_spec(s, i),
{
    lemma_offset_depends_on_prefix(s.remove(k), s, i);
}

/// Removing surface `k` pulls every later surface toward the entry plane by
/// the thickness of the removed one: what was surface `i + 1` is surface
/// `i` afterwards, and its offset is smaller by that thickness. This holds
/// where both offsets can be represented.
pub proof fn lemma_remove_shifts_later_positions(s: Seq<StandardSurface>, k: int, i: int)
    requires
        0 <= k <= i < s.len(),
        axial_offset(s, i + 1).is_finite(),
        axial_offset(s.remove(k), i).is_finite(),
    ensures
        axial_offset(s.remove(k), i).raw + s[k].thickness.raw == axial_offset(s, i + 1).raw,
    decreases i,
{
    if i == k {
        lemma_offset_depends_on_prefix(s.remove(k), s, k);
    } else {
        assert(s.remove(k)[i - 1] == s[i]);
        lemma_remove_shifts_later_positions(s, k, i - 1);
    }
}

/// Tracing is a function of the surfaces and the ray: equal surface lists
/// and equal rays give equal results.
pub proof fn lemma_trace_deterministic(
    s1: Seq<StandardSurface>,
    s2: Seq<StandardSurface>,
    ray1: Ray3,
    ray2: Ray3,
)
    requires
        s1 == s2,
        ray1 == ray2,
    ensures
        traced_through(s1, s1.len() as int, ray1) == traced_through(s2, s2.len() as int, ray2),
{
}

/// No surface turns the ray: the direction after any number of surfaces is
/// the direction at entry.
pub proof fn lemma_trace_keeps_direction(surfaces: Seq<StandardSurface>, n: int, ray: Ray3)
    requires
        n <= surfaces.len(),
    ensures
        traced_through(surfaces, n, ray).direction == ray.direction,
    decreases n,
{
    if n > 0 {
        lemma_trace_keeps_direction(surfaces, n - 1, ray);
    }
}

/// A ray that is not valid keeps its tag through every later surface.
pub proof fn lemma_trace_keeps_lost_tag(surfaces: Seq<StandardSurface>, n: int, ray: Ray3)
    requires
        n <= surfaces.len(),
        ray.validity != RayValidity::VALID,
    ensures
        traced_through(surfaces, n, ray).validity == ray.validity,
    decreases n,
{
    if n > 0 {
        lemma_trace_keeps_lost_tag(surfaces, n - 1, ray);
    }
}

/// Tracing never produces a tag other than the one at entry or "invalid".
pub proof fn lemma_trace_tag(surfaces: Seq<StandardSurface>, n: int, ray: Ray3)
    requires
        n <= surfaces.len(),
    ensures
        traced_through(surfaces, n, ray).validity == ray.validity || traced_through(
            surfaces,
            n,
            ray,
        ).validity == RayValidity::INVALID,
    decreases n,
{
    if n > 0 {
        lemma_trace_tag(surfaces, n - 1, ray);
    }
}

} // verus!
