//! Where a ray meets a sphere.
//!
//! The ray `origin + t * direction` meets the sphere where
//! `a * t * t + b * t + c == 0`, with the coefficients below. Of the two
//! roots the smaller one that is not negative is taken.
use crate::geometry::point::Point3;
use crate::geometry::ray::Ray3;
use crate::scalar::int_sqrt;
use crate::scalar::lemma_int_sqrt_bounds;
use crate::scalar::lemma_int_sqrt_fits;
use crate::scalar::Scalar;
use crate::scalar::SCALE;
use vstd::arithmetic::div_mod::lemma_div_is_ordered;
use vstd::arithmetic::div_mod::lemma_div_multiples_vanish;
use vstd::arithmetic::div_mod::lemma_fundamental_div_mod;
use vstd::arithmetic::div_mod::lemma_mod_bound;
use vstd::prelude::*;

verus! {

/// The coefficient of `t * t`: the squared length of the direction.
pub open spec fn quadratic_a(ray: Ray3) -> Scalar {
    ray.direction.dot_spec(ray.direction)
}

/// The coefficient of `t`: twice the projection of the offset from the
/// center onto the direction.
pub open spec fn quadratic_b(ray: Ray3, center: Point3) -> Scalar {
    Scalar::of_int(2).times(ray.origin.minus(center).dot_spec(ray.direction))
}

/// The constant coefficient: the squared distance of the origin from the
/// center, less the squared radius.
pub open spec fn quadratic_c(ray: Ray3, center: Point3, radius: Scalar) -> Scalar {
    ray.origin.minus(center).dot_spec(ray.origin.minus(center)).minus(radius.times(radius))
}

pub open spec fn discriminant(a: Scalar, b: Scalar, c: Scalar) -> Scalar {
    b.times(b).minus(Scalar::of_int(4).times(a).times(c))
}

/// The smaller root, given the discriminant.
pub open spec fn near_root(a: Scalar, b: Scalar, disc: Scalar) -> Scalar {
    b.negated().minus(disc.sqrt_spec()).over(Scalar::of_int(2).times(a))
}

/// The larger root, given the discriminant.
pub open spec fn far_root(a: Scalar, b: Scalar, disc: Scalar) -> Scalar {
    b.negated().plus(disc.sqrt_spec()).over(Scalar::of_int(2).times(a))
}

/// The root at which the ray is taken to strike: none for a negative
/// discriminant; the near root unless it is negative; else the far root
/// unless that is negative (or not a number) too.
pub open spec fn chosen_root(disc: Scalar, t1: Scalar, t2: Scalar) -> Option<Scalar> {
    let zero = Scalar::of_int(0);
    if disc.lt_spec(zero) {
        None
    } else if t1.lt_spec(zero) {
        if zero.le_spec(t2) {
            Some(t2)
        } else {
            None
        }
    } else {
        Some(t1)
    }
}

/// The parameter at which the ray strikes the sphere, if it does.
pub open spec fn hit_parameter(ray: Ray3, center: Point3, radius: Scalar) -> Option<Scalar> {
    let a = quadratic_a(ray);
    let b = quadratic_b(ray, center);
    let c = quadratic_c(ray, center, radius);
    let disc = discriminant(a, b, c);
    chosen_root(disc, near_root(a, b, disc), far_root(a, b, disc))
}

/// The point at which the ray strikes the sphere, if it does.
pub open spec fn intersect_spec(ray: Ray3, center: Point3, radius: Scalar) -> Option<Point3> {
    match hit_parameter(ray, center, radius) {
        Some(t) => Some(ray.at_spec(t)),
        None => None,
    }
}

/// Picks the root at which the ray strikes, from the discriminant and the
/// two roots.
pub fn choose_root(disc: Scalar, t1: Scalar, t2: Scalar) -> (r: Option<Scalar>)
    ensures
        r == chosen_root(disc, t1, t2),
{
    let zero = Scalar::zero();
    if disc.lt(zero) {
        None
    } else if t1.lt(zero) {
        if t2.ge(zero) {
            Some(t2)
        } else {
            None
        }
    } else {
        Some(t1)
    }
}

/// The nearest point ahead of the ray's origin at which the ray meets the
/// sphere; none where the ray misses the sphere or the sphere lies behind.
pub fn intersect_ray_with_sphere(ray: Ray3, sphere_origin: Point3, sphere_radius: Scalar) -> (r:
    Option<Point3>)
    ensures
        r == intersect_spec(ray, sphere_origin, sphere_radius),
{
    let vec_ray_sphere = ray.origin - sphere_origin;
    let two = Scalar::from_int(2);
    let four = Scalar::from_int(4);
    let a = ray.direction.dot(ray.direction);
    let b = two * vec_ray_sphere.dot(ray.direction);
    let c = vec_ray_sphere.dot(vec_ray_sphere) - sphere_radius * sphere_radius;
    let d = b * b - four * a * c;
    let minus_b = core::ops::Neg::neg(b);
    let t1 = (minus_b - d.sqrt()) / (two * a);
    let t2 = (minus_b + d.sqrt()) / (two * a);
    match choose_root(d, t1, t2) {
        Some(t) => Some(ray.at(t)),
        None => None,
    }
}

/// A negative number divided by a positive one, rounded down, is negative.
pub proof fn lemma_negative_quotient(n: int, d: int)
    requires
        n < 0,
        d > 0,
    ensures
        n / d < 0,
{
    lemma_fundamental_div_mod(n, d);
    lemma_mod_bound(n, d);
    let q = n / d;
    if q >= 0 {
        assert(d * q >= 0) by (nonlinear_arith)
            requires
                d > 0,
                q >= 0,
        ;
    }
}

/// The squared length of a direction is never negative.
pub proof fn lemma_quadratic_a_not_negative(ray: Ray3)
    requires
        quadratic_a(ray).is_finite(),
    ensures
        quadratic_a(ray).raw >= 0,
{
    let d = ray.direction;
    assert(d.x.raw * d.x.raw >= 0 && d.y.raw * d.y.raw >= 0 && d.z.raw * d.z.raw >= 0)
        by (nonlinear_arith);
}

/// The near root is never above the far root, where `a` is not negative and
/// both roots can be represented.
pub proof fn lemma_near_root_first(a: Scalar, b: Scalar, disc: Scalar)
    requires
        a.is_finite(),
        a.raw >= 0,
        near_root(a, b, disc).is_finite(),
        far_root(a, b, disc).is_finite(),
    ensures
        near_root(a, b, disc).raw <= far_root(a, b, disc).raw,
{
    let s = SCALE as int;
    let root = disc.sqrt_spec();
    let two_a = Scalar::of_int(2).times(a);
    let n1 = b.negated().minus(root);
    let n2 = b.negated().plus(root);
    let av = a.raw as int;
    assert(Scalar::of_int(2).raw == 2 * s);
    assert(2 * s * av == s * (2 * av)) by (nonlinear_arith);
    lemma_div_multiples_vanish(2 * av, s);
    assert(two_a.raw == 2 * av);
    assert(disc.is_finite() && disc.raw >= 0);
    lemma_int_sqrt_fits(disc.raw as int);
    assert(root.raw >= 0);
    assert(n1.raw <= n2.raw);
    assert(n1.raw * s <= n2.raw * s) by (nonlinear_arith)
        requires
            n1.raw <= n2.raw,
            s > 0,
    ;
    lemma_div_is_ordered(n1.raw * s, n2.raw * s, 2 * av);
}

/// A ray is only ever taken to strike ahead of its origin: a root that is
/// chosen and is a number is not negative.
pub proof fn lemma_chosen_root_not_negative(disc: Scalar, t1: Scalar, t2: Scalar)
    requires
        chosen_root(disc, t1, t2) is Some,
        chosen_root(disc, t1, t2).unwrap().is_finite(),
    ensures
        chosen_root(disc, t1, t2).unwrap().raw >= 0,
{
}

/// A sphere that lies wholly behind the origin is not struck: where both
/// roots are negative there is no intersection.
pub proof fn lemma_sphere_behind_is_missed(ray: Ray3, center: Point3, radius: Scalar)
    requires
        ({
            let a = quadratic_a(ray);
            let b = quadratic_b(ray, center);
            let disc = discriminant(a, b, quadratic_c(ray, center, radius));
            near_root(a, b, disc).lt_spec(Scalar::of_int(0)) && far_root(a, b, disc).lt_spec(
                Scalar::of_int(0),
            )
        }),
    ensures
        intersect_spec(ray, center, radius) is None,
{
}

/// With a positive `b` and a positive `c` neither root is chosen, provided
/// the direction is at least half a unit long (`a` at least a quarter) and
/// the discriminant and, where it is not negative, the near root can be
/// represented.
pub proof fn lemma_receding_roots_rejected(a: Scalar, b: Scalar, c: Scalar)
    requires
        a.is_finite(),
        4 * a.raw >= SCALE,
        Scalar::of_int(0).lt_spec(b),
        Scalar::of_int(0).lt_spec(c),
        discriminant(a, b, c).is_finite(),
        Scalar::of_int(0).le_spec(discriminant(a, b, c)) ==> near_root(
            a,
            b,
            discriminant(a, b, c),
        ).is_finite(),
    ensures
        chosen_root(
            discriminant(a, b, c),
            near_root(a, b, discriminant(a, b, c)),
            far_root(a, b, discriminant(a, b, c)),
        ) is None,
{
    let s = SCALE as int;
    let av = a.raw as int;
    let bv = b.raw as int;
    let cv = c.raw as int;
    let disc = discriminant(a, b, c);
    let zero = Scalar::of_int(0);
    assert(zero.raw == 0);
    if !disc.lt_spec(zero) {
        let four_a = Scalar::of_int(4).times(a);
        let four_ac = four_a.times(c);
        let bb = b.times(b);
        assert(Scalar::of_int(4).raw == 4 * s);
        assert((4 * s * av) / s == 4 * av);
        assert(four_a.raw == 4 * av);
        assert(4 * av * cv >= s) by (nonlinear_arith)
            requires
                4 * av >= s,
                cv >= 1,
                s > 0,
        ;
        assert(four_ac.raw == (4 * av * cv) / s);
        assert(four_ac.raw >= 1);
        assert(bb.raw == (bv * bv) / s);
        assert(bb.raw * s <= bv * bv);
        let dv = disc.raw as int;
        assert(dv == bb.raw - four_ac.raw);
        assert(dv * s < bv * bv);
        let root = int_sqrt((dv * s) as nat) as int;
        lemma_int_sqrt_bounds((dv * s) as nat);
        if root >= bv {
            assert(root * root >= bv * bv) by (nonlinear_arith)
                requires
                    root >= bv,
                    bv > 0,
            ;
        }
        assert(disc.sqrt_spec().raw == root);
        let two_a = Scalar::of_int(2).times(a);
        assert(Scalar::of_int(2).raw == 2 * s);
        assert((2 * s * av) / s == 2 * av);
        assert(two_a.is_finite());
        assert(two_a.raw == 2 * av);
        let n1 = b.negated().minus(disc.sqrt_spec());
        let n2 = b.negated().plus(disc.sqrt_spec());
        assert(n1.is_finite());
        assert(n1.raw == -bv - root);
        assert(n2.raw == root - bv);
        assert(n1.raw * s < 0) by (nonlinear_arith)
            requires
                n1.raw < 0,
                s > 0,
        ;
        assert(n2.raw * s < 0) by (nonlinear_arith)
            requires
                n2.raw < 0,
                s > 0,
        ;
        lemma_negative_quotient(n1.raw * s, 2 * av);
        lemma_negative_quotient(n2.raw * s, 2 * av);
    }
}

/// A ray that starts outside a sphere and points away from it does not
/// strike it.
///
/// "Outside" is a positive `c`, "away" a positive `b`. The direction must be
/// at least half a unit long, as it is in every ray of unit direction, and
/// the discriminant and, where it is not negative, the near root must be
/// representable.
pub proof fn lemma_pointing_away_misses(ray: Ray3, center: Point3, radius: Scalar)
    requires
        quadratic_a(ray).is_finite(),
        4 * quadratic_a(ray).raw >= SCALE,
        Scalar::of_int(0).lt_spec(quadratic_b(ray, center)),
        Scalar::of_int(0).lt_spec(quadratic_c(ray, center, radius)),
        discriminant(
            quadratic_a(ray),
            quadratic_b(ray, center),
            quadratic_c(ray, center, radius),
        ).is_finite(),
        Scalar::of_int(0).le_spec(
            discriminant(
                quadratic_a(ray),
                quadratic_b(ray, center),
                quadratic_c(ray, center, radius),
            ),
        ) ==> near_root(
            quadratic_a(ray),
            quadratic_b(ray, center),
            discriminant(
                quadratic_a(ray),
                quadratic_b(ray, center),
                quadratic_c(ray, center, radius),
            ),
        ).is_finite(),
    ensures
        intersect_spec(ray, center, radius) is None,
{
    lemma_receding_roots_rejected(
        quadratic_a(ray),
        quadratic_b(ray, center),
        quadratic_c(ray, center, radius),
    );
}

} // verus!
