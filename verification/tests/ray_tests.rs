use opaliha::geometry::point::Point3;
use opaliha::geometry::ray::Ray3;
use opaliha::geometry::ray::RayValidity;
use opaliha::geometry::vector::Vector3;
use opaliha::scalar::Scalar;

fn fx(v: f64) -> Scalar {
    Scalar { raw: (v * 1.0e9).round() as i64 }
}

fn pt(x: f64, y: f64, z: f64) -> Point3 {
    Point3 { x: fx(x), y: fx(y), z: fx(z) }
}

fn vec3(x: f64, y: f64, z: f64) -> Vector3 {
    Vector3 { x: fx(x), y: fx(y), z: fx(z) }
}

fn ray(origin: Point3, direction: Vector3) -> Ray3 {
    Ray3 { origin, direction, validity: RayValidity::VALID }
}

#[test]
fn ray_new_normalizes() {
    let r = Ray3::new(pt(1., 2., 3.), vec3(0., 0., 5.));
    assert_eq!(r.origin, pt(1., 2., 3.));
    assert_eq!(r.direction, vec3(0., 0., 1.));
    assert_eq!(r.validity, RayValidity::VALID);
    let s = Ray3::new(pt(0., 0., 0.), vec3(3., 0., 4.));
    assert_eq!(s.direction, vec3(0.6, 0., 0.8));
}

#[test]
fn ray_at() {
    let r = ray(pt(1., 2., 3.), vec3(0.6, 0., 0.8));
    assert_eq!(r.at(fx(0.)), pt(1., 2., 3.));
    assert_eq!(r.at(fx(5.)), pt(4., 2., 7.));
    assert_eq!(r.at(fx(-5.)), pt(-2., 2., -1.));
    assert_eq!(r.at(fx(1.25)), pt(1.75, 2., 4.));
}

#[test]
fn ray_propagates_to_plane() {
    let mut r = ray(pt(0., 0., 0.), vec3(0., 0.6, 0.8));
    assert!(r.propagate_to_z(fx(8.)));
    assert_eq!(r.origin, pt(0., 6., 8.));
    assert_eq!(r.direction, vec3(0., 0.6, 0.8));
    assert_eq!(r.validity, RayValidity::VALID);

    let mut s = ray(pt(1., 2., 3.), vec3(0.6, 0., 0.8));
    assert!(s.propagate_to_z(fx(4.)));
    assert_eq!(s.origin, pt(1.75, 2., 4.));
}

#[test]
fn ray_propagation_rounds_down() {
    let mut r = Ray3 {
        origin: pt(0., 0., -50.),
        direction: Vector3 {
            x: fx(0.),
            y: Scalar { raw: 99_503_719 },
            z: Scalar { raw: 995_037_190 },
        },
        validity: RayValidity::VALID,
    };
    assert!(r.propagate_to_z(fx(0.)));
    assert_eq!(
        r.origin,
        Point3 { x: fx(0.), y: Scalar { raw: 4_999_999_999 }, z: Scalar { raw: -1 } }
    );
}

#[test]
fn ray_past_the_plane_is_left_alone() {
    let start = ray(pt(1., 2., 3.), vec3(0., 0., 1.));
    let mut at_plane = start;
    assert!(!at_plane.propagate_to_z(fx(3.)));
    assert_eq!(at_plane, start);
    let mut past_plane = start;
    assert!(!past_plane.propagate_to_z(fx(-10.)));
    assert_eq!(past_plane, start);
}

#[test]
fn ray_not_climbing_is_left_alone() {
    let level = ray(pt(0., 0., 0.), vec3(1., 0., 0.));
    let mut r = level;
    assert!(!r.propagate_to_z(fx(5.)));
    assert_eq!(r, level);
    let falling = ray(pt(0., 0., 0.), vec3(0., 0., -1.));
    let mut s = falling;
    assert!(!s.propagate_to_z(fx(5.)));
    assert_eq!(s, falling);
}

#[test]
fn ray_that_is_not_valid_is_left_alone() {
    let mut lost = ray(pt(0., 0., 0.), vec3(0., 0., 1.));
    lost.validity = RayValidity::INVALID;
    let before = lost;
    assert!(!lost.propagate_to_z(fx(5.)));
    assert_eq!(lost, before);

    let mut reflected = ray(pt(0., 0., 0.), vec3(0., 0., 1.));
    reflected.validity = RayValidity::TIR;
    let before = reflected;
    assert!(!reflected.propagate_to_z(fx(5.)));
    assert_eq!(reflected, before);
}

#[test]
fn ray_with_nan_is_left_alone() {
    let odd = ray(Point3 { x: fx(0.), y: fx(0.), z: Scalar::nan() }, vec3(0., 0., 1.));
    let mut r = odd;
    assert!(!r.propagate_to_z(fx(5.)));
    assert_eq!(r, odd);
    let mut s = ray(pt(0., 0., 0.), vec3(0., 0., 1.));
    assert!(!s.propagate_to_z(Scalar::nan()));
    assert_eq!(s, ray(pt(0., 0., 0.), vec3(0., 0., 1.)));
}

#[test]
fn ray_heading_and_advance() {
    let mut lost = ray(pt(0., 10., -50.), vec3(0., 0., 1.));
    lost.validity = RayValidity::INVALID;
    assert!(lost.is_heading_toward_z(fx(5.)));
    assert!(!lost.is_heading_toward_z(fx(-50.)));
    let moved = lost.advanced_to_z(fx(5.));
    assert_eq!(moved.origin, pt(0., 10., 5.));
    assert_eq!(moved.direction, vec3(0., 0., 1.));
    assert_eq!(moved.validity, RayValidity::INVALID);
}

#[test]
fn validity_names() {
    assert_eq!(RayValidity::VALID.name(), "valid");
    assert_eq!(RayValidity::INVALID.name(), "invalid");
    assert_eq!(RayValidity::TIR.name(), "tir");
}
