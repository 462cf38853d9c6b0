use opaliha::geometry::point::distance;
use opaliha::geometry::point::distance_squared;
use opaliha::geometry::point::lerp;
use opaliha::geometry::point::max_point;
use opaliha::geometry::point::min_point;
use opaliha::geometry::point::Point3;
use opaliha::geometry::vector::Vector3;
use opaliha::scalar::Scalar;
use opaliha::scalar::MAX_RAW;

fn fx(v: f64) -> Scalar {
    Scalar { raw: (v * 1.0e9).round() as i64 }
}

fn pt(x: f64, y: f64, z: f64) -> Point3 {
    Point3 { x: fx(x), y: fx(y), z: fx(z) }
}

fn vec3(x: f64, y: f64, z: f64) -> Vector3 {
    Vector3 { x: fx(x), y: fx(y), z: fx(z) }
}

#[test]
fn point_origin_is_zero() {
    assert_eq!(Point3::origin(), pt(0., 0., 0.));
}

#[test]
fn point_indexing() {
    let p = pt(1., 2., 3.);
    assert_eq!(p[0], fx(1.));
    assert_eq!(p[1], fx(2.));
    assert_eq!(p[2], fx(3.));
}

#[test]
fn point_arithmetic() {
    assert_eq!(pt(1., 2., 3.) + vec3(0.5, -2., 10.), pt(1.5, 0., 13.));
    assert_eq!(pt(1., 2., 3.) + pt(4., 5., 6.), pt(5., 7., 9.));
    assert_eq!(pt(1., 2., 3.) - pt(4., 6., 8.), vec3(-3., -4., -5.));
    assert_eq!(pt(1., -2., 3.) * fx(1.5), pt(1.5, -3., 4.5));
}

#[test]
fn point_sub_then_add_round_trip() {
    let samples = [
        (pt(1., 2., 3.), pt(4., 6., 8.)),
        (pt(-0.000000001, 1000., -3.5), pt(0.25, -999.999999999, 3.5)),
        (pt(0., 0., 0.), pt(0., 0., 0.)),
        (pt(5000000., -5000000., 1.), pt(-5000000., 5000000., -1.)),
    ];
    for (p, q) in samples {
        assert_eq!(p + (q - p), q);
    }
}

#[test]
fn point_round_trip_fails_only_on_overflow() {
    let p = Point3 { x: Scalar { raw: -MAX_RAW }, y: fx(0.), z: fx(0.) };
    let q = Point3 { x: Scalar { raw: MAX_RAW }, y: fx(1.), z: fx(2.) };
    let back = p + (q - p);
    assert!(back.x.is_nan());
    assert_eq!(back.y, fx(1.));
    assert_eq!(back.z, fx(2.));
}

#[test]
fn point_abs_floor_ceil() {
    assert_eq!(pt(-1.5, 2.5, -0.25).abs(), vec3(1.5, 2.5, 0.25));
    assert_eq!(pt(-1.5, 2.5, -0.25).floor(), vec3(-2., 2., -1.));
    assert_eq!(pt(-1.5, 2.5, -0.25).ceil(), vec3(-1., 3., 0.));
    assert_eq!(pt(3., -3., 0.).floor(), vec3(3., -3., 0.));
    assert_eq!(pt(3., -3., 0.).ceil(), vec3(3., -3., 0.));
}

#[test]
fn point_permute_all_orders() {
    let p = pt(1., 2., 3.);
    assert_eq!(p.permute(0, 1, 2), pt(1., 2., 3.));
    assert_eq!(p.permute(0, 2, 1), pt(1., 3., 2.));
    assert_eq!(p.permute(1, 0, 2), pt(2., 1., 3.));
    assert_eq!(p.permute(1, 2, 0), pt(2., 3., 1.));
    assert_eq!(p.permute(2, 0, 1), pt(3., 1., 2.));
    assert_eq!(p.permute(2, 1, 0), pt(3., 2., 1.));
}

#[test]
fn point_distance() {
    assert_eq!(distance(pt(1., 1., 1.), pt(4., 5., 1.)), fx(5.));
    assert_eq!(distance(pt(4., 5., 1.), pt(1., 1., 1.)), fx(5.));
    assert_eq!(distance(pt(1., 1., 1.), pt(1., 1., 1.)), fx(0.));
    assert_eq!(distance_squared(pt(1., 1., 1.), pt(4., 5., 1.)), fx(25.));
    assert_eq!(distance(pt(0., 0., 0.), pt(1., 2., 3.)), Scalar { raw: 3_741_657_386 });
    assert_eq!(
        distance_squared(pt(0., 0., 0.), pt(1., 2., 3.)),
        Scalar { raw: 13_999_999_994 }
    );
}

#[test]
fn point_lerp() {
    let a = pt(0., 10., -4.);
    let b = pt(8., 20., 4.);
    assert_eq!(lerp(a, b, fx(0.)), a);
    assert_eq!(lerp(a, b, fx(1.)), b);
    assert_eq!(lerp(a, b, fx(0.5)), pt(4., 15., 0.));
    assert_eq!(lerp(a, b, fx(0.25)), pt(2., 12.5, -2.));
    assert_eq!(lerp(a, b, fx(2.)), pt(16., 30., 12.));
}

#[test]
fn point_min_max() {
    let a = pt(1., 5., -3.);
    let b = pt(2., 4., -3.);
    assert_eq!(min_point(a, b), pt(1., 4., -3.));
    assert_eq!(max_point(a, b), pt(2., 5., -3.));
    let n = Point3 { x: Scalar::nan(), y: fx(0.), z: fx(0.) };
    assert_eq!(min_point(n, a), pt(1., 0., -3.));
    assert_eq!(max_point(a, n), pt(1., 5., 0.));
}
