use opaliha::geometry::intersection::choose_root;
use opaliha::geometry::intersection::intersect_ray_with_sphere;
use opaliha::geometry::point::Point3;
use opaliha::geometry::ray::Ray3;
use opaliha::geometry::ray::RayValidity;
use opaliha::geometry::sphere::Sphere;
use opaliha::geometry::vector::Vector3;
use opaliha::scalar::Scalar;

fn fx(v: f64) -> Scalar {
    Scalar { raw: (v * 1.0e9).round() as i64 }
}

fn pt(x: f64, y: f64, z: f64) -> Point3 {
    Point3 { x: fx(x), y: fx(y), z: fx(z) }
}

fn ray(origin: Point3, x: f64, y: f64, z: f64) -> Ray3 {
    Ray3 {
        origin,
        direction: Vector3 { x: fx(x), y: fx(y), z: fx(z) },
        validity: RayValidity::VALID,
    }
}

#[test]
fn test_ray_sphere_intersection() {
    let c0 = Point3::origin();
    let c1 = pt(0.0, 3.0, 0.0);

    let rad1 = fx(1.0);

    let ray1 = Ray3 {
        origin: c0,
        direction: Vector3 { x: fx(0.0), y: fx(0.0), z: fx(1.0) },
        validity: RayValidity::VALID,
    };
    let ray2 = Ray3 {
        origin: c0,
        direction: Vector3 { x: fx(0.0), y: fx(0.0), z: fx(-1.0) },
        validity: RayValidity::VALID,
    };
    let ray3 = Ray3 {
        origin: c0,
        direction: Vector3 { x: fx(0.0), y: fx(1.0), z: fx(0.0) },
        validity: RayValidity::VALID,
    };
    let ray4 = Ray3 {
        origin: c0,
        direction: Vector3 { x: fx(0.0), y: fx(-1.0), z: fx(0.0) },
        validity: RayValidity::VALID,
    };
    assert_eq!(intersect_ray_with_sphere(ray1, c0, rad1), Some(pt(0.0, 0.0, 1.0)));
    assert_eq!(intersect_ray_with_sphere(ray2, c0, rad1), Some(pt(0.0, 0.0, -1.0)));
    assert_eq!(intersect_ray_with_sphere(ray3, c0, rad1), Some(pt(0.0, 1.0, 0.0)));
    assert_eq!(intersect_ray_with_sphere(ray4, c0, rad1), Some(pt(0.0, -1.0, 0.0)));
    assert_eq!(intersect_ray_with_sphere(ray1, c1, rad1), None);

    println!("AAAAAAAAAAAAAAAAAAAAAAAAAAAAAAAAAAAAAAAAAAAAAAAAAAAAAAAAAAAAAAA");
}

#[test]
fn sphere_hit_from_center_along_z() {
    let c0 = Point3::origin();
    assert_eq!(
        intersect_ray_with_sphere(ray(c0, 0., 0., 1.), c0, fx(1.)),
        Some(pt(0., 0., 1.))
    );
    assert_eq!(
        intersect_ray_with_sphere(ray(c0, 0., 0., -1.), c0, fx(1.)),
        Some(pt(0., 0., -1.))
    );
}

#[test]
fn sphere_missed_when_pointing_away() {
    let c0 = Point3::origin();
    assert_eq!(intersect_ray_with_sphere(ray(pt(0., 0., 5.), 0., 0., 1.), c0, fx(1.)), None);
    assert_eq!(intersect_ray_with_sphere(ray(pt(0., 7., 0.), 0., 1., 0.), c0, fx(2.)), None);
    assert_eq!(intersect_ray_with_sphere(ray(pt(-3., 0., 0.), -1., 0., 0.), c0, fx(2.)), None);
}

#[test]
fn sphere_behind_origin_is_missed() {
    let behind = pt(0., 0., -10.);
    assert_eq!(
        intersect_ray_with_sphere(ray(Point3::origin(), 0., 0., 1.), behind, fx(3.)),
        None
    );
}

#[test]
fn sphere_missed_sideways() {
    assert_eq!(
        intersect_ray_with_sphere(ray(pt(0., 10., -50.), 0., 0., 1.), pt(0., 0., 1.), fx(1.)),
        None
    );
}

#[test]
fn sphere_nearest_root_wins() {
    let c0 = Point3::origin();
    assert_eq!(
        intersect_ray_with_sphere(ray(pt(0., 0., -5.), 0., 0., 1.), c0, fx(1.)),
        Some(pt(0., 0., -1.))
    );
    assert_eq!(
        intersect_ray_with_sphere(ray(pt(0., 0., 0.5), 0., 0., 1.), c0, fx(1.)),
        Some(pt(0., 0., 1.))
    );
    assert_eq!(
        intersect_ray_with_sphere(ray(pt(1., 0., -5.), 0., 0., 1.), c0, fx(1.)),
        Some(pt(1., 0., 0.))
    );
    assert_eq!(
        intersect_ray_with_sphere(ray(pt(0., 0., -1.), 0., 0., 1.), c0, fx(1.)),
        Some(pt(0., 0., -1.))
    );
    assert_eq!(
        intersect_ray_with_sphere(ray(c0, 0., 0., 1.), pt(0., 0., 5.), fx(2.)),
        Some(pt(0., 0., 3.))
    );
}

#[test]
fn sphere_radius_sign_does_not_matter() {
    let r = Ray3 {
        origin: pt(0., 0., -50.),
        direction: Vector3 {
            x: fx(0.),
            y: Scalar { raw: 99_503_719 },
            z: Scalar { raw: 995_037_190 },
        },
        validity: RayValidity::VALID,
    };
    let expected = Some(Point3 {
        x: fx(0.),
        y: Scalar { raw: 5_051_568_549 },
        z: Scalar { raw: 515_685_497 },
    });
    assert_eq!(intersect_ray_with_sphere(r, pt(0., 0., 25.), fx(25.)), expected);
    assert_eq!(intersect_ray_with_sphere(r, pt(0., 0., 25.), fx(-25.)), expected);
}

#[test]
fn sphere_hit_ignores_validity() {
    let mut r = ray(Point3::origin(), 0., 0., 1.);
    r.validity = RayValidity::INVALID;
    assert_eq!(intersect_ray_with_sphere(r, Point3::origin(), fx(1.)), Some(pt(0., 0., 1.)));
}

#[test]
fn sphere_hit_of_zero_direction_is_nan() {
    let hit = intersect_ray_with_sphere(ray(Point3::origin(), 0., 0., 0.), pt(0., 0., 5.), fx(2.));
    match hit {
        Some(p) => assert!(p.x.is_nan() && p.y.is_nan() && p.z.is_nan()),
        None => panic!("a ray without direction yields a point that is not a number"),
    }
}

#[test]
fn sphere_and_ray_methods_agree() {
    let r = ray(pt(0., 0., -5.), 0., 0., 1.);
    let s = Sphere { origin: Point3::origin(), radius: fx(1.) };
    assert_eq!(r.intersect_with_sphere(s), Some(pt(0., 0., -1.)));
    assert_eq!(s.intersect_with_ray(r), Some(pt(0., 0., -1.)));
    let t = Sphere::new(pt(0., 3., 0.), fx(1.));
    assert_eq!(t, Sphere { origin: pt(0., 3., 0.), radius: fx(1.) });
    assert_eq!(r.intersect_with_sphere(t), None);
    assert_eq!(t.intersect_with_ray(r), None);
}

#[test]
fn root_choice() {
    assert_eq!(choose_root(fx(-1.), fx(1.), fx(2.)), None);
    assert_eq!(choose_root(fx(0.), fx(1.), fx(2.)), Some(fx(1.)));
    assert_eq!(choose_root(fx(4.), fx(0.), fx(2.)), Some(fx(0.)));
    assert_eq!(choose_root(fx(4.), fx(-1.), fx(2.)), Some(fx(2.)));
    assert_eq!(choose_root(fx(4.), fx(-1.), fx(0.)), Some(fx(0.)));
    assert_eq!(choose_root(fx(4.), fx(-2.), fx(-1.)), None);
    assert_eq!(choose_root(fx(4.), fx(-2.), Scalar::nan()), None);
    assert_eq!(choose_root(fx(4.), Scalar::nan(), fx(1.)), Some(Scalar::nan()));
    assert_eq!(choose_root(Scalar::nan(), fx(3.), fx(5.)), Some(fx(3.)));
}
