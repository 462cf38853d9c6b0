use opaliha::materials::material::Air;
use opaliha::materials::material::Glass;
use opaliha::materials::material::Material;
use opaliha::scalar::Scalar;

#[test]
fn air_is_named_and_has_index_one() {
    let air = Air::default();
    assert_eq!(air.name(), "air");
    assert_eq!(air.refraction_index_at(Scalar::from_int(1)), Scalar::one());
    assert_eq!(air.refraction_index_at(Scalar { raw: 550 }), Scalar::one());
}

#[test]
fn glass_is_named_and_has_index_one() {
    let glass = Glass { name: "N-BK7".to_string() };
    assert_eq!(glass.name(), "N-BK7");
    assert_eq!(glass.refraction_index_at(Scalar { raw: 550 }), Scalar::one());
}

#[test]
fn materials_behind_a_box() {
    let media: Vec<Box<dyn Material>> =
        vec![Box::new(Air::default()), Box::new(Glass { name: "F2".to_string() })];
    assert_eq!(media[0].name(), "air");
    assert_eq!(media[1].name(), "F2");
}
