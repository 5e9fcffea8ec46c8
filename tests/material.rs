use soundprop::material::{
    rock_constants, sediment_law, Density, Material, MaterialKind, MaterialType, Ratio,
    SedimentLaw, VelocityLaw,
};

fn value(r: Ratio) -> f64 {
    r.numerator as f64 / r.denominator as f64
}

#[test]
fn rock_and_sediment_families() {
    assert!(MaterialType::Basalt.is_rock());
    assert!(MaterialType::Sandstone.is_rock());
    assert!(!MaterialType::Sand.is_rock());
    assert!(!MaterialType::TurbiditeArea.is_rock());
    assert!(rock_constants(MaterialType::Sand).is_none());
    assert!(sediment_law(MaterialType::Granite).is_none());
}

#[test]
fn basalt_moduli_follow_young_and_poisson() {
    let m = Material::define(MaterialType::Basalt);
    assert_eq!(m.material_name, MaterialType::Basalt);
    let shear = m.shear_modulus().unwrap();
    let bulk = m.bulk_modulus().unwrap();
    // E = 62.6 GPa, nu = 0.25
    assert_eq!(shear, Ratio { numerator: 3_130_000_000_000, denominator: 125 });
    assert!((value(shear) - 62.6e9 / (2.0 * 1.25)).abs() < 1.0);
    assert!((value(bulk) - 62.6e9 / (3.0 * 0.5)).abs() < 1.0);
    assert_eq!(m.density(), Density::Constant(3011));
}

#[test]
fn p_wave_modulus_is_bulk_plus_four_thirds_shear() {
    for t in [
        MaterialType::Basalt,
        MaterialType::Granite,
        MaterialType::Quartzite,
        MaterialType::Gneiss,
        MaterialType::Schist,
        MaterialType::Marble,
        MaterialType::Limestone,
        MaterialType::Shale,
        MaterialType::Sandstone,
    ] {
        let c = rock_constants(t).unwrap();
        let m = value(c.p_wave_modulus());
        let k = value(c.bulk_modulus());
        let mu = value(c.shear_modulus());
        assert!(((m - (k + 4.0 * mu / 3.0)) / m).abs() < 1e-12);
    }
}

#[test]
fn basalt_velocity_is_near_five_kilometres_per_second() {
    let m = Material::define(MaterialType::Basalt);
    match m.velocity_law() {
        VelocityLaw::Constant(squared) => {
            let v = value(squared).sqrt();
            // sqrt(7.512e10 / 3011)
            assert!((v - 4994.8).abs() < 0.1);
        }
        VelocityLaw::Depth(_) => panic!("basalt has a constant velocity"),
    }
}

#[test]
fn sediments_carry_their_depth_laws() {
    let sand = Material::define(MaterialType::Sand);
    assert_eq!(sand.density(), Density::Variable);
    assert!(sand.shear_modulus().is_none());
    assert!(sand.bulk_modulus().is_none());
    assert_eq!(
        sand.velocity_law(),
        VelocityLaw::Depth(SedimentLaw { constant: 1626, linear: 0, quadratic: 0, cubic: 0 })
    );
    let turbidite = Material::define(MaterialType::TurbiditeArea);
    assert_eq!(
        turbidite.kind,
        MaterialKind::Sediment(SedimentLaw { constant: 1511, linear: 1304, quadratic: 0, cubic: -257 })
    );
    assert_eq!(
        sediment_law(MaterialType::CalcerousSediment),
        Some(SedimentLaw { constant: 1559, linear: 1713, quadratic: -374, cubic: 0 })
    );
    assert_eq!(
        sediment_law(MaterialType::SiliceousSediment),
        Some(SedimentLaw { constant: 1509, linear: 869, quadratic: -267, cubic: 0 })
    );
}
