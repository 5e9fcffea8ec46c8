//! Acoustic materials below the sea floor.
//!
//! Rock is described by its Young's modulus, Poisson ratio and density; its
//! P-wave velocity is the square root of `(K + 4μ/3) / ρ`, which this module
//! gives as an exact ratio. Sediment is described by an empirical polynomial
//! law of velocity against depth.
use vstd::prelude::*;

verus! {

/// The substances a boundary region can be made of.
#[derive(Clone, Copy, Debug, PartialEq, Eq, Structural)]
pub enum MaterialType {
    Basalt,
    Granite,
    Quartzite,
    Gneiss,
    Schist,
    Marble,
    Limestone,
    Shale,
    Sandstone,
    TurbiditeArea,
    SiliceousSediment,
    CalcerousSediment,
    Sand,
}

/// Tabulated constants of a rock.
#[derive(Clone, Copy, Debug, PartialEq, Eq, Structural)]
pub struct RockConstants {
    /// Young's modulus, in units of 10^8 Pa (tenths of a gigapascal).
    pub youngs_modulus: u32,
    /// Poisson ratio, in hundredths.
    pub poisson_percent: u32,
    /// Density in kg/m^3.
    pub density: u32,
}

/// Sediment velocity law: the velocity in m/s is
/// `constant + linear * d + quadratic * d^2 + cubic * d^3` with `d` the depth in km.
#[derive(Clone, Copy, Debug, PartialEq, Eq, Structural)]
pub struct SedimentLaw {
    pub constant: i32,
    pub linear: i32,
    pub quadratic: i32,
    pub cubic: i32,
}

impl MaterialType {
    pub open spec fn spec_is_rock(self) -> bool {
        match self {
            MaterialType::TurbiditeArea
            | MaterialType::SiliceousSediment
            | MaterialType::CalcerousSediment
            | MaterialType::Sand => false,
            _ => true,
        }
    }

    /// Whether this is one of the rock family (constant velocity and density).
    pub fn is_rock(&self) -> (r: bool)
        ensures
            r == self.spec_is_rock(),
    {
        match self {
            MaterialType::TurbiditeArea
            | MaterialType::SiliceousSediment
            | MaterialType::CalcerousSediment
            | MaterialType::Sand => false,
            _ => true,
        }
    }
}

pub open spec fn rock(youngs_modulus: u32, poisson_percent: u32, density: u32) -> RockConstants {
    RockConstants { youngs_modulus, poisson_percent, density }
}

/// The rock table: Young's modulus (10^8 Pa), Poisson ratio (%), density (kg/m^3).
pub open spec fn rock_table(t: MaterialType) -> Option<RockConstants> {
    match t {
        MaterialType::Basalt => Some(rock(626, 25, 3011)),
        MaterialType::Granite => Some(rock(593, 23, 2691)),
        MaterialType::Quartzite => Some(rock(709, 15, 2655)),
        MaterialType::Gneiss => Some(rock(586, 21, 2750)),
        MaterialType::Schist => Some(rock(424, 12, 2350)),
        MaterialType::Marble => Some(rock(463, 23, 2711)),
        MaterialType::Limestone => Some(rock(504, 25, 1790)),
        MaterialType::Shale => Some(rock(137, 8, 2675)),
        MaterialType::Sandstone => Some(rock(153, 24, 2323)),
        _ => None,
    }
}

pub open spec fn law(constant: i32, linear: i32, quadratic: i32, cubic: i32) -> SedimentLaw {
    SedimentLaw { constant, linear, quadratic, cubic }
}

/// The sediment table, coefficients in m/s per km^k.
pub open spec fn sediment_table(t: MaterialType) -> Option<SedimentLaw> {
    match t {
        MaterialType::TurbiditeArea => Some(law(1511, 1304, 0, -257i32)),
        MaterialType::SiliceousSediment => Some(law(1509, 869, -267i32, 0)),
        MaterialType::CalcerousSediment => Some(law(1559, 1713, -374i32, 0)),
        MaterialType::Sand => Some(law(1626, 0, 0, 0)),
        _ => None,
    }
}

/// Looks up the rock constants of `t`; `None` for a sediment.
pub fn rock_constants(t: MaterialType) -> (r: Option<RockConstants>)
    ensures
        r == rock_table(t),
        r is Some <==> t.spec_is_rock(),
{
    match t {
        MaterialType::Basalt => Some(RockConstants { youngs_modulus: 626, poisson_percent: 25, density: 3011 }),
        MaterialType::Granite => Some(RockConstants { youngs_modulus: 593, poisson_percent: 23, density: 2691 }),
        MaterialType::Quartzite => Some(RockConstants { youngs_modulus: 709, poisson_percent: 15, density: 2655 }),
        MaterialType::Gneiss => Some(RockConstants { youngs_modulus: 586, poisson_percent: 21, density: 2750 }),
        MaterialType::Schist => Some(RockConstants { youngs_modulus: 424, poisson_percent: 12, density: 2350 }),
        MaterialType::Marble => Some(RockConstants { youngs_modulus: 463, poisson_percent: 23, density: 2711 }),
        MaterialType::Limestone => Some(RockConstants { youngs_modulus: 504, poisson_percent: 25, density: 1790 }),
        MaterialType::Shale => Some(RockConstants { youngs_modulus: 137, poisson_percent: 8, density: 2675 }),
        MaterialType::Sandstone => Some(RockConstants { youngs_modulus: 153, poisson_percent: 24, density: 2323 }),
        _ => None,
    }
}

/// Looks up the velocity law of a sediment; `None` for a rock.
pub fn sediment_law(t: MaterialType) -> (r: Option<SedimentLaw>)
    ensures
        r == sediment_table(t),
        r is Some <==> !t.spec_is_rock(),
{
    match t {
        MaterialType::TurbiditeArea => Some(SedimentLaw { constant: 1511, linear: 1304, quadratic: 0, cubic: -257 }),
        MaterialType::SiliceousSediment => Some(SedimentLaw { constant: 1509, linear: 869, quadratic: -267, cubic: 0 }),
        MaterialType::CalcerousSediment => Some(SedimentLaw { constant: 1559, linear: 1713, quadratic: -374, cubic: 0 }),
        MaterialType::Sand => Some(SedimentLaw { constant: 1626, linear: 0, quadratic: 0, cubic: 0 }),
        _ => None,
    }
}

/// A non-negative rational number `numerator / denominator`.
#[derive(Clone, Copy, Debug, PartialEq, Eq, Structural)]
pub struct Ratio {
    pub numerator: u64,
    pub denominator: u64,
}

impl Ratio {
    /// The ratio stands for the quotient `n / d` (with `d > 0`).
    pub open spec fn represents(self, n: int, d: int) -> bool {
        &&& self.denominator > 0
        &&& self.numerator * d == n * self.denominator
    }
}

impl RockConstants {
    /// The bounds within which the moduli below are computed without overflow.
    pub open spec fn wf(self) -> bool {
        &&& 0 < self.youngs_modulus <= 1000
        &&& self.poisson_percent < 50
        &&& 0 < self.density <= 10000
    }

    /// Young's modulus in Pa.
    pub open spec fn youngs_modulus_pa(self) -> int {
        self.youngs_modulus * 100_000_000
    }

    pub open spec fn spec_shear_modulus(self) -> Ratio {
        Ratio {
            numerator: (self.youngs_modulus * 5_000_000_000) as u64,
            denominator: (100 + self.poisson_percent) as u64,
        }
    }

    pub open spec fn spec_bulk_modulus(self) -> Ratio {
        Ratio {
            numerator: (self.youngs_modulus * 10_000_000_000) as u64,
            denominator: (3 * (100 - 2 * self.poisson_percent)) as u64,
        }
    }

    pub open spec fn spec_p_wave_modulus(self) -> Ratio {
        Ratio {
            numerator: (self.youngs_modulus * 10_000_000_000 * (100 - self.poisson_percent)) as u64,
            denominator: ((100 + self.poisson_percent) * (100 - 2 * self.poisson_percent)) as u64,
        }
    }

    pub open spec fn spec_squared_velocity(self) -> Ratio {
        let m = self.spec_p_wave_modulus();
        Ratio { numerator: m.numerator, denominator: (m.denominator * self.density) as u64 }
    }

    /// Shear modulus `μ = E / (2 (1 + ν))`, in Pa.
    pub fn shear_modulus(&self) -> (r: Ratio)
        requires
            self.wf(),
        ensures
            r == self.spec_shear_modulus(),
            r.represents(self.youngs_modulus_pa() * 100, 2 * (100 + self.poisson_percent)),
    {
        let e = self.youngs_modulus as u64;
        let p = self.poisson_percent as u64;
        let r = Ratio { numerator: e * 5_000_000_000, denominator: 100 + p };
        assert(r.numerator * (2 * (100 + p)) == e * 100_000_000 * 100 * r.denominator)
            by (nonlinear_arith)
            requires
                r.numerator == e * 5_000_000_000,
                r.denominator == 100 + p,
        ;
        r
    }

    /// Bulk modulus `K = E / (3 (1 - 2ν))`, in Pa.
    pub fn bulk_modulus(&self) -> (r: Ratio)
        requires
            self.wf(),
        ensures
            r == self.spec_bulk_modulus(),
            r.represents(self.youngs_modulus_pa() * 100, 3 * (100 - 2 * self.poisson_percent)),
    {
        let e = self.youngs_modulus as u64;
        let p = self.poisson_percent as u64;
        let r = Ratio { numerator: e * 10_000_000_000, denominator: 3 * (100 - 2 * p) };
        assert(r.numerator * (3 * (100 - 2 * p)) == e * 100_000_000 * 100 * r.denominator)
            by (nonlinear_arith)
            requires
                r.numerator == e * 10_000_000_000,
                r.denominator == 3 * (100 - 2 * p),
        ;
        r
    }

    /// P-wave modulus `M = E (1 - ν) / ((1 + ν)(1 - 2ν))`, in Pa.
    pub fn p_wave_modulus(&self) -> (r: Ratio)
        requires
            self.wf(),
        ensures
            r == self.spec_p_wave_modulus(),
            r.represents(
                self.youngs_modulus_pa() * 100 * (100 - self.poisson_percent),
                (100 + self.poisson_percent) * (100 - 2 * self.poisson_percent),
            ),
            0 < r.denominator <= 150 * 100,
    {
        let e = self.youngs_modulus as u64;
        let p = self.poisson_percent as u64;
        assert(e * 10_000_000_000 * (100 - p) <= 1000 * 10_000_000_000 * 100) by (nonlinear_arith)
            requires
                e <= 1000,
                p < 50,
        ;
        assert((100 + p) * (100 - 2 * p) <= 150 * 100) by (nonlinear_arith)
            requires
                p < 50,
        ;
        assert((100 + p) * (100 - 2 * p) > 0) by (nonlinear_arith)
            requires
                p < 50,
        ;
        let r = Ratio { numerator: e * 10_000_000_000 * (100 - p), denominator: (100 + p) * (100 - 2 * p) };
        r
    }

    /// Squared P-wave velocity `M / ρ`, in m^2/s^2.
    pub fn squared_velocity(&self) -> (r: Ratio)
        requires
            self.wf(),
        ensures
            r == self.spec_squared_velocity(),
            r.represents(
                self.youngs_modulus_pa() * 100 * (100 - self.poisson_percent),
                (100 + self.poisson_percent) * (100 - 2 * self.poisson_percent) * self.density,
            ),
    {
        let m = self.p_wave_modulus();
        let rho = self.density as u64;
        assert(m.denominator * rho <= 150 * 100 * 10000) by (nonlinear_arith)
            requires
                m.denominator <= 150 * 100,
                rho <= 10000,
        ;
        assert(m.denominator * rho > 0) by (nonlinear_arith)
            requires
                m.denominator > 0,
                rho > 0,
        ;
        let r = Ratio { numerator: m.numerator, denominator: m.denominator * rho };
        let ghost n = self.youngs_modulus_pa() * 100 * (100 - self.poisson_percent);
        let ghost d = (100 + self.poisson_percent) * (100 - 2 * self.poisson_percent);
        assert(m.numerator * (d * rho) == n * (m.denominator * rho)) by (nonlinear_arith)
            requires
                m.numerator * d == n * m.denominator,
        ;
        r
    }
}

/// The P-wave modulus of a rock is its bulk modulus plus four thirds of its
/// shear modulus: `M = K + 4μ/3`.
pub proof fn law_p_wave_modulus(c: RockConstants)
    requires
        c.wf(),
    ensures
        ({
            let m = c.spec_p_wave_modulus();
            let k = c.spec_bulk_modulus();
            let mu = c.spec_shear_modulus();
            m.numerator * (3 * k.denominator * mu.denominator) == m.denominator * (3
                * k.numerator * mu.denominator + 4 * mu.numerator * k.denominator)
        }),
{
    let e = c.youngs_modulus as int;
    let p = c.poisson_percent as int;
    assert(e * 10_000_000_000 * (100 - p) <= 1000 * 10_000_000_000 * 100) by (nonlinear_arith)
        requires
            0 < e <= 1000,
            0 <= p < 50,
    ;
    assert(0 < (100 + p) * (100 - 2 * p) <= 150 * 100) by (nonlinear_arith)
        requires
            0 <= p < 50,
    ;
    assert(e * 10_000_000_000 * (100 - p) * (3 * (3 * (100 - 2 * p)) * (100 + p)) == (100 + p)
        * (100 - 2 * p) * (3 * (e * 10_000_000_000) * (100 + p) + 4 * (e * 5_000_000_000) * (3
        * (100 - 2 * p)))) by (nonlinear_arith);
}

/// How the sound speed of a material is obtained.
#[derive(Clone, Copy, Debug, PartialEq, Eq, Structural)]
pub enum MaterialKind {
    /// Igneous or metamorphic rock: fixed moduli and density.
    Rock(RockConstants),
    /// Unconsolidated sediment: velocity by depth law, density by depth.
    Sediment(SedimentLaw),
}

/// The density model of a material.
#[derive(Clone, Copy, Debug, PartialEq, Eq, Structural)]
pub enum Density {
    /// A fixed density in kg/m^3.
    Constant(u32),
    /// A density that depends on depth and on the height of the boundary.
    Variable,
}

/// How the sound speed in a material is obtained.
#[derive(Clone, Copy, Debug, PartialEq, Eq, Structural)]
pub enum VelocityLaw {
    /// A constant velocity, the square root of this ratio (m^2/s^2).
    Constant(Ratio),
    /// A depth-dependent velocity.
    Depth(SedimentLaw),
}

pub open spec fn spec_kind(t: MaterialType) -> MaterialKind {
    match rock_table(t) {
        Some(c) => MaterialKind::Rock(c),
        None => MaterialKind::Sediment(sediment_table(t).unwrap()),
    }
}

/// A material with its acoustic constants.
#[derive(Clone, Copy, Debug, PartialEq, Eq, Structural)]
pub struct Material {
    pub material_name: MaterialType,
    pub kind: MaterialKind,
}

impl Material {
    /// The kind agrees with the material's entry in the tables.
    pub open spec fn wf(self) -> bool {
        self.kind == spec_kind(self.material_name)
    }

    /// Builds the material of the given type from the tables.
    pub fn define(material: MaterialType) -> (r: Material)
        ensures
            r.material_name == material,
            r.kind == spec_kind(material),
            r.wf(),
    {
        let kind = match rock_constants(material) {
            Some(c) => MaterialKind::Rock(c),
            None => {
                let law = sediment_law(material);
                MaterialKind::Sediment(law.unwrap())
            },
        };
        Material { material_name: material, kind }
    }

    pub open spec fn spec_rock(self) -> Option<RockConstants> {
        match self.kind {
            MaterialKind::Rock(c) => Some(c),
            MaterialKind::Sediment(_) => None,
        }
    }

    /// Shear modulus in Pa; rocks only.
    pub fn shear_modulus(&self) -> (r: Option<Ratio>)
        requires
            self.wf(),
        ensures
            r is Some <==> self.material_name.spec_is_rock(),
            r is Some ==> r == Some(self.spec_rock().unwrap().spec_shear_modulus()),
    {
        match &self.kind {
            MaterialKind::Rock(c) => Some(c.shear_modulus()),
            MaterialKind::Sediment(_) => None,
        }
    }

    /// Bulk modulus in Pa; rocks only.
    pub fn bulk_modulus(&self) -> (r: Option<Ratio>)
        requires
            self.wf(),
        ensures
            r is Some <==> self.material_name.spec_is_rock(),
            r is Some ==> r == Some(self.spec_rock().unwrap().spec_bulk_modulus()),
    {
        match &self.kind {
            MaterialKind::Rock(c) => Some(c.bulk_modulus()),
            MaterialKind::Sediment(_) => None,
        }
    }

    /// The density model: constant for rock, variable for sediment.
    pub fn density(&self) -> (r: Density)
        requires
            self.wf(),
        ensures
            r == match self.kind {
                MaterialKind::Rock(c) => Density::Constant(c.density),
                MaterialKind::Sediment(_) => Density::Variable,
            },
            r is Variable <==> !self.material_name.spec_is_rock(),
    {
        match &self.kind {
            MaterialKind::Rock(c) => Density::Constant(c.density),
            MaterialKind::Sediment(_) => Density::Variable,
        }
    }

    /// The velocity law: the squared P-wave velocity `(K + 4μ/3) / ρ` for rock,
    /// the depth law for sediment.
    pub fn velocity_law(&self) -> (r: VelocityLaw)
        requires
            self.wf(),
        ensures
            r == match self.kind {
                MaterialKind::Rock(c) => VelocityLaw::Constant(c.spec_squared_velocity()),
                MaterialKind::Sediment(l) => VelocityLaw::Depth(l),
            },
    {
        match &self.kind {
            MaterialKind::Rock(c) => VelocityLaw::Constant(c.squared_velocity()),
            MaterialKind::Sediment(l) => VelocityLaw::Depth(*l),
        }
    }
}

} // verus!
