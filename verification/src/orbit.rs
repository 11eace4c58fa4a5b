//! Orbit shapes, the perihelion reference of a body, and the conditions
//! under which a computation is refused.

use crate::quantity::{
    div_floor, floor_root, lemma_quotient_bounds, lemma_times_shortens, rem_floor, size,
    sqrt_floor, times, Nano, SCALE,
};
use vstd::prelude::*;

verus! {

/// Why a computation was refused.
#[derive(Clone, Copy, Debug, PartialEq, Eq, Structural)]
pub enum KeplerError {
    /// An orbital element is outside the domain of the requested formula:
    /// an eccentricity that does not belong to the shape, a period that is
    /// not positive.
    DomainPrecondition,
    /// The Newton–Raphson corrections did not fall within the tolerance
    /// before the cap on their number was reached.
    NumericalNonConvergence,
    /// The shape is none of the four conics.
    UnsupportedShape,
    /// A result has no representation as a quantity.
    OutOfRange,
}

/// The conic that an orbit follows.
#[derive(Clone, Copy, Debug, PartialEq, Eq, Structural)]
pub enum Type {
    /// Eccentricity 0.
    Circular,
    /// Eccentricity strictly between 0 and 1.
    Elliptical,
    /// Eccentricity 1.
    Parabolic,
    /// Eccentricity above 1.
    Hyperbolic,
    /// No conic: the eccentricity is negative.
    Unknown,
}

impl Type {
    /// The shape that an eccentricity stands for.
    pub open spec fn of(eccentricity: Nano) -> Type {
        if eccentricity.units < 0 {
            Type::Unknown
        } else if eccentricity.units == 0 {
            Type::Circular
        } else if eccentricity.units < SCALE {
            Type::Elliptical
        } else if eccentricity.units == SCALE {
            Type::Parabolic
        } else {
            Type::Hyperbolic
        }
    }

    /// Whether `eccentricity` lies in the domain of this shape's formulas.
    pub open spec fn admits(self, eccentricity: Nano) -> bool {
        self != Type::Unknown && self == Type::of(eccentricity)
    }

    /// Classifies an orbit by its eccentricity.
    pub fn shape(&self, eccentricity: Nano) -> (r: Type)
        ensures
            r == Type::of(eccentricity),
    {
        if eccentricity.units < 0 {
            Type::Unknown
        } else if eccentricity.units == 0 {
            Type::Circular
        } else if eccentricity.units < SCALE {
            Type::Elliptical
        } else if eccentricity.units == SCALE {
            Type::Parabolic
        } else {
            Type::Hyperbolic
        }
    }

    /// Checks an eccentricity against the shape it is used with.
    pub fn check(&self, eccentricity: Nano) -> (r: Result<(), KeplerError>)
        ensures
            *self == Type::Unknown ==> r == Err::<(), KeplerError>(KeplerError::UnsupportedShape),
            *self != Type::Unknown && !self.admits(eccentricity) ==> r == Err::<(), KeplerError>(
                KeplerError::DomainPrecondition,
            ),
            self.admits(eccentricity) ==> r.is_ok(),
    {
        if *self == Type::Unknown {
            Err(KeplerError::UnsupportedShape)
        } else if *self == self.shape(eccentricity) {
            Ok(())
        } else {
            Err(KeplerError::DomainPrecondition)
        }
    }
}

/// When and where on its orbit a body passes closest to its host.
#[derive(Clone, Copy, Debug, PartialEq, Eq)]
pub struct Perihelion {
    /// The days of the orbit between which the month of the passage lies.
    pub month: (Nano, Nano),
    /// The solar longitudes, in degrees, between which that month lies.
    pub ls: (Nano, Nano),
    /// The day of the orbit on which the body passes perihelion.
    pub perihelion: Nano,
}

impl Perihelion {
    /// Whether the reference is one of an orbit of the given period: its
    /// windows are in order, the window of longitudes is open, and the
    /// perihelion is passed on a day of the orbit.
    pub open spec fn wf(self, orbital_period: Nano) -> bool {
        &&& self.month.0.units <= self.month.1.units
        &&& self.ls.0.units < self.ls.1.units
        &&& 0 <= self.perihelion.units < orbital_period.units
    }

    /// The solar longitude that one month spans, in billionths of a
    /// degree: the width of the perihelion's month.
    pub open spec fn span(self) -> int {
        self.ls.1.units - self.ls.0.units
    }

    /// The solar longitude that one month spans, in degrees. A window
    /// that does not open before it closes spans none.
    pub fn avg_ls(&self) -> (r: Result<Nano, KeplerError>)
        ensures
            self.span() <= 0 ==> r == Err::<Nano, KeplerError>(KeplerError::DomainPrecondition),
            self.span() > i64::MAX ==> r == Err::<Nano, KeplerError>(KeplerError::OutOfRange),
            0 < self.span() <= i64::MAX ==> r == Ok::<Nano, KeplerError>(
                Nano { units: self.span() as i64 },
            ),
    {
        let span: i128 = self.ls.1.units as i128 - self.ls.0.units as i128;
        if span <= 0 {
            Err(KeplerError::DomainPrecondition)
        } else if span > i64::MAX as i128 {
            Err(KeplerError::OutOfRange)
        } else {
            Ok(Nano { units: span as i64 })
        }
    }
}

/// A full turn in radians, in billionths: 2π.
pub const TWO_PI: i64 = 6_283_185_307;

/// A quarter of a turn in radians, in billionths, rounded up: π/2. No arc
/// tangent is larger in size.
pub const HALF_PI: i64 = 1_570_796_327;

/// A full turn in degrees, in billionths: 360.
pub const FULL_CIRCLE: i64 = 360_000_000_000;

/// The axes of an orbit, from its semi-major axis.
#[derive(Clone, Copy, Debug, PartialEq, Eq, Structural)]
pub struct SemiAxis(pub Nano);

impl SemiAxis {
    /// The semi-minor axis of an orbit of eccentricity `e`, in billionths:
    /// `a·√(1 − e²)`, the root rounded down to the billionth and then the
    /// product.
    pub open spec fn minor_of(self, eccentricity: Nano) -> int {
        times(
            self.0.units as int,
            floor_root(SCALE * SCALE - eccentricity.units * eccentricity.units),
        )
    }

    /// The semi-minor axis of a closed orbit. An eccentricity that is
    /// negative, or 1 or more, has none.
    pub open spec fn minor_at(self, eccentricity: Nano) -> Result<Nano, KeplerError> {
        if 0 <= eccentricity.units < SCALE {
            Ok(Nano { units: self.minor_of(eccentricity) as i64 })
        } else {
            Err(KeplerError::DomainPrecondition)
        }
    }

    /// The semi-major axis.
    pub fn major(&self) -> (r: Nano)
        ensures
            r == self.0,
    {
        self.0
    }

    /// The semi-minor axis of a closed orbit, no longer than the
    /// semi-major axis.
    pub fn minor(&self, eccentricity: Nano) -> (r: Result<Nano, KeplerError>)
        ensures
            r == self.minor_at(eccentricity),
            r is Ok ==> r->Ok_0.units == self.minor_of(eccentricity) && size(r->Ok_0.units as int)
                <= size(self.0.units as int),
    {
        if eccentricity.units < 0 || eccentricity.units >= SCALE {
            return Err(KeplerError::DomainPrecondition);
        }
        let e: u64 = eccentricity.units as u64;
        assert(e * e < 1_000_000_000 * 1_000_000_000) by (nonlinear_arith)
            requires
                0 <= e < 1_000_000_000,
        ;
        let under: u64 = 1_000_000_000_000_000_000 - e * e;
        let root: u64 = sqrt_floor(under as u128);
        assert(root <= 1_000_000_000) by (nonlinear_arith)
            requires
                0 <= root,
                root * root <= under,
                under <= 1_000_000_000 * 1_000_000_000,
        ;
        let axis: i128 = self.0.units as i128;
        assert(-0x8000_0000_0000_0000 * 1_000_000_000 <= axis * root
            <= 0x8000_0000_0000_0000 * 1_000_000_000) by (nonlinear_arith)
            requires
                -0x8000_0000_0000_0000 <= axis <= 0x8000_0000_0000_0000,
                0 <= root <= 1_000_000_000,
        ;
        let minor: i128 = div_floor(axis * root as i128, SCALE as i128);
        proof {
            lemma_times_shortens(axis as int, root as int);
        }
        Ok(Nano { units: minor as i64 })
    }
}

/// The mean motion of a body: how its mean anomaly grows with time.
#[derive(Clone, Copy, Debug, PartialEq, Eq, Structural)]
pub struct MeanMotion;

impl MeanMotion {
    /// The mean motion `n = 2π/P` of an orbit of period `P`, in radians a
    /// day, rounded down. A period that is not positive has none.
    pub open spec fn rate_of(orbital_period: Nano) -> Result<Nano, KeplerError> {
        if orbital_period.units > 0 {
            Ok(Nano { units: (TWO_PI * SCALE / (orbital_period.units as int)) as i64 })
        } else {
            Err(KeplerError::DomainPrecondition)
        }
    }

    /// The mean motion of an orbit: the angle by which the mean anomaly
    /// grows in a day.
    pub fn rate(&self, orbital_period: Nano) -> (r: Result<Nano, KeplerError>)
        ensures
            r == MeanMotion::rate_of(orbital_period),
            r is Ok ==> 0 <= r->Ok_0.units == TWO_PI * SCALE / (orbital_period.units as int),
    {
        if orbital_period.units <= 0 {
            Err(KeplerError::DomainPrecondition)
        } else {
            let turn: i128 = TWO_PI as i128 * SCALE as i128;
            proof {
                lemma_quotient_bounds(turn as int, orbital_period.units as int);
            }
            Ok(Nano { units: (turn / orbital_period.units as i128) as i64 })
        }
    }

    /// The mean anomaly on a day of the orbit, in billionths of a radian:
    /// the mean motion `2π/P` times the days since the last passage of the
    /// perihelion, rounded down.
    pub open spec fn anomaly_of(day: Nano, peri: Perihelion, orbital_period: Nano) -> int {
        ((day.units - peri.perihelion.units) % (orbital_period.units as int)) * TWO_PI / (
        orbital_period.units as int)
    }

    /// The mean anomaly on a day of the orbit. A period that is not
    /// positive has none.
    pub open spec fn anomaly_at(day: Nano, peri: Perihelion, orbital_period: Nano) -> Result<
        Nano,
        KeplerError,
    > {
        if orbital_period.units > 0 {
            Ok(Nano { units: MeanMotion::anomaly_of(day, peri, orbital_period) as i64 })
        } else {
            Err(KeplerError::DomainPrecondition)
        }
    }

    /// The mean anomaly of a body on the day `day` of its orbit, in
    /// radians, at least zero and less than a full turn. It is the seed
    /// that the anomalies are solved from.
    pub fn at(&self, day: Nano, peri: Perihelion, orbital_period: Nano) -> (r: Result<
        Nano,
        KeplerError,
    >)
        ensures
            r == MeanMotion::anomaly_at(day, peri, orbital_period),
            r is Ok ==> r->Ok_0.units == MeanMotion::anomaly_of(day, peri, orbital_period) && 0
                <= r->Ok_0.units < TWO_PI,
    {
        if orbital_period.units <= 0 {
            Err(KeplerError::DomainPrecondition)
        } else {
            let period: i128 = orbital_period.units as i128;
            let since: i128 = rem_floor(day.units as i128 - peri.perihelion.units as i128, period);
            assert(0 <= since * TWO_PI < period * TWO_PI) by (nonlinear_arith)
                requires
                    0 <= since < period,
                    TWO_PI == 6_283_185_307,
            ;
            assert(period * TWO_PI <= 0x8000_0000_0000_0000 * 6_283_185_307) by (nonlinear_arith)
                requires
                    0 < period <= 0x8000_0000_0000_0000,
                    TWO_PI == 6_283_185_307,
            ;
            let anomaly: i128 = since * TWO_PI as i128 / period;
            proof {
                vstd::arithmetic::div_mod::lemma_div_is_ordered(
                    since * TWO_PI,
                    period * TWO_PI - 1,
                    period as int,
                );
                vstd::arithmetic::div_mod::lemma_fundamental_div_mod_converse(
                    period * TWO_PI - 1,
                    period as int,
                    TWO_PI - 1,
                    period - 1,
                );
                lemma_quotient_bounds(since * TWO_PI, period as int);
            }
            Ok(Nano { units: anomaly as i64 })
        }
    }
}

/// The solar longitude of a body: where it stands on its orbit, counted
/// in degrees from the start of its year.
#[derive(Clone, Copy, Debug, PartialEq, Eq, Structural)]
pub struct SolarLongitude;

impl SolarLongitude {
    /// An angle of radians in degrees, in billionths, rounded down.
    pub open spec fn degrees_of(angle: Nano) -> int {
        angle.units * FULL_CIRCLE / (TWO_PI as int)
    }

    /// The solar longitude at the true anomaly `true_anomaly`: the anomaly
    /// in degrees, counted on from the longitude at which the perihelion's
    /// window opens, within one turn.
    pub open spec fn longitude_of(true_anomaly: Nano, peri: Perihelion) -> int {
        (SolarLongitude::degrees_of(true_anomaly) + peri.ls.0.units) % (FULL_CIRCLE as int)
    }

    /// The solar longitude, in degrees from 0 up to 360, of a body whose
    /// true anomaly is `true_anomaly` radians.
    pub fn compute(&self, true_anomaly: Nano, peri: Perihelion) -> (r: Nano)
        ensures
            r.units == SolarLongitude::longitude_of(true_anomaly, peri),
            0 <= r.units < FULL_CIRCLE,
    {
        let angle: i128 = true_anomaly.units as i128;
        assert(-0x8000_0000_0000_0000 * 360_000_000_000 <= angle * FULL_CIRCLE
            <= 0x8000_0000_0000_0000 * 360_000_000_000) by (nonlinear_arith)
            requires
                -0x8000_0000_0000_0000 <= angle <= 0x8000_0000_0000_0000,
                FULL_CIRCLE == 360_000_000_000,
        ;
        let degrees: i128 = div_floor(angle * FULL_CIRCLE as i128, TWO_PI as i128);
        proof {
            lemma_quotient_bounds(angle * FULL_CIRCLE, TWO_PI as int);
        }
        let longitude: i128 = rem_floor(degrees + peri.ls.0.units as i128, FULL_CIRCLE as i128);
        Nano { units: longitude as i64 }
    }
}

/// The seasons of a body's northern hemisphere, a quarter of the orbit
/// each.
#[derive(Clone, Copy, Debug, PartialEq, Eq, Structural)]
pub enum Season {
    /// Solar longitudes 0 to 89.
    Spring,
    /// Solar longitudes 90 to 179.
    Summer,
    /// Solar longitudes 180 to 269.
    Autumn,
    /// Solar longitudes 270 to 359.
    Winter,
    /// No longitude of the orbit.
    Unknown,
}

impl Season {
    /// The season at a solar longitude of `ls` whole degrees.
    pub open spec fn of(ls: u32) -> Season {
        if ls < 90 {
            Season::Spring
        } else if ls < 180 {
            Season::Summer
        } else if ls < 270 {
            Season::Autumn
        } else if ls < 360 {
            Season::Winter
        } else {
            Season::Unknown
        }
    }

    /// The season's name.
    pub open spec fn label(self) -> Seq<char> {
        match self {
            Season::Spring => "Spring"@,
            Season::Summer => "Summer"@,
            Season::Autumn => "Autumn"@,
            Season::Winter => "Winter"@,
            Season::Unknown => "Unknown"@,
        }
    }

    pub fn as_str(&self) -> (s: &'static str)
        ensures
            s@ == self.label(),
    {
        match self {
            Season::Spring => "Spring",
            Season::Summer => "Summer",
            Season::Autumn => "Autumn",
            Season::Winter => "Winter",
            Season::Unknown => "Unknown",
        }
    }

    /// The name of the season at a solar longitude of `ls` whole degrees.
    pub fn from(&self, ls: u32) -> (s: String)
        ensures
            s@ == Season::of(ls).label(),
    {
        let season = if ls < 90 {
            Season::Spring
        } else if ls < 180 {
            Season::Summer
        } else if ls < 270 {
            Season::Autumn
        } else if ls < 360 {
            Season::Winter
        } else {
            Season::Unknown
        };
        season.as_str().to_owned()
    }
}

impl Default for Season {
    fn default() -> (r: Season)
        ensures
            r == Season::Unknown,
    {
        Season::Unknown
    }
}

impl Default for Type {
    fn default() -> (r: Type)
        ensures
            r == Type::Unknown,
    {
        Type::Unknown
    }
}

} // verus!
