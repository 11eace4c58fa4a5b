//! The anomalies of a body on its orbit: the Newton–Raphson solution of
//! Kepler's equation for the eccentric anomaly, and the true anomaly that
//! follows from it.
//!
//! The library holds the state of a solve, forms every residual, slope and
//! correction, and decides when the solve has settled or failed. The one
//! thing it asks of its caller is the value of a transcendental function at
//! a point that it names:
//!
//! * a solve in [`Solve::Seeding`] asks for the sine and cosine of its mean
//!   anomaly;
//! * a solve in [`Solve::Refining`] asks for the sine and cosine of its
//!   estimate on an ellipse, for the hyperbolic sine and cosine on a
//!   hyperbola;
//! * a true anomaly under way asks for the function that its state names,
//!   see [`TrueAnomaly`].
//!
//! What is asked for, and where, [`Solve::asks`] and [`TrueAnomaly::asks`]
//! tell.
//!
//! On a circle and on a parabola nothing is asked: there the equations are
//! polynomial and the library solves them by itself.
//!
//! What holds of every solve, whatever the answers, is proved in [`laws`]:
//! that it ends within its budget of answers, that the opposite seed
//! gives the opposite eccentric and true anomaly, that periapsis maps to
//! periapsis, and how closely a settled anomaly solves Kepler's equation.
//!
//! All angles are in radians.

pub mod laws;

use crate::orbit::{KeplerError, Type, HALF_PI};
use crate::quantity::{
    div_floor, floor_root, halved, lemma_div_nested, lemma_quotient_bounds, representable,
    scaled, sqrt_floor, times, Nano, SCALE,
};
use vstd::arithmetic::div_mod::lemma_hoist_over_denominator;
use vstd::prelude::*;

verus! {

/// A correction of at most this many billionths ends a solve: `1e-7`.
pub const TOLERANCE: i64 = 100;

/// The most corrections that one solve may take.
pub const MAX_CORRECTIONS: u32 = 100;

/// The ways of describing where a body is on its orbit.
#[derive(Clone, Copy, Debug, PartialEq, Eq, Structural)]
pub struct Anomaly;

/// The values at one point of the two functions that a solve works with:
/// the sine and the cosine on an ellipse, the hyperbolic sine and the
/// hyperbolic cosine on a hyperbola.
#[derive(Clone, Copy, Debug, PartialEq, Eq, Structural)]
pub struct Functions {
    pub sine: Nano,
    pub cosine: Nano,
}

/// A solve of Kepler's equation under way.
#[derive(Clone, Copy, Debug, PartialEq, Eq, Structural)]
pub struct Newton {
    /// The conic whose equation is solved.
    pub shape: Type,
    /// The mean anomaly solved for, never negative.
    pub mean: Nano,
    pub eccentricity: Nano,
    pub major_axis: Nano,
    /// The current estimate of the anomaly.
    pub estimate: Nano,
    /// How many corrections the estimate has received.
    pub taken: u32,
    /// Whether the seed was negative, so that the settled anomaly is
    /// the opposite of the estimate.
    pub mirrored: bool,
}

/// What a solve waits for, or what it has found.
#[derive(Clone, Copy, Debug, PartialEq, Eq, Structural)]
pub enum Solve {
    /// The estimate is the mean anomaly and waits for its lead `e·sin(M)`:
    /// the solve asks for the functions at the mean anomaly.
    Seeding(Newton),
    /// The estimate waits for a correction: the solve asks for the
    /// functions at the estimate.
    Refining(Newton),
    /// The eccentric anomaly.
    Settled(Nano),
}

/// The true anomaly, or what is still asked for on the way to it.
#[derive(Clone, Copy, Debug, PartialEq, Eq, Structural)]
pub enum TrueAnomaly {
    /// The true anomaly.
    Exact(Nano),
    /// On an ellipse, where the true anomaly is `2·atan(ratio·tan(E/2))`:
    /// the tangent of `half` is asked for.
    HalfTangent { ratio: Nano, half: Nano },
    /// On an ellipse still: the arc tangent of `of` is asked for.
    ArcTangent { of: Nano },
    /// On a hyperbola, where the true anomaly is `ratio·tanh(H/2)`: the
    /// hyperbolic tangent of `half` is asked for.
    HyperbolicHalfTangent { ratio: Nano, half: Nano },
}

/// What a solve or a true anomaly asks of its caller: a function, or a
/// pair of functions, and the point at which their values are wanted.
#[derive(Clone, Copy, Debug, PartialEq, Eq, Structural)]
pub enum Asked {
    /// The sine and the cosine of the point, for [`Anomaly::refine`].
    SineCosine(Nano),
    /// The hyperbolic sine and the hyperbolic cosine of the point, for
    /// [`Anomaly::refine`].
    HyperbolicSineCosine(Nano),
    /// The tangent of the point, for [`Anomaly::resolve`].
    Tangent(Nano),
    /// The arc tangent of the point, for [`Anomaly::resolve`].
    ArcTangent(Nano),
    /// The hyperbolic tangent of the point, for [`Anomaly::resolve`].
    HyperbolicTangent(Nano),
    /// Nothing: the anomaly has been found.
    Nothing,
}

/// The factor between the tangents of the halves of the two anomalies,
/// in billionths, rounded down: `√((1 + e)/(1 − e))` on an ellipse and
/// `√((e + 1)/(e − 1))` on a hyperbola.
pub open spec fn half_angle_ratio(eccentricity: Nano) -> int {
    let e = eccentricity.units as int;
    let one = SCALE as int;
    if e < one {
        floor_root((one + e) * (one * one) / (one - e))
    } else {
        floor_root((e + one) * (one * one) / (e - one))
    }
}

/// The quantity nearest to `units` billionths.
pub open spec fn clamped(units: int) -> Nano {
    if units > i64::MAX {
        Nano { units: i64::MAX }
    } else if units < -(i64::MAX as int) {
        Nano { units: (-(i64::MAX as int)) as i64 }
    } else {
        Nano { units: units as i64 }
    }
}

/// The opposite of a quantity.
pub open spec fn opposite(value: Nano) -> Nano {
    Nano { units: (-value.units) as i64 }
}

impl Functions {
    /// Whether the values can be those of the functions of the shape: a
    /// sine and a cosine lie between −1 and 1, a hyperbolic cosine is 1 at
    /// least.
    pub open spec fn fit(self, shape: Type) -> bool {
        if shape == Type::Hyperbolic {
            self.cosine.units >= SCALE
        } else {
            -SCALE <= self.sine.units <= SCALE && -SCALE <= self.cosine.units <= SCALE
        }
    }

    /// Tells whether the values can be those of the functions of the shape.
    pub fn fits(&self, shape: Type) -> (r: bool)
        ensures
            r == self.fit(shape),
    {
        if shape == Type::Hyperbolic {
            self.cosine.units >= SCALE
        } else {
            -SCALE <= self.sine.units && self.sine.units <= SCALE && -SCALE <= self.cosine.units
                && self.cosine.units <= SCALE
        }
    }
}

impl Newton {
    /// A solve is well formed while it may still take a correction, on a
    /// conic that its eccentricity belongs to.
    pub open spec fn wf(self) -> bool {
        &&& self.taken < MAX_CORRECTIONS
        &&& self.mean.units >= 0
        &&& self.estimate.wf()
        &&& self.shape.admits(self.eccentricity)
        &&& self.shape != Type::Circular
    }

    /// The solve with its estimate moved by `by` billionths.
    pub open spec fn moved(self, by: int) -> Newton {
        Newton { estimate: Nano { units: (self.estimate.units + by) as i64 }, ..self }
    }

    /// The solve after one more correction.
    pub open spec fn corrected(self, by: int) -> Newton {
        Newton { taken: (self.taken + 1) as u32, ..self.moved(by) }
    }

    /// The anomaly that the estimate stands for, on the side of the seed.
    pub open spec fn directed(self) -> Nano {
        if self.mirrored {
            opposite(self.estimate)
        } else {
            self.estimate
        }
    }

    /// The lead of the first elliptical estimate over the mean anomaly:
    /// `e·sin(M)`.
    pub open spec fn lead(self, at: Functions) -> int {
        times(self.eccentricity.units as int, at.sine.units as int)
    }

    /// The residual `f(x)` of Kepler's equation at the estimate `x`:
    /// `f(E) = E − e·sin(E) − M` on an ellipse and
    /// `f(H) = e·sinh(H) − H − M` on a hyperbola.
    pub open spec fn residual(self, at: Functions) -> int {
        let e_sine = times(self.eccentricity.units as int, at.sine.units as int);
        if self.shape == Type::Hyperbolic {
            e_sine - self.estimate.units - self.mean.units
        } else {
            self.estimate.units - e_sine - self.mean.units
        }
    }

    /// The slope `f′(x)` at the estimate: `1 − e·cos(E)` on an ellipse and
    /// `e·cosh(H) − 1` on a hyperbola.
    pub open spec fn slope(self, at: Functions) -> int {
        let e_cosine = times(self.eccentricity.units as int, at.cosine.units as int);
        if self.shape == Type::Hyperbolic {
            e_cosine - SCALE
        } else {
            SCALE - e_cosine
        }
    }

    /// The Newton–Raphson correction `−f(x)/f′(x)`, rounded down.
    pub open spec fn correction(self, at: Functions) -> int {
        -self.residual(at) * SCALE / self.slope(at)
    }

    /// The perifocal distance `q = p/2` of the orbit, for its semi-latus
    /// rectum `p = a·(1 − e²)`.
    pub open spec fn perifocal_distance(self) -> int {
        let e = self.eccentricity.units as int;
        let one = SCALE as int;
        self.major_axis.units * (one * one - e * e) / (2 * one * one)
    }

    /// Six times the residual of Barker's equation `q·D + D³/6 = M` at the
    /// estimate `D`, negated, in units of a billionth cubed.
    pub open spec fn barker_excess(self) -> int {
        let d = self.estimate.units as int;
        let one = SCALE as int;
        6 * one * one * self.mean.units - 6 * one * self.perifocal_distance() * d - d * d * d
    }

    /// Six times the slope `q + D²/2` of Barker's equation at the
    /// estimate, in units of a billionth squared.
    pub open spec fn barker_slope(self) -> int {
        let d = self.estimate.units as int;
        6 * SCALE * self.perifocal_distance() + 3 * d * d
    }

    /// The eccentric anomaly of a parabola: the solve of Barker's equation
    /// carried on from this state by Newton–Raphson corrections, each the
    /// excess over the slope, rounded down.
    ///
    /// Where the slope vanishes the estimate cannot be corrected: it is
    /// the anomaly if the excess vanishes too, and the solve fails if not.
    pub open spec fn barker(self) -> Result<Nano, KeplerError>
        decreases MAX_CORRECTIONS - self.taken,
    {
        if self.taken >= MAX_CORRECTIONS {
            Err(KeplerError::NumericalNonConvergence)
        } else if self.barker_slope() <= 0 {
            if self.barker_excess() == 0 {
                Ok(self.directed())
            } else {
                Err(KeplerError::NumericalNonConvergence)
            }
        } else {
            let by = self.barker_excess() / self.barker_slope();
            if !representable(self.estimate.units + by) {
                Err(KeplerError::OutOfRange)
            } else if -TOLERANCE <= by <= TOLERANCE {
                Ok(self.moved(by).directed())
            } else if self.taken + 1 >= MAX_CORRECTIONS {
                Err(KeplerError::NumericalNonConvergence)
            } else {
                self.corrected(by).barker()
            }
        }
    }
}

impl Solve {
    /// A seeding solve is elliptical and has taken no correction, and a
    /// solve that waits may still take one, on an ellipse or a hyperbola.
    pub open spec fn wf(self) -> bool {
        match self {
            Solve::Seeding(n) => n.wf() && n.taken == 0 && n.shape == Type::Elliptical,
            Solve::Refining(n) => n.wf() && (n.shape == Type::Elliptical || n.shape
                == Type::Hyperbolic),
            Solve::Settled(v) => true,
        }
    }

    /// What the solve asks for: the functions of its shape at the mean
    /// anomaly while it is seeding, at the estimate while it is refining,
    /// and nothing once it has settled.
    pub open spec fn asked(self) -> Asked {
        match self {
            Solve::Seeding(n) => if n.shape == Type::Hyperbolic {
                Asked::HyperbolicSineCosine(n.mean)
            } else {
                Asked::SineCosine(n.mean)
            },
            Solve::Refining(n) => if n.shape == Type::Hyperbolic {
                Asked::HyperbolicSineCosine(n.estimate)
            } else {
                Asked::SineCosine(n.estimate)
            },
            Solve::Settled(v) => Asked::Nothing,
        }
    }

    /// Tells what the solve asks for.
    pub fn asks(&self) -> (r: Asked)
        ensures
            r == self.asked(),
    {
        match self {
            Solve::Seeding(n) => {
                if n.shape == Type::Hyperbolic {
                    Asked::HyperbolicSineCosine(n.mean)
                } else {
                    Asked::SineCosine(n.mean)
                }
            },
            Solve::Refining(n) => {
                if n.shape == Type::Hyperbolic {
                    Asked::HyperbolicSineCosine(n.estimate)
                } else {
                    Asked::SineCosine(n.estimate)
                }
            },
            Solve::Settled(v) => Asked::Nothing,
        }
    }

    /// The state in which a solve for `mean_motion` begins, or ends where
    /// nothing needs to be asked.
    ///
    /// On a circle the anomaly is the seed, and so it is at the periapsis
    /// of every conic, where the seed is zero and Kepler's equation holds of
    /// zero. Elsewhere the solve works on the size of the seed and gives the
    /// anomaly the seed's sign at the end: it starts from the mean anomaly,
    /// and on a parabola it is carried through at once.
    pub open spec fn begin(
        shape: Type,
        mean_motion: Nano,
        eccentricity: Nano,
        major_axis: Nano,
    ) -> Result<Solve, KeplerError> {
        if shape == Type::Unknown {
            Err(KeplerError::UnsupportedShape)
        } else if !shape.admits(eccentricity) {
            Err(KeplerError::DomainPrecondition)
        } else if shape == Type::Circular || mean_motion.units == 0 {
            Ok(Solve::Settled(mean_motion))
        } else if !mean_motion.wf() {
            Err(KeplerError::OutOfRange)
        } else {
            let mean = Nano { units: mean_motion.magnitude() as i64 };
            let start = Newton {
                shape,
                mean,
                eccentricity,
                major_axis,
                estimate: mean,
                taken: 0,
                mirrored: mean_motion.units < 0,
            };
            if shape == Type::Elliptical {
                Ok(Solve::Seeding(start))
            } else if shape == Type::Hyperbolic {
                Ok(Solve::Refining(start))
            } else {
                match start.barker() {
                    Ok(anomaly) => Ok(Solve::Settled(anomaly)),
                    Err(e) => Err(e),
                }
            }
        }
    }

    /// The state that follows when the caller answers with the functions
    /// `at` the point that the solve asked for.
    ///
    /// A seeding solve moves its estimate by the lead. A refining solve
    /// moves it by the correction, and then settles if the correction is
    /// within the tolerance, fails if it was the last one allowed, and asks
    /// again otherwise. A settled solve stays as it is. Values that the
    /// functions cannot have, and a slope that is not positive, are outside
    /// the domain; a residual or an estimate beyond the quantities is out of
    /// range.
    pub open spec fn step(self, at: Functions) -> Result<Solve, KeplerError> {
        match self {
            Solve::Settled(v) => Ok(Solve::Settled(v)),
            Solve::Seeding(n) => {
                if !at.fit(n.shape) {
                    Err(KeplerError::DomainPrecondition)
                } else if !representable(n.estimate.units + n.lead(at)) {
                    Err(KeplerError::OutOfRange)
                } else {
                    Ok(Solve::Refining(n.moved(n.lead(at))))
                }
            },
            Solve::Refining(n) => {
                if !at.fit(n.shape) || n.slope(at) <= 0 {
                    Err(KeplerError::DomainPrecondition)
                } else if !representable(n.residual(at)) || !representable(
                    n.estimate.units + n.correction(at),
                ) {
                    Err(KeplerError::OutOfRange)
                } else if -TOLERANCE <= n.correction(at) <= TOLERANCE {
                    Ok(Solve::Settled(n.moved(n.correction(at)).directed()))
                } else if n.taken + 1 >= MAX_CORRECTIONS {
                    Err(KeplerError::NumericalNonConvergence)
                } else {
                    Ok(Solve::Refining(n.corrected(n.correction(at))))
                }
            },
        }
    }

    /// The state after the answers `answers`, taken in order.
    pub open spec fn run(self, answers: Seq<Functions>) -> Result<Solve, KeplerError>
        decreases answers.len(),
    {
        if answers.len() == 0 {
            Ok(self)
        } else {
            match self.step(answers[0]) {
                Ok(next) => next.run(answers.skip(1)),
                Err(e) => Err(e),
            }
        }
    }
}

impl TrueAnomaly {
    /// What the true anomaly asks for: the function that its state names,
    /// at the point that its state holds, and nothing once it is exact.
    pub open spec fn asked(self) -> Asked {
        match self {
            TrueAnomaly::Exact(angle) => Asked::Nothing,
            TrueAnomaly::HalfTangent { ratio, half } => Asked::Tangent(half),
            TrueAnomaly::ArcTangent { of } => Asked::ArcTangent(of),
            TrueAnomaly::HyperbolicHalfTangent { ratio, half } => Asked::HyperbolicTangent(half),
        }
    }

    /// Tells what the true anomaly asks for.
    pub fn asks(&self) -> (r: Asked)
        ensures
            r == self.asked(),
    {
        match self {
            TrueAnomaly::Exact(angle) => Asked::Nothing,
            TrueAnomaly::HalfTangent { ratio, half } => Asked::Tangent(*half),
            TrueAnomaly::ArcTangent { of } => Asked::ArcTangent(*of),
            TrueAnomaly::HyperbolicHalfTangent { ratio, half } => Asked::HyperbolicTangent(*half),
        }
    }

    /// Whether every quantity of the state has an opposite.
    pub open spec fn wf(self) -> bool {
        match self {
            TrueAnomaly::Exact(angle) => angle.wf(),
            TrueAnomaly::HalfTangent { ratio, half } => half.wf(),
            TrueAnomaly::ArcTangent { of } => of.wf(),
            TrueAnomaly::HyperbolicHalfTangent { ratio, half } => half.wf(),
        }
    }

    /// The state in which the true anomaly begins for the eccentric
    /// anomaly `eccentric`, or ends where nothing needs to be asked.
    ///
    /// On a circle the true anomaly is the sum of the eccentric anomaly
    /// and the seed. At the periapsis of an ellipse or a hyperbola, where
    /// the eccentric anomaly is zero, it is zero. Elsewhere on them the
    /// function is asked for at half the eccentric anomaly, the half
    /// rounded toward zero, so that opposite anomalies ask at opposite
    /// points. On a parabola the true anomaly would be `D/√(2q)`, and the
    /// perifocal distance `q` of a parabola vanishes: there is none.
    pub open spec fn begin(
        mean_motion: Nano,
        shape: Type,
        eccentricity: Nano,
        major_axis: Nano,
        eccentric: Nano,
    ) -> Result<TrueAnomaly, KeplerError> {
        if shape == Type::Unknown {
            Err(KeplerError::UnsupportedShape)
        } else if !shape.admits(eccentricity) || shape == Type::Parabolic {
            Err(KeplerError::DomainPrecondition)
        } else if shape == Type::Circular {
            if representable(eccentric.units + mean_motion.units) {
                Ok(TrueAnomaly::Exact(Nano { units: (eccentric.units + mean_motion.units) as i64 }))
            } else {
                Err(KeplerError::OutOfRange)
            }
        } else if eccentric.units == 0 {
            Ok(TrueAnomaly::Exact(Nano { units: 0 }))
        } else {
            let ratio = Nano { units: half_angle_ratio(eccentricity) as i64 };
            let half = Nano { units: halved(eccentric.units as int) as i64 };
            if shape == Type::Elliptical {
                Ok(TrueAnomaly::HalfTangent { ratio, half })
            } else {
                Ok(TrueAnomaly::HyperbolicHalfTangent { ratio, half })
            }
        }
    }

    /// The state that follows when the caller answers with the value of
    /// the function that was asked for.
    ///
    /// Products are rounded toward zero, so that opposite values give
    /// opposite products. The product of the ratio and a tangent is kept
    /// within the quantities: beyond them the arc tangent no longer changes
    /// by a billionth. An arc tangent beyond a quarter turn and a
    /// hyperbolic tangent beyond 1 are outside the domain: the true anomaly
    /// of an ellipse lies within half a turn of the periapsis.
    pub open spec fn step(self, value: Nano) -> Result<TrueAnomaly, KeplerError> {
        match self {
            TrueAnomaly::Exact(angle) => Ok(TrueAnomaly::Exact(angle)),
            TrueAnomaly::HalfTangent { ratio, half } => Ok(
                TrueAnomaly::ArcTangent {
                    of: clamped(scaled(ratio.units as int, value.units as int)),
                },
            ),
            TrueAnomaly::ArcTangent { of } => {
                if -HALF_PI <= value.units <= HALF_PI {
                    Ok(TrueAnomaly::Exact(Nano { units: (2 * value.units) as i64 }))
                } else {
                    Err(KeplerError::DomainPrecondition)
                }
            },
            TrueAnomaly::HyperbolicHalfTangent { ratio, half } => {
                if !(-SCALE <= value.units <= SCALE) {
                    Err(KeplerError::DomainPrecondition)
                } else if !representable(scaled(ratio.units as int, value.units as int)) {
                    Err(KeplerError::OutOfRange)
                } else {
                    Ok(
                        TrueAnomaly::Exact(
                            Nano { units: scaled(ratio.units as int, value.units as int) as i64 },
                        ),
                    )
                }
            },
        }
    }

    /// The state after the answers `answers`, taken in order.
    pub open spec fn run(self, answers: Seq<Nano>) -> Result<TrueAnomaly, KeplerError>
        decreases answers.len(),
    {
        if answers.len() == 0 {
            Ok(self)
        } else {
            match self.step(answers[0]) {
                Ok(next) => next.run(answers.skip(1)),
                Err(e) => Err(e),
            }
        }
    }
}

impl Anomaly {
    /// The mean anomaly: the size of the mean-motion seed, whatever its
    /// direction.
    pub fn mean(self, mean_motion: Nano) -> (r: Result<Nano, KeplerError>)
        ensures
            mean_motion.wf() ==> r == Ok::<Nano, KeplerError>(
                Nano { units: mean_motion.magnitude() as i64 },
            ),
            !mean_motion.wf() ==> r == Err::<Nano, KeplerError>(KeplerError::OutOfRange),
    {
        if mean_motion.units == i64::MIN {
            Err(KeplerError::OutOfRange)
        } else if mean_motion.units < 0 {
            Ok(Nano { units: -mean_motion.units })
        } else {
            Ok(mean_motion)
        }
    }

    /// Opens the solve for the eccentric anomaly of a body with mean-motion
    /// seed `mean_motion` on an orbit of the given shape.
    ///
    /// On a circle, on a parabola and for a seed of zero the solve is
    /// settled at once. Elsewhere on an ellipse and on a hyperbola it is
    /// carried on by [`Anomaly::refine`].
    pub fn eccentric(
        self,
        shape: Type,
        mean_motion: Nano,
        orbital_eccentricity: Nano,
        major_axis: Nano,
    ) -> (r: Result<Solve, KeplerError>)
        ensures
            r == Solve::begin(shape, mean_motion, orbital_eccentricity, major_axis),
            r is Ok ==> r->Ok_0.wf(),
            shape == Type::Circular && orbital_eccentricity.units == 0 ==> r == Ok::<
                Solve,
                KeplerError,
            >(Solve::Settled(mean_motion)),
    {
        match shape.check(orbital_eccentricity) {
            Err(e) => Err(e),
            Ok(_) => {
                if shape == Type::Circular || mean_motion.units == 0 {
                    Ok(Solve::Settled(mean_motion))
                } else {
                    match self.mean(mean_motion) {
                        Err(e) => Err(e),
                        Ok(mean) => {
                            let start = Newton {
                                shape,
                                mean,
                                eccentricity: orbital_eccentricity,
                                major_axis,
                                estimate: mean,
                                taken: 0,
                                mirrored: mean_motion.units < 0,
                            };
                            if shape == Type::Elliptical {
                                Ok(Solve::Seeding(start))
                            } else if shape == Type::Hyperbolic {
                                Ok(Solve::Refining(start))
                            } else {
                                match Anomaly::parabolic(start) {
                                    Ok(anomaly) => Ok(Solve::Settled(anomaly)),
                                    Err(e) => Err(e),
                                }
                            }
                        },
                    }
                }
            },
        }
    }

    /// Solves Barker's equation from `start` on.
    fn parabolic(start: Newton) -> (r: Result<Nano, KeplerError>)
        requires
            start.eccentricity.units == SCALE,
            start.taken < MAX_CORRECTIONS,
        ensures
            r == start.barker(),
    {
        let mut state = start;
        loop
            invariant
                state.eccentricity.units == SCALE,
                state.taken < MAX_CORRECTIONS,
                state.barker() == start.barker(),
            decreases MAX_CORRECTIONS - state.taken,
        {
            let d: i128 = state.estimate.units as i128;
            let m: i128 = state.mean.units as i128;
            proof {
                lemma_parabola_has_no_perifocal_distance(state);
            }
            assert(-0x8000_0000_0000_0000 * 0x8000_0000_0000_0000 <= d * d
                <= 0x8000_0000_0000_0000 * 0x8000_0000_0000_0000) by (nonlinear_arith)
                requires
                    -0x8000_0000_0000_0000 <= d <= 0x8000_0000_0000_0000,
            ;
            assert(d * d >= 0 && (d != 0 ==> d * d > 0)) by (nonlinear_arith);
            assert(-6_000_000_000_000_000_000 * 0x8000_0000_0000_0000 <= 6_000_000_000_000_000_000
                * m <= 6_000_000_000_000_000_000 * 0x8000_0000_0000_0000) by (nonlinear_arith)
                requires
                    -0x8000_0000_0000_0000 <= m <= 0x8000_0000_0000_0000,
            ;
            let target: i128 = 6_000_000_000_000_000_000 * m;
            if d == 0 {
                if m == 0 {
                    return Ok(state.estimate);
                } else {
                    return Err(KeplerError::NumericalNonConvergence);
                }
            }
            let square: i128 = d * d;
            let over: i128 = div_floor(target, square);
            proof {
                lemma_quotient_bounds(target as int, square as int);
            }
            let by: i128 = div_floor(over - d, 3);
            proof {
                lemma_quotient_bounds(over - d, 3);
                lemma_barker_correction(state);
            }
            let sum: i128 = d + by;
            if sum < -(i64::MAX as i128) || sum > i64::MAX as i128 {
                return Err(KeplerError::OutOfRange);
            }
            if by >= -(TOLERANCE as i128) && by <= TOLERANCE as i128 {
                if state.mirrored {
                    return Ok(Nano { units: -(sum as i64) });
                } else {
                    return Ok(Nano { units: sum as i64 });
                }
            }
            if state.taken >= MAX_CORRECTIONS - 1 {
                return Err(KeplerError::NumericalNonConvergence);
            }
            state = Newton { estimate: Nano { units: sum as i64 }, taken: state.taken + 1, ..state };
        }
    }

    /// Carries a solve one step on with the values `at` of the functions at
    /// the point that the solve asked for.
    pub fn refine(self, solve: Solve, at: Functions) -> (r: Result<Solve, KeplerError>)
        ensures
            r == solve.step(at),
            solve.wf() && r is Ok ==> r->Ok_0.wf(),
    {
        match solve {
            Solve::Settled(v) => Ok(Solve::Settled(v)),
            Solve::Seeding(n) => {
                if !at.fits(n.shape) {
                    return Err(KeplerError::DomainPrecondition);
                }
                let lead: i128 = Anomaly::product(n.eccentricity, at.sine);
                let sum: i128 = n.estimate.units as i128 + lead;
                if sum < -(i64::MAX as i128) || sum > i64::MAX as i128 {
                    return Err(KeplerError::OutOfRange);
                }
                Ok(Solve::Refining(Newton { estimate: Nano { units: sum as i64 }, ..n }))
            },
            Solve::Refining(n) => {
                if !at.fits(n.shape) {
                    return Err(KeplerError::DomainPrecondition);
                }
                let e_sine: i128 = Anomaly::product(n.eccentricity, at.sine);
                let e_cosine: i128 = Anomaly::product(n.eccentricity, at.cosine);
                let x: i128 = n.estimate.units as i128;
                let m: i128 = n.mean.units as i128;
                let one: i128 = SCALE as i128;
                let hyperbolic: bool = n.shape == Type::Hyperbolic;
                let residual: i128 = if hyperbolic {
                    e_sine - x - m
                } else {
                    x - e_sine - m
                };
                let slope: i128 = if hyperbolic {
                    e_cosine - one
                } else {
                    one - e_cosine
                };
                if slope <= 0 {
                    return Err(KeplerError::DomainPrecondition);
                }
                if residual < -(i64::MAX as i128) || residual > i64::MAX as i128 {
                    return Err(KeplerError::OutOfRange);
                }
                assert(-0x8000_0000_0000_0000 * 1_000_000_000 <= -residual * one
                    <= 0x8000_0000_0000_0000 * 1_000_000_000) by (nonlinear_arith)
                    requires
                        -0x8000_0000_0000_0000 <= residual <= 0x8000_0000_0000_0000,
                        one == 1_000_000_000,
                ;
                let by: i128 = div_floor(-residual * one, slope);
                proof {
                    lemma_quotient_bounds(-residual * one, slope as int);
                }
                let sum: i128 = x + by;
                if sum < -(i64::MAX as i128) || sum > i64::MAX as i128 {
                    return Err(KeplerError::OutOfRange);
                }
                if by >= -(TOLERANCE as i128) && by <= TOLERANCE as i128 {
                    if n.mirrored {
                        Ok(Solve::Settled(Nano { units: -(sum as i64) }))
                    } else {
                        Ok(Solve::Settled(Nano { units: sum as i64 }))
                    }
                } else if n.taken >= MAX_CORRECTIONS - 1 {
                    Err(KeplerError::NumericalNonConvergence)
                } else {
                    Ok(
                        Solve::Refining(
                            Newton { estimate: Nano { units: sum as i64 }, taken: n.taken + 1, ..n },
                        ),
                    )
                }
            },
        }
    }

    /// Opens the true anomaly of a body whose eccentric anomaly, as
    /// [`Anomaly::eccentric`] and [`Anomaly::refine`] settled it for the
    /// same seed and orbit, is `eccentric`. It is carried on by
    /// [`Anomaly::resolve`] until it is exact.
    pub fn truly(
        self,
        mean_motion: Nano,
        shape: Type,
        orbital_eccentricity: Nano,
        major_axis: Nano,
        eccentric: Nano,
    ) -> (r: Result<TrueAnomaly, KeplerError>)
        ensures
            r == TrueAnomaly::begin(
                mean_motion,
                shape,
                orbital_eccentricity,
                major_axis,
                eccentric,
            ),
            shape == Type::Elliptical && shape.admits(orbital_eccentricity) && eccentric.units == 0
                ==> r == Ok::<TrueAnomaly, KeplerError>(TrueAnomaly::Exact(Nano { units: 0 })),
    {
        match shape.check(orbital_eccentricity) {
            Err(e) => Err(e),
            Ok(_) => {
                match shape {
                    Type::Circular => {
                        let sum: i128 = eccentric.units as i128 + mean_motion.units as i128;
                        if sum < -(i64::MAX as i128) || sum > i64::MAX as i128 {
                            Err(KeplerError::OutOfRange)
                        } else {
                            Ok(TrueAnomaly::Exact(Nano { units: sum as i64 }))
                        }
                    },
                    Type::Parabolic => Err(KeplerError::DomainPrecondition),
                    _ => {
                        if eccentric.units == 0 {
                            Ok(TrueAnomaly::Exact(Nano { units: 0 }))
                        } else {
                            let ratio = Anomaly::ratio(orbital_eccentricity);
                            let half = Nano { units: eccentric.units / 2 };
                            if shape == Type::Elliptical {
                                Ok(TrueAnomaly::HalfTangent { ratio, half })
                            } else {
                                Ok(TrueAnomaly::HyperbolicHalfTangent { ratio, half })
                            }
                        }
                    },
                }
            },
        }
    }

    /// Carries a true anomaly one step on with the value of the function
    /// that it asked for.
    pub fn resolve(self, state: TrueAnomaly, value: Nano) -> (r: Result<TrueAnomaly, KeplerError>)
        ensures
            r == state.step(value),
            state is ArcTangent ==> (r matches Ok(TrueAnomaly::Exact(angle)) && -2 * HALF_PI
                <= angle.units <= 2 * HALF_PI) || r == Err::<TrueAnomaly, KeplerError>(
                KeplerError::DomainPrecondition,
            ),
    {
        match state {
            TrueAnomaly::Exact(angle) => Ok(TrueAnomaly::Exact(angle)),
            TrueAnomaly::HalfTangent { ratio, half } => {
                let product: i128 = Anomaly::scale(ratio, value);
                let of: i64 = if product > i64::MAX as i128 {
                    i64::MAX
                } else if product < -(i64::MAX as i128) {
                    -i64::MAX
                } else {
                    product as i64
                };
                Ok(TrueAnomaly::ArcTangent { of: Nano { units: of } })
            },
            TrueAnomaly::ArcTangent { of } => {
                if value.units < -HALF_PI || value.units > HALF_PI {
                    Err(KeplerError::DomainPrecondition)
                } else {
                    Ok(TrueAnomaly::Exact(Nano { units: 2 * value.units }))
                }
            },
            TrueAnomaly::HyperbolicHalfTangent { ratio, half } => {
                if value.units < -SCALE || value.units > SCALE {
                    return Err(KeplerError::DomainPrecondition);
                }
                let product: i128 = Anomaly::scale(ratio, value);
                if product < -(i64::MAX as i128) || product > i64::MAX as i128 {
                    Err(KeplerError::OutOfRange)
                } else {
                    Ok(TrueAnomaly::Exact(Nano { units: product as i64 }))
                }
            },
        }
    }

    /// The product of two quantities, in billionths, rounded toward zero.
    fn scale(a: Nano, b: Nano) -> (r: i128)
        ensures
            r == scaled(a.units as int, b.units as int),
    {
        let x: i128 = a.units as i128;
        let y: i128 = b.units as i128;
        let p: i128 = if x < 0 {
            -x
        } else {
            x
        };
        let q: i128 = if y < 0 {
            -y
        } else {
            y
        };
        assert(0 <= p * q <= 0x4000_0000_0000_0000_0000_0000_0000_0000) by (nonlinear_arith)
            requires
                0 <= p <= 0x8000_0000_0000_0000,
                0 <= q <= 0x8000_0000_0000_0000,
        ;
        proof {
            lemma_quotient_bounds(p * q, SCALE as int);
        }
        let size: i128 = p * q / SCALE as i128;
        if (x < 0) == (y < 0) {
            size
        } else {
            -size
        }
    }

    /// The factor between the tangents of the halves of the two
    /// anomalies, on an ellipse or a hyperbola.
    fn ratio(eccentricity: Nano) -> (r: Nano)
        requires
            eccentricity.units > 0,
            eccentricity.units != SCALE,
        ensures
            r.units == half_angle_ratio(eccentricity),
    {
        let one: u128 = SCALE as u128;
        let e: u128 = eccentricity.units as u128;
        let fine: u128 = one * one;
        assert((e + one) * fine <= 0x8000_0000_3B9A_CA00 * 1_000_000_000_000_000_000)
            by (nonlinear_arith)
            requires
                0 <= e + one <= 0x8000_0000_3B9A_CA00,
                fine == 1_000_000_000_000_000_000,
        ;
        let over: u128 = (e + one) * fine;
        let under: u128 = if e < one {
            one - e
        } else {
            e - one
        };
        let square: u128 = over / under;
        let root: u64 = sqrt_floor(square);
        proof {
            lemma_quotient_bounds(over as int, under as int);
            assert(root < 0x8000_0000_0000_0000) by (nonlinear_arith)
                requires
                    0 <= root,
                    root * root <= square,
                    square <= 0x8000_0000_3B9A_CA00 * 1_000_000_000_000_000_000,
            ;
        }
        Nano { units: root as i64 }
    }

    /// The product of two quantities, in billionths, rounded down.
    fn product(a: Nano, b: Nano) -> (r: i128)
        ensures
            r == times(a.units as int, b.units as int),
            -0x4000_0000_0000_0000_0000_0000_0000_0000 <= r
                <= 0x4000_0000_0000_0000_0000_0000_0000_0000,
    {
        let x: i128 = a.units as i128;
        let y: i128 = b.units as i128;
        assert(-0x4000_0000_0000_0000_0000_0000_0000_0000 <= x * y
            <= 0x4000_0000_0000_0000_0000_0000_0000_0000) by (nonlinear_arith)
            requires
                -0x8000_0000_0000_0000 <= x <= 0x8000_0000_0000_0000,
                -0x8000_0000_0000_0000 <= y <= 0x8000_0000_0000_0000,
        ;
        proof {
            lemma_quotient_bounds(x * y, SCALE as int);
        }
        div_floor(x * y, SCALE as i128)
    }
}

/// On a parabola the semi-latus rectum `a·(1 − e²)` vanishes, and the
/// perifocal distance with it: Barker's equation comes down to
/// `D³/6 = M`.
pub proof fn lemma_parabola_has_no_perifocal_distance(state: Newton)
    requires
        state.eccentricity.units == SCALE,
    ensures
        state.perifocal_distance() == 0,
        state.barker_slope() == 3 * (state.estimate.units * state.estimate.units),
        state.barker_excess() == 6 * SCALE * SCALE * state.mean.units - state.estimate.units * (
        state.estimate.units * state.estimate.units),
{
    let one: int = SCALE as int;
    let e: int = state.eccentricity.units as int;
    let d: int = state.estimate.units as int;
    assert(state.major_axis.units * (one * one - e * e) == 0) by (nonlinear_arith)
        requires
            e == one,
    ;
    assert(6 * one * 0 * d == 0 && 6 * one * 0 == 0);
    assert(3 * d * d == 3 * (d * d) && d * d * d == d * (d * d)) by (nonlinear_arith);
}

/// The correction of Barker's equation on a parabola, excess over slope,
/// is a third of what the mean anomaly over the square of the estimate
/// leaves above the estimate.
pub proof fn lemma_barker_correction(state: Newton)
    requires
        state.eccentricity.units == SCALE,
        state.estimate.units != 0,
    ensures
        state.barker_slope() > 0,
        state.barker_excess() / state.barker_slope() == ((6 * SCALE * SCALE * state.mean.units) / (
        state.estimate.units * state.estimate.units) - state.estimate.units) / 3,
{
    lemma_parabola_has_no_perifocal_distance(state);
    let d: int = state.estimate.units as int;
    let square: int = d * d;
    let target: int = 6 * SCALE * SCALE * state.mean.units;
    assert(square > 0) by (nonlinear_arith)
        requires
            square == d * d,
            d != 0,
    ;
    lemma_hoist_over_denominator(target, -d, square as nat);
    assert(target + (-d) * square == target - d * square) by (nonlinear_arith);
    lemma_div_nested(target - d * square, square, 3);
    assert(square * 3 == 3 * square);
}

} // verus!
