//! Bodies, and the calendar and clock records computed for them.
//!
//! A body's calendar counts the orbits since its epoch as years and the
//! rotations within an orbit as days. Months and seasons follow the solar
//! longitude, and that the true anomaly, which the caller finds for the
//! day of the orbit as [`crate::anomaly`] describes.
//!
//! A [`Reckoning`] carries a date from the Julian date to the end: it
//! finds the day of the orbit and its mean anomaly, opens the solve for the
//! eccentric anomaly with that seed, goes on to the true anomaly once the
//! solve has settled, and composes the date from it. The caller answers
//! what is asked and decides nothing.
//!
//! That the calendar begins at the epoch, repeats with every orbit and
//! never goes back, and that a reckoning stays with its day, is proved in
//! [`laws`].

pub mod laws;

use crate::anomaly::{Anomaly, Asked, Functions, Newton, Solve, TrueAnomaly};
use crate::orbit::{
    KeplerError, MeanMotion, Perihelion, Season, SemiAxis, SolarLongitude, Type, FULL_CIRCLE,
};
use crate::planets::EARTH_ROTATIONAL_PERIOD;
use crate::quantity::{div_floor, lemma_quotient_bounds, rem_floor, Nano, SCALE};
use vstd::arithmetic::div_mod::{lemma_div_is_ordered, lemma_fundamental_div_mod_converse};
use vstd::prelude::*;

verus! {

/// The year in which a body's epoch falls.
pub const INITIAL_YEAR: i64 = 12;

/// The days of a body that have passed since its epoch at a Julian date,
/// in billionths, rounded down: the days of the Earth between the two,
/// measured in rotations of the body.
pub open spec fn elapsed_days(julian_date: Nano, epoch: Nano, rotational_period: Nano) -> int {
    (julian_date.units - epoch.units) * EARTH_ROTATIONAL_PERIOD / (rotational_period.units as int)
}

/// The year in which the day `elapsed` falls: one more with each orbit
/// completed since the epoch, one less with each orbit begun before it.
pub open spec fn year_of(elapsed: int, orbital_period: Nano) -> int {
    INITIAL_YEAR + elapsed / (orbital_period.units as int)
}

/// How far into its orbit the body is on the day `elapsed`: at least zero
/// and less than the orbital period.
pub open spec fn day_of_orbit(elapsed: int, orbital_period: Nano) -> int {
    elapsed % (orbital_period.units as int)
}

/// The month that the solar longitude of `ls` billionths of a degree
/// falls in, the first month beginning at longitude zero and each spanning
/// `span` billionths.
pub open spec fn month_of(ls: int, span: int) -> int {
    1 + ls / span
}

/// Whether `n` is a value of `i64`.
pub open spec fn fits(n: int) -> bool {
    i64::MIN <= n <= i64::MAX
}

/// The era that a date falls in.
#[derive(Debug, Clone, Copy, PartialEq, Eq, Structural)]
pub enum Eras {
    /// After discovery: the present or a later date.
    AD,
    /// Before discovery: an old date.
    BD,
    /// No era was worked out.
    Unknown,
}

impl Eras {
    /// The era of a year: after discovery from year 1 on.
    pub open spec fn of(year: i64) -> Eras {
        if year > 0 {
            Eras::AD
        } else {
            Eras::BD
        }
    }

    /// The era's name.
    pub open spec fn label(self) -> Seq<char> {
        match self {
            Eras::AD => "AD"@,
            Eras::BD => "BD"@,
            Eras::Unknown => "Unknown"@,
        }
    }

    pub fn as_str(&self) -> (s: &'static str)
        ensures
            s@ == self.label(),
    {
        match self {
            Eras::AD => "AD",
            Eras::BD => "BD",
            Eras::Unknown => "Unknown",
        }
    }
}

impl Default for Eras {
    fn default() -> (r: Eras)
        ensures
            r == Eras::Unknown,
    {
        Eras::Unknown
    }
}

/// The half of the day that an hour falls in.
#[derive(Debug, Clone, Copy, PartialEq, Eq, Structural)]
pub enum HourType {
    /// Ante meridiem.
    AM,
    /// Post meridiem.
    PM,
    /// No hour of a day.
    Unknown,
}

impl HourType {
    /// Hours 0 to 11 are before noon, hours 12 to 24 after it.
    pub open spec fn of(hour: u8) -> HourType {
        if hour <= 11 {
            HourType::AM
        } else if hour <= 24 {
            HourType::PM
        } else {
            HourType::Unknown
        }
    }

    /// The hour type's name.
    pub open spec fn label(self) -> Seq<char> {
        match self {
            HourType::AM => "AM"@,
            HourType::PM => "PM"@,
            HourType::Unknown => "Unknown"@,
        }
    }

    pub fn as_str(&self) -> (s: &'static str)
        ensures
            s@ == self.label(),
    {
        match self {
            HourType::AM => "AM",
            HourType::PM => "PM",
            HourType::Unknown => "Unknown",
        }
    }

    /// The name of the hour type of `hour`.
    pub fn new(&self, hour: u8) -> (s: String)
        ensures
            s@ == HourType::of(hour).label(),
    {
        let kind = if hour <= 11 {
            HourType::AM
        } else if hour <= 24 {
            HourType::PM
        } else {
            HourType::Unknown
        };
        kind.as_str().to_owned()
    }
}

impl Default for HourType {
    fn default() -> (r: HourType)
        ensures
            r == HourType::Unknown,
    {
        HourType::Unknown
    }
}

/// A time of day on a body, in a time zone of it.
#[derive(Debug, Clone, PartialEq, Eq)]
pub struct Time {
    pub hour: i32,
    pub minute: u8,
    pub second: u8,
    /// The code of the time zone.
    pub code: String,
    /// The name of the time zone.
    pub name: String,
    /// The name of the zone's offset.
    pub offset_name: String,
    /// The name of the hour type: `AM`, `PM` or `Unknown`.
    pub hour_type: String,
}

impl Time {
    /// Whether this is the time that nothing has been worked out for:
    /// midnight, with every name empty.
    pub open spec fn is_unset(self) -> bool {
        &&& self.hour == 0
        &&& self.minute == 0
        &&& self.second == 0
        &&& self.code@ == Seq::<char>::empty()
        &&& self.name@ == Seq::<char>::empty()
        &&& self.offset_name@ == Seq::<char>::empty()
        &&& self.hour_type@ == Seq::<char>::empty()
    }

    /// The time of a body that keeps no clock: the unset time.
    pub fn compute(&self) -> (r: Time)
        ensures
            r.is_unset(),
    {
        Time::default()
    }
}

impl Default for Time {
    fn default() -> (r: Time)
        ensures
            r.is_unset(),
    {
        Time {
            hour: 0,
            minute: 0,
            second: 0,
            code: String::new(),
            name: String::new(),
            offset_name: String::new(),
            hour_type: String::new(),
        }
    }
}

/// The year and the day of the orbit at a moment.
#[derive(Debug, Clone, Copy, PartialEq, Eq, Structural)]
pub struct Elapsed {
    pub year: i64,
    /// The days into the orbit, in days of the body.
    pub day: Nano,
}

/// A date on a body.
#[derive(Debug, Clone, PartialEq, Eq)]
pub struct Date {
    pub era: Eras,
    pub year: i64,
    pub month: i64,
    pub day: i64,
    /// The solar longitude, in degrees.
    pub ls: Nano,
    /// The name of the season.
    pub season: String,
}

impl Default for Date {
    /// The date that nothing has been worked out for.
    fn default() -> (r: Date)
        ensures
            r.era == Eras::Unknown,
            r.year == 0,
            r.month == 0,
            r.day == 0,
            r.ls.units == 0,
            r.season@ == Seq::<char>::empty(),
    {
        Date {
            era: Eras::Unknown,
            year: 0,
            month: 0,
            day: 0,
            ls: Nano { units: 0 },
            season: String::new(),
        }
    }
}

impl Date {
    /// The year and the day of the orbit of a body at `julian_date`. A
    /// period that is not positive has no calendar, and a year may lie
    /// beyond `i64`.
    pub open spec fn elapsed_at(
        julian_date: Nano,
        epoch: Nano,
        rotational_period: Nano,
        orbital_period: Nano,
    ) -> Result<Elapsed, KeplerError> {
        let elapsed = elapsed_days(julian_date, epoch, rotational_period);
        if rotational_period.units <= 0 || orbital_period.units <= 0 {
            Err(KeplerError::DomainPrecondition)
        } else if !fits(year_of(elapsed, orbital_period)) {
            Err(KeplerError::OutOfRange)
        } else {
            Ok(
                Elapsed {
                    year: year_of(elapsed, orbital_period) as i64,
                    day: Nano { units: day_of_orbit(elapsed, orbital_period) as i64 },
                },
            )
        }
    }

    /// Why no date can be composed, if none can: periods that are not
    /// positive, months that span no longitude, and a span or a year
    /// beyond `i64`.
    pub open spec fn refusal(
        julian_date: Nano,
        epoch: Nano,
        rotational_period: Nano,
        peri: Perihelion,
        orbital_period: Nano,
    ) -> Option<KeplerError> {
        if rotational_period.units <= 0 || orbital_period.units <= 0 || peri.span() <= 0 {
            Some(KeplerError::DomainPrecondition)
        } else if !fits(peri.span()) || !fits(
            year_of(elapsed_days(julian_date, epoch, rotational_period), orbital_period),
        ) {
            Some(KeplerError::OutOfRange)
        } else {
            None
        }
    }

    /// Whether this is the date of a body at `julian_date`, when its true
    /// anomaly is `true_anomaly` radians.
    ///
    /// The year counts the orbits since the epoch. The day is the first of
    /// the orbit while no whole day of it has passed. The solar longitude
    /// is that of the true anomaly. The month is the first while the
    /// longitude is below the span of one month. The season is that of the
    /// longitude's whole degrees, and the era that of the year.
    pub open spec fn composes(
        self,
        julian_date: Nano,
        epoch: Nano,
        rotational_period: Nano,
        peri: Perihelion,
        orbital_period: Nano,
        true_anomaly: Nano,
    ) -> bool {
        let elapsed = elapsed_days(julian_date, epoch, rotational_period);
        let ls = SolarLongitude::longitude_of(true_anomaly, peri);
        &&& self.year == year_of(elapsed, orbital_period)
        &&& self.day == 1 + day_of_orbit(elapsed, orbital_period) / (SCALE as int)
        &&& self.ls.units == ls
        &&& self.month == month_of(ls, peri.span())
        &&& self.season@ == Season::of((ls / (SCALE as int)) as u32).label()
        &&& self.era == Eras::of(self.year)
    }

    /// Whether `outcome` is what composing a date gives: the date where
    /// nothing refuses it, the refusal otherwise.
    pub open spec fn is_outcome(
        outcome: Result<Date, KeplerError>,
        julian_date: Nano,
        epoch: Nano,
        rotational_period: Nano,
        peri: Perihelion,
        orbital_period: Nano,
        true_anomaly: Nano,
    ) -> bool {
        let refusal = Date::refusal(julian_date, epoch, rotational_period, peri, orbital_period);
        match outcome {
            Ok(date) => refusal is None && date.composes(
                julian_date,
                epoch,
                rotational_period,
                peri,
                orbital_period,
                true_anomaly,
            ),
            Err(e) => refusal == Some(e),
        }
    }

    /// The year and the day of the orbit of a body at `julian_date`.
    ///
    /// `epoch` is the Julian date at which the body's calendar begins,
    /// `rotational_period` its day in seconds, `orbital_period` its year in
    /// days of its own.
    pub fn elapsed(
        julian_date: Nano,
        epoch: Nano,
        rotational_period: Nano,
        orbital_period: Nano,
    ) -> (r: Result<Elapsed, KeplerError>)
        ensures
            r == Date::elapsed_at(julian_date, epoch, rotational_period, orbital_period),
            r is Ok ==> 0 <= r->Ok_0.day.units < orbital_period.units,
    {
        if rotational_period.units <= 0 || orbital_period.units <= 0 {
            return Err(KeplerError::DomainPrecondition);
        }
        let between: i128 = julian_date.units as i128 - epoch.units as i128;
        let earth: i128 = EARTH_ROTATIONAL_PERIOD as i128;
        assert(-0x1_0000_0000_0000_0000 * 86_400_000_000_000 <= between * earth
            <= 0x1_0000_0000_0000_0000 * 86_400_000_000_000) by (nonlinear_arith)
            requires
                -0x1_0000_0000_0000_0000 <= between <= 0x1_0000_0000_0000_0000,
                earth == 86_400_000_000_000,
        ;
        let days: i128 = div_floor(between * earth, rotational_period.units as i128);
        let turns: i128 = div_floor(days, orbital_period.units as i128);
        let day: i128 = rem_floor(days, orbital_period.units as i128);
        proof {
            lemma_quotient_bounds(between * earth, rotational_period.units as int);
            lemma_quotient_bounds(days as int, orbital_period.units as int);
        }
        let year: i128 = INITIAL_YEAR as i128 + turns;
        if year < i64::MIN as i128 || year > i64::MAX as i128 {
            return Err(KeplerError::OutOfRange);
        }
        Ok(Elapsed { year: year as i64, day: Nano { units: day as i64 } })
    }

    /// Composes the date of a body at `julian_date` from its calendar and
    /// from the true anomaly, in radians, that the body has on the day of
    /// its orbit which [`Date::elapsed`] gives for that moment.
    pub fn compute(
        &self,
        julian_date: Nano,
        epoch: Nano,
        rotational_period: Nano,
        peri: Perihelion,
        orbital_period: Nano,
        true_anomaly: Nano,
    ) -> (r: Result<Date, KeplerError>)
        ensures
            Date::is_outcome(
                r,
                julian_date,
                epoch,
                rotational_period,
                peri,
                orbital_period,
                true_anomaly,
            ),
            r is Ok ==> r->Ok_0.day >= 1 && 1 <= r->Ok_0.month <= 1 + FULL_CIRCLE,
    {
        if rotational_period.units <= 0 || orbital_period.units <= 0 {
            return Err(KeplerError::DomainPrecondition);
        }
        let span = match peri.avg_ls() {
            Ok(span) => span,
            Err(e) => {
                return Err(e);
            },
        };
        let elapsed = match Date::elapsed(julian_date, epoch, rotational_period, orbital_period) {
            Ok(elapsed) => elapsed,
            Err(e) => {
                return Err(e);
            },
        };
        let ls = SolarLongitude.compute(true_anomaly, peri);
        let months: i64 = ls.units / span.units;
        let degrees: i64 = ls.units / SCALE;
        let days: i64 = elapsed.day.whole();
        proof {
            lemma_quotient_bounds(ls.units as int, span.units as int);
            lemma_quotient_bounds(elapsed.day.units as int, SCALE as int);
            lemma_div_is_ordered(ls.units as int, FULL_CIRCLE - 1, SCALE as int);
            lemma_fundamental_div_mod_converse(
                FULL_CIRCLE - 1,
                SCALE as int,
                359,
                SCALE - 1,
            );
        }
        let era = if elapsed.year > 0 {
            Eras::AD
        } else {
            Eras::BD
        };
        Ok(
            Date {
                era,
                year: elapsed.year,
                month: 1 + months,
                day: 1 + days,
                ls,
                season: Season::Unknown.from(degrees as u32),
            },
        )
    }
}

/// A time zone of a body: each zone has its own way from the universal
/// clock to its time.
pub trait TimeZone {
    /// The zone's time at `millis` milliseconds after the Unix epoch.
    fn new(&self, millis: u64) -> Time;
}

/// The orbital elements of a body and the anchors of its calendar.
#[derive(Debug, Clone, Copy, PartialEq, Eq)]
pub struct Elements {
    /// The Julian date at which the body's calendar begins, in days.
    pub epoch: Nano,
    /// How far the orbit departs from a circle.
    pub eccentricity: Nano,
    /// The time of one orbit, in days of the body.
    pub orbital_period: Nano,
    /// The time of one rotation against the Sun, in seconds.
    pub rotational_period: Nano,
    pub perihelion: Perihelion,
    /// The semi-major axis of the orbit, in astronomical units.
    pub semimajor: Nano,
}

impl Elements {
    /// Whether the elements are those of an orbit: an eccentricity that
    /// is not negative, a semi-major axis and periods that are positive,
    /// and a perihelion reference of that orbit.
    pub open spec fn wf(self) -> bool {
        &&& self.eccentricity.units >= 0
        &&& self.semimajor.units > 0
        &&& self.orbital_period.units > 0
        &&& self.rotational_period.units > 0
        &&& self.perihelion.wf(self.orbital_period)
    }
}

/// What the caller answers a reckoning with: the values of a pair of
/// functions, or the value of one.
#[derive(Debug, Clone, Copy, PartialEq, Eq, Structural)]
pub enum Answer {
    /// The sine and the cosine, or the hyperbolic sine and cosine.
    Pair(Functions),
    /// A tangent, an arc tangent or a hyperbolic tangent.
    Value(Nano),
}

/// How far a reckoning has come.
#[derive(Debug, Clone, Copy, PartialEq, Eq, Structural)]
pub enum Stage {
    /// The eccentric anomaly is being solved for.
    Solving(Solve),
    /// The eccentric anomaly has been found, and the true anomaly follows.
    Resolving(TrueAnomaly),
}

/// A date under way: the Julian date that it is for, the mean anomaly of
/// the body on the day of its orbit at that date, and the anomaly that is
/// being found from that seed.
#[derive(Debug, Clone, Copy, PartialEq, Eq, Structural)]
pub struct Reckoning {
    pub julian_date: Nano,
    /// The mean anomaly of the day, in radians.
    pub seed: Nano,
    pub stage: Stage,
}

impl Reckoning {
    /// What the reckoning asks for.
    pub open spec fn asked(self) -> Asked {
        match self.stage {
            Stage::Solving(solve) => solve.asked(),
            Stage::Resolving(state) => state.asked(),
        }
    }

    /// The true anomaly of the day, once it has been found.
    pub open spec fn anomaly(self) -> Option<Nano> {
        match self.stage {
            Stage::Resolving(TrueAnomaly::Exact(angle)) => Some(angle),
            _ => None,
        }
    }

    /// The stage that a solve has come to: once it has settled on an
    /// eccentric anomaly, the true anomaly is opened for that anomaly and
    /// for the seed.
    pub open spec fn stage_of(of: Elements, seed: Nano, solve: Solve) -> Result<
        Stage,
        KeplerError,
    > {
        match solve {
            Solve::Settled(eccentric) => match TrueAnomaly::begin(
                seed,
                Type::of(of.eccentricity),
                of.eccentricity,
                of.semimajor,
                eccentric,
            ) {
                Ok(state) => Ok(Stage::Resolving(state)),
                Err(e) => Err(e),
            },
            _ => Ok(Stage::Solving(solve)),
        }
    }

    /// The reckoning of the date of a body at `julian_date`, as it
    /// begins: the seed is the mean anomaly of the day of the orbit at that
    /// date, and the solve is opened for it on the orbit of the body.
    pub open spec fn begin(of: Elements, julian_date: Nano) -> Result<Reckoning, KeplerError> {
        match Date::elapsed_at(julian_date, of.epoch, of.rotational_period, of.orbital_period) {
            Err(e) => Err(e),
            Ok(elapsed) => match MeanMotion::anomaly_at(
                elapsed.day,
                of.perihelion,
                of.orbital_period,
            ) {
                Err(e) => Err(e),
                Ok(seed) => match Solve::begin(
                    Type::of(of.eccentricity),
                    seed,
                    of.eccentricity,
                    of.semimajor,
                ) {
                    Err(e) => Err(e),
                    Ok(solve) => match Reckoning::stage_of(of, seed, solve) {
                        Err(e) => Err(e),
                        Ok(stage) => Ok(Reckoning { julian_date, seed, stage }),
                    },
                },
            },
        }
    }

    /// The reckoning after the caller has answered: the solve or the
    /// true anomaly is carried one step on, and the date and the seed stay.
    /// An answer of the other kind than was asked for is outside the
    /// domain.
    pub open spec fn step(self, of: Elements, answer: Answer) -> Result<Reckoning, KeplerError> {
        match (self.stage, answer) {
            (Stage::Solving(solve), Answer::Pair(at)) => match solve.step(at) {
                Err(e) => Err(e),
                Ok(next) => match Reckoning::stage_of(of, self.seed, next) {
                    Err(e) => Err(e),
                    Ok(stage) => Ok(Reckoning { stage, ..self }),
                },
            },
            (Stage::Resolving(state), Answer::Value(value)) => match state.step(value) {
                Err(e) => Err(e),
                Ok(next) => Ok(Reckoning { stage: Stage::Resolving(next), ..self }),
            },
            _ => Err(KeplerError::DomainPrecondition),
        }
    }

    /// The reckoning after the answers `answers`, taken in order.
    pub open spec fn run(self, of: Elements, answers: Seq<Answer>) -> Result<
        Reckoning,
        KeplerError,
    >
        decreases answers.len(),
    {
        if answers.len() == 0 {
            Ok(self)
        } else {
            match self.step(of, answers[0]) {
                Ok(next) => next.run(of, answers.skip(1)),
                Err(e) => Err(e),
            }
        }
    }

    /// Whether the reckoning is one of the body with the elements `of`:
    /// its seed is the mean anomaly of the day of the orbit at its Julian
    /// date, and its solve works on that seed and on the orbit of the body.
    pub open spec fn belongs(self, of: Elements) -> bool {
        &&& Date::elapsed_at(
            self.julian_date,
            of.epoch,
            of.rotational_period,
            of.orbital_period,
        ) matches Ok(elapsed) && MeanMotion::anomaly_at(
            elapsed.day,
            of.perihelion,
            of.orbital_period,
        ) == Ok::<Nano, KeplerError>(self.seed)
        &&& match self.stage {
            Stage::Solving(Solve::Seeding(n)) => Reckoning::works_on(n, of, self.seed),
            Stage::Solving(Solve::Refining(n)) => Reckoning::works_on(n, of, self.seed),
            _ => true,
        }
    }

    /// Whether a solve works on the seed and on the orbit of the body.
    pub open spec fn works_on(solve: Newton, of: Elements, seed: Nano) -> bool {
        &&& solve.mean.units == seed.magnitude()
        &&& solve.mirrored == (seed.units < 0)
        &&& solve.eccentricity == of.eccentricity
        &&& solve.major_axis == of.semimajor
        &&& solve.shape == Type::of(of.eccentricity)
    }

    /// Tells what the reckoning asks for.
    pub fn asks(&self) -> (r: Asked)
        ensures
            r == self.asked(),
    {
        match self.stage {
            Stage::Solving(solve) => solve.asks(),
            Stage::Resolving(state) => state.asks(),
        }
    }
}

/// What planets, moons, asteroids and comets have in common: a body in
/// orbit, known by its elements.
///
/// Only the solar day is supported, not the sidereal day.
pub trait Body {
    /// The elements that the methods below report.
    spec fn elements(&self) -> Elements;

    /// The Julian date at which the body's calendar begins.
    fn epoch(&self) -> (r: Nano)
        ensures
            r == self.elements().epoch,
    ;

    /// How far the orbit departs from a circle.
    fn orbital_eccentricity(&self) -> (r: Nano)
        ensures
            r == self.elements().eccentricity,
    ;

    /// The days that the body takes for one orbit.
    fn orbital_period(&self) -> (r: Nano)
        ensures
            r == self.elements().orbital_period,
    ;

    /// The seconds that the body takes for one rotation.
    fn rotational_period(&self) -> (r: Nano)
        ensures
            r == self.elements().rotational_period,
    ;

    /// When and where the body passes perihelion.
    fn perihelion(&self) -> (r: Perihelion)
        ensures
            r == self.elements().perihelion,
    ;

    /// The body's mean distance from its host.
    fn semimajor(&self) -> (r: Nano)
        ensures
            r == self.elements().semimajor,
    ;

    /// The semi-minor axis of the orbit, where the orbit is closed.
    fn semiminor(&self) -> (r: Result<Nano, KeplerError>)
        ensures
            r == SemiAxis(self.elements().semimajor).minor_at(self.elements().eccentricity),
    {
        SemiAxis(self.semimajor()).minor(self.orbital_eccentricity())
    }

    /// The mean anomaly on the day `day` of the orbit: the seed of the
    /// anomalies.
    fn mean_motion(&self, day: Nano) -> (r: Result<Nano, KeplerError>)
        ensures
            r == MeanMotion::anomaly_at(
                day,
                self.elements().perihelion,
                self.elements().orbital_period,
            ),
    {
        MeanMotion.at(day, self.perihelion(), self.orbital_period())
    }

    /// The date on the body at `julian_date`, given the true anomaly that
    /// the body has then.
    fn to_date(&self, julian_date: Nano, true_anomaly: Nano) -> (r: Result<Date, KeplerError>)
        ensures
            Date::is_outcome(
                r,
                julian_date,
                self.elements().epoch,
                self.elements().rotational_period,
                self.elements().perihelion,
                self.elements().orbital_period,
                true_anomaly,
            ),
    {
        Date::default().compute(
            julian_date,
            self.epoch(),
            self.rotational_period(),
            self.perihelion(),
            self.orbital_period(),
            true_anomaly,
        )
    }

    /// Begins the reckoning of the date on the body at `julian_date`.
    fn reckon(&self, julian_date: Nano) -> (r: Result<Reckoning, KeplerError>)
        ensures
            r == Reckoning::begin(self.elements(), julian_date),
    {
        let elapsed = match Date::elapsed(
            julian_date,
            self.epoch(),
            self.rotational_period(),
            self.orbital_period(),
        ) {
            Ok(elapsed) => elapsed,
            Err(e) => {
                return Err(e);
            },
        };
        let seed = match self.mean_motion(elapsed.day) {
            Ok(seed) => seed,
            Err(e) => {
                return Err(e);
            },
        };
        let eccentricity = self.orbital_eccentricity();
        let shape = Type::Unknown.shape(eccentricity);
        let solve = match Anomaly.eccentric(shape, seed, eccentricity, self.semimajor()) {
            Ok(solve) => solve,
            Err(e) => {
                return Err(e);
            },
        };
        match self.stage(seed, solve) {
            Ok(stage) => Ok(Reckoning { julian_date, seed, stage }),
            Err(e) => Err(e),
        }
    }

    /// The stage that a solve for `seed` has come to.
    fn stage(&self, seed: Nano, solve: Solve) -> (r: Result<Stage, KeplerError>)
        ensures
            r == Reckoning::stage_of(self.elements(), seed, solve),
    {
        match solve {
            Solve::Settled(eccentric) => {
                let eccentricity = self.orbital_eccentricity();
                let shape = Type::Unknown.shape(eccentricity);
                match Anomaly.truly(seed, shape, eccentricity, self.semimajor(), eccentric) {
                    Ok(state) => Ok(Stage::Resolving(state)),
                    Err(e) => Err(e),
                }
            },
            _ => Ok(Stage::Solving(solve)),
        }
    }

    /// Carries a reckoning one step on with the answer to what it asked
    /// for.
    fn follow(&self, reckoning: Reckoning, answer: Answer) -> (r: Result<Reckoning, KeplerError>)
        ensures
            r == reckoning.step(self.elements(), answer),
    {
        match reckoning.stage {
            Stage::Solving(solve) => {
                match answer {
                    Answer::Pair(at) => {
                        match Anomaly.refine(solve, at) {
                            Err(e) => Err(e),
                            Ok(next) => {
                                match self.stage(reckoning.seed, next) {
                                    Err(e) => Err(e),
                                    Ok(stage) => Ok(
                                        Reckoning {
                                            julian_date: reckoning.julian_date,
                                            seed: reckoning.seed,
                                            stage,
                                        },
                                    ),
                                }
                            },
                        }
                    },
                    Answer::Value(value) => Err(KeplerError::DomainPrecondition),
                }
            },
            Stage::Resolving(state) => {
                match answer {
                    Answer::Value(value) => {
                        match Anomaly.resolve(state, value) {
                            Err(e) => Err(e),
                            Ok(next) => Ok(
                                Reckoning {
                                    julian_date: reckoning.julian_date,
                                    seed: reckoning.seed,
                                    stage: Stage::Resolving(next),
                                },
                            ),
                        }
                    },
                    Answer::Pair(at) => Err(KeplerError::DomainPrecondition),
                }
            },
        }
    }

    /// The date that a reckoning has come to, once the true anomaly of its
    /// day has been found: the date at the Julian date of the reckoning,
    /// composed from that anomaly. While something is asked, there is none.
    fn dated(&self, reckoning: Reckoning) -> (r: Option<Result<Date, KeplerError>>)
        ensures
            match reckoning.anomaly() {
                Some(true_anomaly) => r matches Some(outcome) && Date::is_outcome(
                    outcome,
                    reckoning.julian_date,
                    self.elements().epoch,
                    self.elements().rotational_period,
                    self.elements().perihelion,
                    self.elements().orbital_period,
                    true_anomaly,
                ),
                None => r is None,
            },
    {
        match reckoning.stage {
            Stage::Resolving(TrueAnomaly::Exact(true_anomaly)) => Some(
                self.to_date(reckoning.julian_date, true_anomaly),
            ),
            _ => None,
        }
    }

    /// The time on the body on the date `date`.
    fn to_time(&self, date: Date) -> Time;
}

} // verus!
