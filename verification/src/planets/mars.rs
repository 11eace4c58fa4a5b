//! Mars: its orbital elements, and the clock of its time zones.

use crate::kepler::{Body, Date, Elements, HourType, Time, TimeZone};
use crate::orbit::Perihelion;
use crate::quantity::{div_floor, lemma_quotient_bounds, rem_floor, Nano, SCALE};
use vstd::prelude::*;

verus! {

/// The milliseconds of one day of the Earth.
pub const DAY_MILLIS: i64 = 86_400_000;

/// How far Terrestrial Time runs ahead of the universal clock, in
/// milliseconds: 37 leap seconds and 32.184 seconds.
pub const TT_LEAD_MILLIS: i64 = 69_184;

/// The milliseconds from the Unix epoch (Julian date 2 440 587.5) to the
/// origin of the sol count: 4.5 days after noon of 1 January 2000
/// (Julian date 2 451 545.0), which makes 10 962 days.
pub const ORIGIN_MILLIS: i64 = 947_116_800_000;

/// The length of a sol in days of the Earth: 1.027491252.
pub const MARS_EARTH_RATIO: i64 = 1_027_491_252;

/// The sol count at the origin, in billionths: 44 796.
pub const MIDDAY: i64 = 44_796_000_000_000;

/// What aligns the sol count with midnight at the prime meridian, in
/// billionths of a sol: 0.00096.
pub const ALIGNMENT: i64 = 960_000;

/// The seconds of the 24-hour clock of one sol.
pub const CLOCK_SECONDS: i64 = 86_400;

/// The Mars sol date at `millis` milliseconds after the Unix epoch, in
/// billionths of a sol, rounded down.
pub open spec fn sol_date(millis: u64) -> int {
    (millis + TT_LEAD_MILLIS - ORIGIN_MILLIS) * (SCALE * SCALE) / (DAY_MILLIS * MARS_EARTH_RATIO)
        + MIDDAY - ALIGNMENT
}

/// The seconds that the clock at the prime meridian of Mars shows at
/// `millis`: the part of the sol that has passed, on a clock of 24 hours.
pub open spec fn clock_seconds(millis: u64) -> int {
    (sol_date(millis) % (SCALE as int)) * CLOCK_SECONDS / (SCALE as int)
}

/// The fourth planet from the Sun.
#[derive(Debug, Copy, Clone, PartialEq, Eq, Structural)]
pub struct Mars;

/// The time zones of Mars.
///
/// A zone is one decisol wide, 2.5 hours of the 25 that lie between the
/// westernmost and the easternmost zone. Mars keeps no daylight saving
/// time.
#[derive(Debug, Copy, Clone, PartialEq, Eq, Structural)]
pub enum Martian {
    /// Mars Coordinated Time − 5: Amazonis Time.
    MTCn5,
    /// Mars Coordinated Time − 4: Olympus Time.
    MTCn4,
    /// Mars Coordinated Time − 3: Tharsis Time.
    MTCn3,
    /// Mars Coordinated Time − 2: Marineris Time.
    MTCn2,
    /// Mars Coordinated Time − 1: Argyre Time.
    MTCn1,
    /// Mars Coordinated Time: Noachis Time.
    MTC,
    /// Mars Coordinated Time + 1: Arabia Time.
    MTCp1,
    /// Mars Coordinated Time + 2: Hellas Time.
    MTCp2,
    /// Mars Coordinated Time + 3: Utopia Time.
    MTCp3,
    /// Mars Coordinated Time + 4: Elysium Time.
    MTCp4,
    /// Mars Coordinated Time + 5: Arcadia Time.
    MTCp5,
}

impl Mars {
    /// The elements of Mars.
    ///
    /// The calendar begins on 19 December 1975, at Julian date
    /// 2 442 765.667. The eccentricity is 0.0934 and the semi-major axis
    /// 1.52 astronomical units. An orbit takes 668.6 sols of 88 775.245
    /// seconds. The perihelion reference has the days 468.5 and 514.6, the
    /// solar longitudes 240 and 270, and the perihelion 251.
    pub open spec fn table() -> Elements {
        Elements {
            epoch: Nano { units: 2_442_765_667_000_000 },
            eccentricity: Nano { units: 93_400_000 },
            orbital_period: Nano { units: 668_600_000_000 },
            rotational_period: Nano { units: 88_775_245_000_000 },
            perihelion: Perihelion {
                month: (Nano { units: 468_500_000_000 }, Nano { units: 514_600_000_000 }),
                ls: (Nano { units: 240_000_000_000 }, Nano { units: 270_000_000_000 }),
                perihelion: Nano { units: 251_000_000_000 },
            },
            semimajor: Nano { units: 1_520_000_000 },
        }
    }
}

/// The elements of Mars are those of an orbit.
pub proof fn lemma_mars_is_an_orbit()
    ensures
        Mars::table().wf(),
{
}

impl Body for Mars {
    open spec fn elements(&self) -> Elements {
        Mars::table()
    }

    fn epoch(&self) -> (r: Nano) {
        Nano { units: 2_442_765_667_000_000 }
    }

    fn orbital_eccentricity(&self) -> (r: Nano) {
        Nano { units: 93_400_000 }
    }

    fn orbital_period(&self) -> (r: Nano) {
        Nano { units: 668_600_000_000 }
    }

    fn rotational_period(&self) -> (r: Nano) {
        Nano { units: 88_775_245_000_000 }
    }

    fn perihelion(&self) -> (r: Perihelion) {
        Perihelion {
            month: (Nano { units: 468_500_000_000 }, Nano { units: 514_600_000_000 }),
            ls: (Nano { units: 240_000_000_000 }, Nano { units: 270_000_000_000 }),
            perihelion: Nano { units: 251_000_000_000 },
        }
    }

    fn semimajor(&self) -> (r: Nano) {
        Nano { units: 1_520_000_000 }
    }

    /// Mars keeps no clock of its own yet: the unset time.
    fn to_time(&self, date: Date) -> (r: Time)
        ensures
            r.is_unset(),
    {
        Time::default().compute()
    }
}

impl Martian {
    /// The zone's place in the row of zones, from −5 in the west to 5 in
    /// the east.
    pub open spec fn index(self) -> int {
        match self {
            Martian::MTCn5 => -5,
            Martian::MTCn4 => -4,
            Martian::MTCn3 => -3,
            Martian::MTCn2 => -2,
            Martian::MTCn1 => -1,
            Martian::MTC => 0,
            Martian::MTCp1 => 1,
            Martian::MTCp2 => 2,
            Martian::MTCp3 => 3,
            Martian::MTCp4 => 4,
            Martian::MTCp5 => 5,
        }
    }

    /// The name of the zone's offset.
    pub open spec fn label(self) -> Seq<char> {
        match self {
            Martian::MTCn5 => "MTCn5"@,
            Martian::MTCn4 => "MTCn4"@,
            Martian::MTCn3 => "MTCn3"@,
            Martian::MTCn2 => "MTCn2"@,
            Martian::MTCn1 => "MTCn1"@,
            Martian::MTC => "MTC"@,
            Martian::MTCp1 => "MTCp1"@,
            Martian::MTCp2 => "MTCp2"@,
            Martian::MTCp3 => "MTCp3"@,
            Martian::MTCp4 => "MTCp4"@,
            Martian::MTCp5 => "MTCp5"@,
        }
    }

    /// The zone's code.
    pub open spec fn code_of(self) -> Seq<char> {
        match self {
            Martian::MTCn5 => "AMT"@,
            Martian::MTCn4 => "OT"@,
            Martian::MTCn3 => "TT"@,
            Martian::MTCn2 => "MT"@,
            Martian::MTCn1 => "AGT"@,
            Martian::MTC => "NT"@,
            Martian::MTCp1 => "ABT"@,
            Martian::MTCp2 => "HT"@,
            Martian::MTCp3 => "UT"@,
            Martian::MTCp4 => "ET"@,
            Martian::MTCp5 => "ACT"@,
        }
    }

    /// The zone's name.
    pub open spec fn name_of(self) -> Seq<char> {
        match self {
            Martian::MTCn5 => "Amazonis Time"@,
            Martian::MTCn4 => "Olympus Time"@,
            Martian::MTCn3 => "Tharsis Time"@,
            Martian::MTCn2 => "Marineris Time"@,
            Martian::MTCn1 => "Argyre Time"@,
            Martian::MTC => "Noachis Time"@,
            Martian::MTCp1 => "Arabia Time"@,
            Martian::MTCp2 => "Hellas Time"@,
            Martian::MTCp3 => "Utopia Time"@,
            Martian::MTCp4 => "Elysium Time"@,
            Martian::MTCp5 => "Arcadia Time"@,
        }
    }

    /// The whole hours by which the zone's hour type is moved: those of
    /// its offset east of the prime meridian, none west of it.
    pub open spec fn shift_of(self) -> int {
        if self.index() <= 0 {
            0
        } else {
            self.index() * 5 / 2
        }
    }

    /// The zone's place in the row of zones.
    pub fn decisols(&self) -> (r: i8)
        ensures
            r == self.index(),
            -5 <= r <= 5,
    {
        match self {
            Martian::MTCn5 => -5,
            Martian::MTCn4 => -4,
            Martian::MTCn3 => -3,
            Martian::MTCn2 => -2,
            Martian::MTCn1 => -1,
            Martian::MTC => 0,
            Martian::MTCp1 => 1,
            Martian::MTCp2 => 2,
            Martian::MTCp3 => 3,
            Martian::MTCp4 => 4,
            Martian::MTCp5 => 5,
        }
    }

    /// The zone's offset from Mars Coordinated Time, in hours: 2.5 for
    /// each decisol.
    pub fn offset(&self) -> (r: Nano)
        ensures
            r.units == self.index() * 2_500_000_000,
    {
        let steps: i64 = self.decisols() as i64;
        Nano { units: steps * 2_500_000_000 }
    }

    /// The longitude of the zone's first edge, in degrees: 36 to a zone,
    /// the outermost zones cut off at ±180.
    pub fn east(&self) -> (r: i16)
        ensures
            r == if self.index() == -5 {
                -180
            } else {
                self.index() * 36 - 18
            },
    {
        let steps: i16 = self.decisols() as i16;
        if steps == -5 {
            -180
        } else {
            steps * 36 - 18
        }
    }

    /// The longitude of the zone's second edge, in degrees.
    pub fn west(&self) -> (r: i16)
        ensures
            r == if self.index() == 5 {
                180
            } else {
                self.index() * 36 + 18
            },
    {
        let steps: i16 = self.decisols() as i16;
        if steps == 5 {
            180
        } else {
            steps * 36 + 18
        }
    }

    /// The name of the zone's offset.
    pub fn as_str(&self) -> (s: &'static str)
        ensures
            s@ == self.label(),
    {
        match self {
            Martian::MTCn5 => "MTCn5",
            Martian::MTCn4 => "MTCn4",
            Martian::MTCn3 => "MTCn3",
            Martian::MTCn2 => "MTCn2",
            Martian::MTCn1 => "MTCn1",
            Martian::MTC => "MTC",
            Martian::MTCp1 => "MTCp1",
            Martian::MTCp2 => "MTCp2",
            Martian::MTCp3 => "MTCp3",
            Martian::MTCp4 => "MTCp4",
            Martian::MTCp5 => "MTCp5",
        }
    }

    /// The zone's code.
    pub fn code(&self) -> (s: &'static str)
        ensures
            s@ == self.code_of(),
    {
        match self {
            Martian::MTCn5 => "AMT",
            Martian::MTCn4 => "OT",
            Martian::MTCn3 => "TT",
            Martian::MTCn2 => "MT",
            Martian::MTCn1 => "AGT",
            Martian::MTC => "NT",
            Martian::MTCp1 => "ABT",
            Martian::MTCp2 => "HT",
            Martian::MTCp3 => "UT",
            Martian::MTCp4 => "ET",
            Martian::MTCp5 => "ACT",
        }
    }

    /// The zone's name.
    pub fn name(&self) -> (s: &'static str)
        ensures
            s@ == self.name_of(),
    {
        match self {
            Martian::MTCn5 => "Amazonis Time",
            Martian::MTCn4 => "Olympus Time",
            Martian::MTCn3 => "Tharsis Time",
            Martian::MTCn2 => "Marineris Time",
            Martian::MTCn1 => "Argyre Time",
            Martian::MTC => "Noachis Time",
            Martian::MTCp1 => "Arabia Time",
            Martian::MTCp2 => "Hellas Time",
            Martian::MTCp3 => "Utopia Time",
            Martian::MTCp4 => "Elysium Time",
            Martian::MTCp5 => "Arcadia Time",
        }
    }

    /// The whole hours by which the zone's hour type is moved.
    pub fn shift(&self) -> (r: u8)
        ensures
            r == self.shift_of(),
            r <= 12,
    {
        let steps: i8 = self.decisols();
        if steps <= 0 {
            0
        } else {
            (steps * 5 / 2) as u8
        }
    }
}

impl Default for Martian {
    fn default() -> (r: Martian)
        ensures
            r == Martian::MTC,
    {
        Martian::MTC
    }
}

impl TimeZone for Martian {
    /// The time at `millis` milliseconds after the Unix epoch.
    ///
    /// The hour, minute and second are those of Mars Coordinated Time. The
    /// hour type is that of the hour moved east by the zone's whole hours.
    fn new(&self, millis: u64) -> (t: Time)
        ensures
            t.hour == clock_seconds(millis) / 3_600,
            t.minute == clock_seconds(millis) / 60 % 60,
            t.second == clock_seconds(millis) % 60,
            0 <= t.hour < 24,
            t.minute < 60,
            t.second < 60,
            t.code@ == self.code_of(),
            t.name@ == self.name_of(),
            t.offset_name@ == self.label(),
            t.hour_type@ == HourType::of((t.hour + self.shift_of()) as u8).label(),
    {
        let since: i128 = millis as i128 + TT_LEAD_MILLIS as i128 - ORIGIN_MILLIS as i128;
        let fine: i128 = SCALE as i128 * SCALE as i128;
        assert(DAY_MILLIS * MARS_EARTH_RATIO == 88_775_244_172_800_000) by (nonlinear_arith)
            requires
                DAY_MILLIS == 86_400_000,
                MARS_EARTH_RATIO == 1_027_491_252,
        ;
        let sol: i128 = DAY_MILLIS as i128 * MARS_EARTH_RATIO as i128;
        assert(since * fine <= 0x1_0000_0000_0000_0000 * 1_000_000_000_000_000_000 && since
            * fine >= -1_000_000_000_000 * 1_000_000_000_000_000_000) by (nonlinear_arith)
            requires
                -1_000_000_000_000 <= since <= 0x1_0000_0000_0000_0000,
                fine == 1_000_000_000_000_000_000,
        ;
        let whole: i128 = div_floor(since * fine, sol);
        proof {
            lemma_quotient_bounds(since * fine, sol as int);
        }
        let count: i128 = whole + MIDDAY as i128 - ALIGNMENT as i128;
        let passed: i128 = rem_floor(count, SCALE as i128);
        let seconds: i128 = passed * CLOCK_SECONDS as i128 / SCALE as i128;
        assert(0 <= seconds < 86_400) by (nonlinear_arith)
            requires
                0 <= passed < 1_000_000_000,
                seconds == passed * 86_400 / 1_000_000_000,
        ;
        let hour: i128 = seconds / 3_600;
        let minute: i128 = seconds / 60 % 60;
        let second: i128 = seconds % 60;
        let moved: u8 = hour as u8 + self.shift();
        Time {
            hour: hour as i32,
            minute: minute as u8,
            second: second as u8,
            code: self.code().to_owned(),
            name: self.name().to_owned(),
            offset_name: self.as_str().to_owned(),
            hour_type: HourType::Unknown.new(moved),
        }
    }
}

} // verus!
