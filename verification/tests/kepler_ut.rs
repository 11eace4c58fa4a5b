use rust_solar::kepler::{Date, Elapsed, Eras, HourType, Time, INITIAL_YEAR};
use rust_solar::orbit::{KeplerError, Perihelion};
use rust_solar::planets::EARTH_ROTATIONAL_PERIOD;
use rust_solar::quantity::Nano;

const EPOCH: i64 = 2_442_765_667_000_000;
const SOL: i64 = 88_775_245_000_000;
const YEAR: i64 = 668_600_000_000;

fn window() -> Perihelion {
    Perihelion {
        month: (Nano::new(468_500_000_000), Nano::new(514_600_000_000)),
        ls: (Nano::new(240_000_000_000), Nano::new(270_000_000_000)),
        perihelion: Nano::new(251_000_000_000),
    }
}

/// A true anomaly that puts the body at the very start of its year.
const NEW_YEAR: i64 = 2_094_395_103;

fn compose(julian_date: i64, true_anomaly: i64) -> Result<Date, KeplerError> {
    Date::default().compute(
        Nano::new(julian_date),
        Nano::new(EPOCH),
        Nano::new(SOL),
        window(),
        Nano::new(YEAR),
        Nano::new(true_anomaly),
    )
}

#[test]
fn earth_day_is_86400_seconds() {
    assert_eq!(EARTH_ROTATIONAL_PERIOD, 86_400_000_000_000);
    assert_eq!(INITIAL_YEAR, 12);
}

#[test]
fn default_date_is_blank() {
    let date = Date::default();
    assert_eq!(date.era, Eras::Unknown);
    assert_eq!((date.year, date.month, date.day), (0, 0, 0));
    assert_eq!(date.ls, Nano::new(0));
    assert_eq!(date.season, "");
}

#[test]
fn date_at_the_epoch_is_the_first_day() {
    // Whatever the anomaly, the epoch is day 1 of the initial year.
    for anomaly in [-3_141_592_653, -2_480_200_000, 0, NEW_YEAR, 3_141_592_653] {
        let date = compose(EPOCH, anomaly).unwrap();
        assert_eq!(date.day, 1);
        assert_eq!(date.year, INITIAL_YEAR);
        assert_eq!(date.era, Eras::AD);
    }
    // The anomaly that Mars has on day 0 puts it in the fourth month.
    let date = compose(EPOCH, -2_480_200_000).unwrap();
    assert_eq!(date.month, 4);
    assert_eq!(date.season, "Summer");
}

#[test]
fn first_month_begins_where_the_year_begins() {
    let date = compose(EPOCH, NEW_YEAR).unwrap();
    assert_eq!(date.ls, Nano::new(38));
    assert_eq!(date.month, 1);
    assert_eq!(date.season, "Spring");
}

#[test]
fn elapsed_at_the_epoch_is_nothing() {
    let elapsed = Date::elapsed(Nano::new(EPOCH), Nano::new(EPOCH), Nano::new(SOL), Nano::new(YEAR));
    assert_eq!(elapsed, Ok(Elapsed { year: 12, day: Nano::new(0) }));
}

#[test]
fn elapsed_just_before_the_epoch_is_the_end_of_the_year_before() {
    let elapsed =
        Date::elapsed(Nano::new(EPOCH - 1), Nano::new(EPOCH), Nano::new(SOL), Nano::new(YEAR));
    assert_eq!(elapsed, Ok(Elapsed { year: 11, day: Nano::new(668_599_999_999) }));
    let date = compose(EPOCH - 1, NEW_YEAR - 1).unwrap();
    assert_eq!((date.year, date.month, date.day), (11, 12, 669));
    assert_eq!(date.ls, Nano::new(359_999_999_980));
    assert_eq!(date.season, "Winter");
}

#[test]
fn elapsed_on_mars_at_the_unix_epoch() {
    let elapsed = Date::elapsed(
        Nano::new(2_440_587_500_000_000),
        Nano::new(EPOCH),
        Nano::new(SOL),
        Nano::new(YEAR),
    );
    assert_eq!(elapsed, Ok(Elapsed { year: 8, day: Nano::new(554_511_411_689) }));
    let sols = (2_440_587.5_f64 - 2_442_765.667) * 86_400.0 / 88_775.245;
    assert!((sols + 4.0 * 668.6 - 554.511_411_689).abs() < 1e-6);
}

#[test]
fn date_repeats_after_one_orbit() {
    // With a day as long as the Earth's, one orbit is the period in Julian days.
    let earth = Nano::new(EARTH_ROTATIONAL_PERIOD);
    let period = Nano::new(YEAR);
    for start in [EPOCH, EPOCH + 3_000_000_007, EPOCH - 5 * YEAR + 3_000_000_007, 0] {
        let now = Date::elapsed(Nano::new(start), Nano::new(EPOCH), earth, period).unwrap();
        let next = Date::elapsed(Nano::new(start + YEAR), Nano::new(EPOCH), earth, period).unwrap();
        assert_eq!(next.day, now.day);
        assert_eq!(next.year, now.year + 1);
    }
    let there = Date::elapsed(Nano::new(EPOCH + 5 * YEAR + 3_000_000_007), Nano::new(EPOCH), earth, period);
    assert_eq!(there, Ok(Elapsed { year: 17, day: Nano::new(3_000_000_007) }));
    let back = Date::elapsed(Nano::new(EPOCH - 5 * YEAR + 3_000_000_007), Nano::new(EPOCH), earth, period);
    assert_eq!(back, Ok(Elapsed { year: 7, day: Nano::new(3_000_000_007) }));
}

#[test]
fn year_goes_up_with_each_orbit_of_mars() {
    // 668.6 sols of 88 775.245 s are 686.980657488… days of the Earth.
    let orbit: i64 = 686_980_657_489;
    let mut julian_date: i64 = 2_440_587_500_000_000;
    let mut year = compose(julian_date, NEW_YEAR).unwrap().year;
    assert_eq!(year, 8);
    for _ in 0..10 {
        julian_date += orbit;
        let next = compose(julian_date, NEW_YEAR).unwrap();
        assert_eq!(next.year, year + 1);
        assert_eq!(next.day, 555);
        year = next.year;
    }
}

#[test]
fn year_never_goes_back() {
    let mut last = i64::MIN;
    for step in -40..40 {
        let date = compose(EPOCH + step * 100_000_000_000, NEW_YEAR).unwrap();
        assert!(date.year >= last);
        last = date.year;
    }
}

#[test]
fn era_turns_with_year_one() {
    // With a day as long as the Earth's, an orbit is the period in Julian days.
    let at = |julian_date: i64| {
        Date::default()
            .compute(
                Nano::new(julian_date),
                Nano::new(EPOCH),
                Nano::new(EARTH_ROTATIONAL_PERIOD),
                window(),
                Nano::new(YEAR),
                Nano::new(0),
            )
            .unwrap()
    };
    assert_eq!(at(EPOCH - 11 * YEAR).year, 1);
    assert_eq!(at(EPOCH - 11 * YEAR).era, Eras::AD);
    assert_eq!(at(EPOCH - 11 * YEAR - 1).year, 0);
    assert_eq!(at(EPOCH - 11 * YEAR - 1).era, Eras::BD);
    assert_eq!(at(EPOCH - 11 * YEAR - 1).day, 669);
    assert_eq!(at(EPOCH - 20 * YEAR).year, -8);
    assert_eq!(at(EPOCH - 20 * YEAR).era, Eras::BD);
}

#[test]
fn longitude_month_and_season_follow_the_true_anomaly() {
    let cases = [
        (0, 240_000_000_000, 9, "Autumn"),
        (191_986_218, 251_000_000_016, 9, "Autumn"),
        (523_598_776, 270_000_000_023, 10, "Winter"),
        (1_000_000_000, 297_295_779_514, 10, "Winter"),
        (2_094_395_102, 359_999_999_980, 12, "Winter"),
        (2_094_395_103, 38, 1, "Spring"),
        (2_617_993_878, 30_000_000_004, 2, "Spring"),
        (3_141_592_653, 59_999_999_971, 2, "Spring"),
        (4_188_790_205, 120_000_000_019, 5, "Summer"),
        (-1_000_000_000, 182_704_220_485, 7, "Autumn"),
        (-2_094_395_103, 119_999_999_961, 4, "Summer"),
    ];
    for (anomaly, ls, month, season) in cases {
        let date = compose(EPOCH, anomaly).unwrap();
        assert_eq!(date.ls, Nano::new(ls), "anomaly {}", anomaly);
        assert_eq!(date.month, month, "anomaly {}", anomaly);
        assert_eq!(date.season, season, "anomaly {}", anomaly);
    }
}

#[test]
fn month_and_day_are_never_below_one() {
    for anomaly in [i64::MIN, -1, 0, 1, i64::MAX] {
        for julian_date in [EPOCH - 1, EPOCH, EPOCH + 1, 0] {
            let date = compose(julian_date, anomaly).unwrap();
            assert!(date.month >= 1 && date.month <= 12);
            assert!(date.day >= 1 && date.day <= 669);
            assert!(0 <= date.ls.units && date.ls.units < 360_000_000_000);
        }
    }
}

#[test]
fn periods_must_be_positive() {
    for bad in [0, -1, i64::MIN] {
        let no_rotation =
            Date::elapsed(Nano::new(EPOCH), Nano::new(EPOCH), Nano::new(bad), Nano::new(YEAR));
        assert_eq!(no_rotation, Err(KeplerError::DomainPrecondition));
        let no_orbit =
            Date::elapsed(Nano::new(EPOCH), Nano::new(EPOCH), Nano::new(SOL), Nano::new(bad));
        assert_eq!(no_orbit, Err(KeplerError::DomainPrecondition));
        let none = Date::default().compute(
            Nano::new(EPOCH),
            Nano::new(EPOCH),
            Nano::new(SOL),
            window(),
            Nano::new(bad),
            Nano::new(0),
        );
        assert_eq!(none, Err(KeplerError::DomainPrecondition));
    }
}

#[test]
fn months_must_span_a_longitude() {
    let mut peri = window();
    peri.ls = (Nano::new(270_000_000_000), Nano::new(240_000_000_000));
    let date = Date::default().compute(
        Nano::new(EPOCH),
        Nano::new(EPOCH),
        Nano::new(SOL),
        peri,
        Nano::new(YEAR),
        Nano::new(0),
    );
    assert_eq!(date, Err(KeplerError::DomainPrecondition));
}

#[test]
fn year_beyond_the_range_is_refused() {
    let far = Date::elapsed(Nano::new(i64::MAX), Nano::new(i64::MIN), Nano::new(1), Nano::new(1));
    assert_eq!(far, Err(KeplerError::OutOfRange));
    let long_ago = Date::elapsed(Nano::new(i64::MIN), Nano::new(i64::MAX), Nano::new(1), Nano::new(1));
    assert_eq!(long_ago, Err(KeplerError::OutOfRange));
}

#[test]
fn month_wider_than_any_quantity_is_refused() {
    let mut peri = window();
    peri.ls = (Nano::new(-2), Nano::new(i64::MAX));
    let date = Date::default().compute(
        Nano::new(EPOCH),
        Nano::new(EPOCH),
        Nano::new(SOL),
        peri,
        Nano::new(YEAR),
        Nano::new(0),
    );
    assert_eq!(date, Err(KeplerError::OutOfRange));
}

#[test]
fn narrowest_month_is_composed() {
    let mut peri = window();
    peri.ls = (Nano::new(0), Nano::new(1));
    let date = Date::default().compute(
        Nano::new(EPOCH),
        Nano::new(EPOCH),
        Nano::new(SOL),
        peri,
        Nano::new(YEAR),
        Nano::new(-1),
    );
    // One billionth of a radian back from 0° is 359.999999943°.
    assert_eq!(date.unwrap().month, 359_999_999_943);
}

#[test]
fn refusal_for_the_domain_comes_first() {
    let mut peri = window();
    peri.ls = (Nano::new(-2), Nano::new(i64::MAX));
    let date = Date::default().compute(
        Nano::new(i64::MAX),
        Nano::new(i64::MIN),
        Nano::new(1),
        peri,
        Nano::new(0),
        Nano::new(0),
    );
    assert_eq!(date, Err(KeplerError::DomainPrecondition));
    peri.ls = (Nano::new(0), Nano::new(0));
    let date = Date::default().compute(
        Nano::new(i64::MAX),
        Nano::new(i64::MIN),
        Nano::new(1),
        peri,
        Nano::new(1),
        Nano::new(0),
    );
    assert_eq!(date, Err(KeplerError::DomainPrecondition));
}

#[test]
fn extreme_dates_are_composed() {
    let elapsed = Date::elapsed(
        Nano::new(i64::MAX),
        Nano::new(i64::MIN),
        Nano::new(i64::MAX),
        Nano::new(i64::MAX),
    );
    // 2⁶⁴ − 1 billionths of a day, in rotations of 2⁶³ − 1 billionths of a second.
    assert_eq!(elapsed, Ok(Elapsed { year: 12, day: Nano::new(172_800_000_000_000) }));
}

#[test]
fn eras_are_named() {
    assert_eq!(Eras::default(), Eras::Unknown);
    assert_eq!(Eras::AD.as_str(), "AD");
    assert_eq!(Eras::BD.as_str(), "BD");
    assert_eq!(Eras::Unknown.as_str(), "Unknown");
}

#[test]
fn hours_before_noon_are_am() {
    let kind = HourType::default();
    assert_eq!(kind, HourType::Unknown);
    assert_eq!(kind.new(0), "AM");
    assert_eq!(kind.new(11), "AM");
}

#[test]
fn hours_from_noon_are_pm() {
    assert_eq!(HourType::default().new(12), "PM");
    assert_eq!(HourType::default().new(23), "PM");
    assert_eq!(HourType::default().new(24), "PM");
}

#[test]
fn hours_beyond_the_day_are_unknown() {
    assert_eq!(HourType::default().new(25), "Unknown");
    assert_eq!(HourType::default().new(u8::MAX), "Unknown");
    assert_eq!(HourType::AM.new(25), "Unknown");
    assert_eq!(HourType::PM.as_str(), "PM");
}

#[test]
fn unset_time_is_midnight_without_names() {
    let time = Time::default().compute();
    assert_eq!(time, Time::default());
    assert_eq!((time.hour, time.minute, time.second), (0, 0, 0));
    assert_eq!(time.code, "");
    assert_eq!(time.name, "");
    assert_eq!(time.offset_name, "");
    assert_eq!(time.hour_type, "");
}
