//! What holds of every calendar.

use crate::anomaly::laws::{lemma_run_and_step, lemma_truly_run_and_step, resolved, solved};
use crate::anomaly::{Functions, Solve, TrueAnomaly};
use crate::kepler::{
    day_of_orbit, elapsed_days, year_of, Answer, Date, Elapsed, Elements, Reckoning, Stage,
    INITIAL_YEAR,
};
use crate::orbit::{KeplerError, MeanMotion, Perihelion, Type};
use crate::planets::EARTH_ROTATIONAL_PERIOD;
use crate::quantity::{Nano, SCALE};
use vstd::arithmetic::div_mod::{
    lemma_div_is_ordered, lemma_fundamental_div_mod, lemma_fundamental_div_mod_converse,
    lemma_hoist_over_denominator, lemma_mod_bound, lemma_mod_multiples_vanish,
};
use vstd::prelude::*;

verus! {

/// The elements of an orbit have a shape, a mean anomaly on every day,
/// and a calendar: nothing about them is outside a domain.
pub proof fn lemma_orbit_is_within_every_domain(of: Elements, julian_date: Nano, day: Nano)
    requires
        of.wf(),
    ensures
        Type::of(of.eccentricity) != Type::Unknown,
        MeanMotion::anomaly_at(day, of.perihelion, of.orbital_period) is Ok,
        Date::refusal(
            julian_date,
            of.epoch,
            of.rotational_period,
            of.perihelion,
            of.orbital_period,
        ) != Some(KeplerError::DomainPrecondition),
{
}

/// The calendar begins at the epoch: there no day has passed, and the
/// year is the initial one.
pub proof fn lemma_calendar_begins_at_epoch(
    epoch: Nano,
    rotational_period: Nano,
    orbital_period: Nano,
)
    requires
        rotational_period.units > 0,
        orbital_period.units > 0,
    ensures
        Date::elapsed_at(epoch, epoch, rotational_period, orbital_period) == Ok::<
            Elapsed,
            KeplerError,
        >(Elapsed { year: INITIAL_YEAR, day: Nano { units: 0 } }),
{
    assert(elapsed_days(epoch, epoch, rotational_period) == 0) by (nonlinear_arith)
        requires
            rotational_period.units > 0,
            elapsed_days(epoch, epoch, rotational_period) == (epoch.units - epoch.units)
                * EARTH_ROTATIONAL_PERIOD / (rotational_period.units as int),
    ;
}

/// One orbit later the body is on the same day of its orbit, in the next
/// year.
pub proof fn lemma_one_orbit_later(elapsed: int, orbital_period: Nano)
    requires
        orbital_period.units > 0,
    ensures
        year_of(elapsed + orbital_period.units, orbital_period) == year_of(elapsed, orbital_period)
            + 1,
        day_of_orbit(elapsed + orbital_period.units, orbital_period) == day_of_orbit(
            elapsed,
            orbital_period,
        ),
{
    let p: int = orbital_period.units as int;
    lemma_hoist_over_denominator(elapsed, 1, p as nat);
    lemma_mod_multiples_vanish(1, elapsed, p);
}

/// When `later` is one orbital period after `julian_date`, to the
/// billionth of a day of the body, that period more has elapsed: the
/// day of the orbit is the same, and the year the next.
pub proof fn lemma_elapsed_after_one_orbit(
    julian_date: Nano,
    later: Nano,
    epoch: Nano,
    rotational_period: Nano,
    orbital_period: Nano,
)
    requires
        rotational_period.units > 0,
        orbital_period.units > 0,
        (later.units - julian_date.units) * EARTH_ROTATIONAL_PERIOD == orbital_period.units
            * rotational_period.units,
    ensures
        elapsed_days(later, epoch, rotational_period) == elapsed_days(
            julian_date,
            epoch,
            rotational_period,
        ) + orbital_period.units,
        year_of(elapsed_days(later, epoch, rotational_period), orbital_period) == year_of(
            elapsed_days(julian_date, epoch, rotational_period),
            orbital_period,
        ) + 1,
        day_of_orbit(elapsed_days(later, epoch, rotational_period), orbital_period)
            == day_of_orbit(elapsed_days(julian_date, epoch, rotational_period), orbital_period),
{
    let earth: int = EARTH_ROTATIONAL_PERIOD as int;
    let before: int = (julian_date.units - epoch.units) * earth;
    let after: int = (later.units - epoch.units) * earth;
    assert(after == before + orbital_period.units * rotational_period.units)
        by (nonlinear_arith)
        requires
            before == (julian_date.units - epoch.units) * earth,
            after == (later.units - epoch.units) * earth,
            (later.units - julian_date.units) * earth == orbital_period.units
                * rotational_period.units,
    ;
    lemma_hoist_over_denominator(
        before,
        orbital_period.units as int,
        rotational_period.units as nat,
    );
    lemma_one_orbit_later(elapsed_days(julian_date, epoch, rotational_period), orbital_period);
}

/// As the Julian date goes on, what has elapsed does not grow less, nor
/// does the year go back.
pub proof fn lemma_elapsed_is_monotonic(
    earlier: Nano,
    later: Nano,
    epoch: Nano,
    rotational_period: Nano,
    orbital_period: Nano,
)
    requires
        rotational_period.units > 0,
        orbital_period.units > 0,
        earlier.units <= later.units,
    ensures
        elapsed_days(earlier, epoch, rotational_period) <= elapsed_days(
            later,
            epoch,
            rotational_period,
        ),
        year_of(elapsed_days(earlier, epoch, rotational_period), orbital_period) <= year_of(
            elapsed_days(later, epoch, rotational_period),
            orbital_period,
        ),
{
    let earth: int = EARTH_ROTATIONAL_PERIOD as int;
    let before: int = (earlier.units - epoch.units) * earth;
    let after: int = (later.units - epoch.units) * earth;
    assert(before <= after) by (nonlinear_arith)
        requires
            before == (earlier.units - epoch.units) * earth,
            after == (later.units - epoch.units) * earth,
            earlier.units <= later.units,
            earth > 0,
    ;
    lemma_div_is_ordered(before, after, rotational_period.units as int);
    lemma_div_is_ordered(
        elapsed_days(earlier, epoch, rotational_period),
        elapsed_days(later, epoch, rotational_period),
        orbital_period.units as int,
    );
}

/// Once the Julian date has gone on by a full orbital period or more,
/// the year is greater.
pub proof fn lemma_elapsed_over_one_orbit(
    earlier: Nano,
    later: Nano,
    epoch: Nano,
    rotational_period: Nano,
    orbital_period: Nano,
)
    requires
        rotational_period.units > 0,
        orbital_period.units > 0,
        (later.units - earlier.units) * EARTH_ROTATIONAL_PERIOD >= orbital_period.units
            * rotational_period.units,
    ensures
        year_of(elapsed_days(later, epoch, rotational_period), orbital_period) >= year_of(
            elapsed_days(earlier, epoch, rotational_period),
            orbital_period,
        ) + 1,
{
    let earth: int = EARTH_ROTATIONAL_PERIOD as int;
    let period: int = orbital_period.units as int;
    let rotation: int = rotational_period.units as int;
    let before: int = (earlier.units - epoch.units) * earth;
    let after: int = (later.units - epoch.units) * earth;
    assert(before + period * rotation <= after) by (nonlinear_arith)
        requires
            before == (earlier.units - epoch.units) * earth,
            after == (later.units - epoch.units) * earth,
            (later.units - earlier.units) * earth >= period * rotation,
    ;
    lemma_hoist_over_denominator(before, period, rotation as nat);
    lemma_div_is_ordered(before + period * rotation, after, rotation);
    lemma_one_orbit_later(before / rotation, orbital_period);
    lemma_div_is_ordered(before / rotation + period, after / rotation, period);
}

/// A date composed at the epoch is the first day of the initial year.
pub proof fn lemma_date_at_epoch(
    date: Date,
    epoch: Nano,
    rotational_period: Nano,
    peri: Perihelion,
    orbital_period: Nano,
    true_anomaly: Nano,
)
    requires
        rotational_period.units > 0,
        orbital_period.units > 0,
        date.composes(epoch, epoch, rotational_period, peri, orbital_period, true_anomaly),
    ensures
        date.day == 1,
        date.year == INITIAL_YEAR,
{
    lemma_calendar_begins_at_epoch(epoch, rotational_period, orbital_period);
    assert(day_of_orbit(0, orbital_period) == 0) by (nonlinear_arith)
        requires
            orbital_period.units > 0,
            day_of_orbit(0, orbital_period) == 0int % (orbital_period.units as int),
    ;
    assert(year_of(0, orbital_period) == INITIAL_YEAR) by (nonlinear_arith)
        requires
            orbital_period.units > 0,
            year_of(0, orbital_period) == INITIAL_YEAR + 0int / (orbital_period.units as int),
    ;
    assert(0int / (SCALE as int) == 0);
}

/// The calendar is periodic: of two dates composed one orbital period
/// apart, to the billionth of a day of the body, the second has the day of
/// the first and the next year. Where the body has the same true anomaly
/// on both, as it has on the same day of its orbit, the month, the solar
/// longitude and the season are the same too.
pub proof fn lemma_date_repeats_after_one_orbit(
    first: Date,
    second: Date,
    julian_date: Nano,
    later: Nano,
    epoch: Nano,
    rotational_period: Nano,
    peri: Perihelion,
    orbital_period: Nano,
    first_anomaly: Nano,
    second_anomaly: Nano,
)
    requires
        rotational_period.units > 0,
        orbital_period.units > 0,
        (later.units - julian_date.units) * EARTH_ROTATIONAL_PERIOD == orbital_period.units
            * rotational_period.units,
        first.composes(
            julian_date,
            epoch,
            rotational_period,
            peri,
            orbital_period,
            first_anomaly,
        ),
        second.composes(later, epoch, rotational_period, peri, orbital_period, second_anomaly),
    ensures
        second.day == first.day,
        second.year == first.year + 1,
        first_anomaly == second_anomaly ==> second.month == first.month && second.ls == first.ls
            && second.season@ == first.season@,
{
    lemma_elapsed_after_one_orbit(julian_date, later, epoch, rotational_period, orbital_period);
}

/// The mean anomaly is periodic: one orbital period later it is the same.
pub proof fn lemma_mean_anomaly_repeats(day: Nano, later: Nano, peri: Perihelion, orbital_period: Nano)
    requires
        orbital_period.units > 0,
        later.units == day.units + orbital_period.units,
    ensures
        MeanMotion::anomaly_at(later, peri, orbital_period) == MeanMotion::anomaly_at(
            day,
            peri,
            orbital_period,
        ),
{
    lemma_mod_multiples_vanish(
        1,
        day.units - peri.perihelion.units,
        orbital_period.units as int,
    );
}

/// The year never goes back: of two dates, the later has no lesser year.
pub proof fn lemma_year_is_monotonic(
    first: Date,
    second: Date,
    earlier: Nano,
    later: Nano,
    epoch: Nano,
    rotational_period: Nano,
    peri: Perihelion,
    orbital_period: Nano,
    first_anomaly: Nano,
    second_anomaly: Nano,
)
    requires
        rotational_period.units > 0,
        orbital_period.units > 0,
        earlier.units <= later.units,
        first.composes(earlier, epoch, rotational_period, peri, orbital_period, first_anomaly),
        second.composes(later, epoch, rotational_period, peri, orbital_period, second_anomaly),
    ensures
        first.year <= second.year,
{
    lemma_elapsed_is_monotonic(earlier, later, epoch, rotational_period, orbital_period);
}

/// The year goes up with every orbit: of two dates a full orbital period
/// or more apart, the later has a greater year.
pub proof fn lemma_year_increments_with_orbit(
    first: Date,
    second: Date,
    earlier: Nano,
    later: Nano,
    epoch: Nano,
    rotational_period: Nano,
    peri: Perihelion,
    orbital_period: Nano,
    first_anomaly: Nano,
    second_anomaly: Nano,
)
    requires
        rotational_period.units > 0,
        orbital_period.units > 0,
        (later.units - earlier.units) * EARTH_ROTATIONAL_PERIOD >= orbital_period.units
            * rotational_period.units,
        first.composes(earlier, epoch, rotational_period, peri, orbital_period, first_anomaly),
        second.composes(later, epoch, rotational_period, peri, orbital_period, second_anomaly),
    ensures
        first.year < second.year,
{
    lemma_elapsed_over_one_orbit(earlier, later, epoch, rotational_period, orbital_period);
}

/// When the Julian date has gone on by one orbital period, rounded up to
/// the billionth of a day of the Earth, that period has elapsed on the
/// body, or a billionth of its day more.
pub proof fn lemma_elapsed_after_about_one_orbit(
    julian_date: Nano,
    later: Nano,
    epoch: Nano,
    rotational_period: Nano,
    orbital_period: Nano,
)
    requires
        rotational_period.units > 0,
        orbital_period.units > 0,
        orbital_period.units * rotational_period.units <= (later.units - julian_date.units)
            * EARTH_ROTATIONAL_PERIOD < orbital_period.units * rotational_period.units
            + rotational_period.units,
    ensures
        ({
            let before = elapsed_days(julian_date, epoch, rotational_period);
            let after = elapsed_days(later, epoch, rotational_period);
            after == before + orbital_period.units || after == before + orbital_period.units + 1
        }),
{
    let earth: int = EARTH_ROTATIONAL_PERIOD as int;
    let period: int = orbital_period.units as int;
    let rotation: int = rotational_period.units as int;
    let before: int = (julian_date.units - epoch.units) * earth;
    let after: int = (later.units - epoch.units) * earth;
    assert(before + period * rotation <= after < before + (period + 1) * rotation)
        by (nonlinear_arith)
        requires
            before == (julian_date.units - epoch.units) * earth,
            after == (later.units - epoch.units) * earth,
            period * rotation <= (later.units - julian_date.units) * earth < period * rotation
                + rotation,
    ;
    lemma_hoist_over_denominator(before, period, rotation as nat);
    lemma_hoist_over_denominator(before, period + 1, rotation as nat);
    lemma_div_is_ordered(before + period * rotation, after, rotation);
    lemma_div_is_ordered(after, before + (period + 1) * rotation, rotation);
}

/// The calendar is periodic to the billionth of a day: of two dates
/// composed one orbital period apart, the period rounded up to the
/// billionth of a day of the Earth, the second falls in the next year on
/// the day of the first, or on the day after where the billionth more
/// begins a new day, which at the end of an orbit is the first day of the
/// year after.
pub proof fn lemma_date_repeats_after_about_one_orbit(
    first: Date,
    second: Date,
    julian_date: Nano,
    later: Nano,
    epoch: Nano,
    rotational_period: Nano,
    peri: Perihelion,
    orbital_period: Nano,
    first_anomaly: Nano,
    second_anomaly: Nano,
)
    requires
        rotational_period.units > 0,
        orbital_period.units > 0,
        orbital_period.units * rotational_period.units <= (later.units - julian_date.units)
            * EARTH_ROTATIONAL_PERIOD < orbital_period.units * rotational_period.units
            + rotational_period.units,
        first.composes(
            julian_date,
            epoch,
            rotational_period,
            peri,
            orbital_period,
            first_anomaly,
        ),
        second.composes(later, epoch, rotational_period, peri, orbital_period, second_anomaly),
    ensures
        ({
            ||| second.year == first.year + 1 && second.day == first.day
            ||| second.year == first.year + 1 && second.day == first.day + 1
            ||| second.year == first.year + 2 && second.day == 1
        }),
{
    let period: int = orbital_period.units as int;
    let one: int = SCALE as int;
    let before: int = elapsed_days(julian_date, epoch, rotational_period);
    let after: int = elapsed_days(later, epoch, rotational_period);
    lemma_elapsed_after_about_one_orbit(
        julian_date,
        later,
        epoch,
        rotational_period,
        orbital_period,
    );
    lemma_one_orbit_later(before, orbital_period);
    if after == before + period + 1 {
        // A billionth on: the same stretch of the orbit, or the start of
        // the next.
        let day: int = day_of_orbit(before, orbital_period);
        lemma_mod_bound(before, period);
        lemma_fundamental_div_mod(before, period);
        let turns: int = before / period;
        if day + 1 < period {
            assert(before + period + 1 == (turns + 1) * period + (day + 1)) by (nonlinear_arith)
                requires
                    before == period * turns + day,
            ;
            lemma_fundamental_div_mod_converse(
                before + period + 1,
                period,
                before / period + 1,
                day + 1,
            );
            lemma_fundamental_div_mod(day, one);
            lemma_mod_bound(day, one);
            if day % one + 1 < one {
                lemma_fundamental_div_mod_converse(day + 1, one, day / one, day % one + 1);
            } else {
                lemma_fundamental_div_mod_converse(day + 1, one, day / one + 1, 0);
            }
        } else {
            assert(before + period + 1 == (turns + 2) * period + 0) by (nonlinear_arith)
                requires
                    before == period * turns + day,
                    day + 1 == period,
            ;
            lemma_fundamental_div_mod_converse(before + period + 1, period, before / period + 2, 0);
            assert(0int / one == 0);
        }
    }
}

/// A reckoning begins with its day: the seed that its solve is opened
/// for is the mean anomaly of the day of the orbit at its Julian date.
pub proof fn lemma_reckoning_begins_with_its_day(of: Elements, julian_date: Nano)
    ensures
        Reckoning::begin(of, julian_date) matches Ok(reckoning) ==> reckoning.julian_date
            == julian_date && reckoning.belongs(of),
{
}

/// A reckoning stays with its day: whatever is answered, the Julian date
/// and the seed are kept, and the solve goes on working on that seed.
pub proof fn lemma_reckoning_stays_with_its_day(reckoning: Reckoning, of: Elements, answer: Answer)
    requires
        reckoning.belongs(of),
    ensures
        reckoning.step(of, answer) matches Ok(next) ==> next.julian_date == reckoning.julian_date
            && next.seed == reckoning.seed && next.belongs(of),
{
}

/// Running a reckoning keeps it with its day.
pub proof fn lemma_run_stays_with_its_day(reckoning: Reckoning, of: Elements, answers: Seq<Answer>)
    requires
        reckoning.belongs(of),
    ensures
        reckoning.run(of, answers) matches Ok(last) ==> last.julian_date == reckoning.julian_date
            && last.seed == reckoning.seed && last.belongs(of),
    decreases answers.len(),
{
    if answers.len() > 0 {
        lemma_reckoning_stays_with_its_day(reckoning, of, answers[0]);
        if let Ok(next) = reckoning.step(of, answers[0]) {
            lemma_run_stays_with_its_day(next, of, answers.skip(1));
        }
    }
}

/// Whether the anomaly of a reckoning follows from its seed: there are
/// answers with which the solve for the seed, on the orbit of the body,
/// comes to where the reckoning stands, and, once the true anomaly is under
/// way, the solve has settled on an eccentric anomaly from which the true
/// anomaly comes to where the reckoning stands.
pub open spec fn follows_from_the_seed(reckoning: Reckoning, of: Elements) -> bool {
    let shape = Type::of(of.eccentricity);
    match reckoning.stage {
        Stage::Solving(solve) => exists|pairs: Seq<Functions>| #[trigger]
            solved(shape, reckoning.seed, of.eccentricity, of.semimajor, pairs) == Ok::<
                Solve,
                KeplerError,
            >(solve),
        Stage::Resolving(state) => exists|pairs: Seq<Functions>, eccentric: Nano, values: Seq<Nano>|
            #![trigger
                solved(shape, reckoning.seed, of.eccentricity, of.semimajor, pairs),
                resolved(reckoning.seed, shape, of.eccentricity, of.semimajor, eccentric, values),
            ]
            solved(shape, reckoning.seed, of.eccentricity, of.semimajor, pairs) == Ok::<
                Solve,
                KeplerError,
            >(Solve::Settled(eccentric)) && resolved(
                reckoning.seed,
                shape,
                of.eccentricity,
                of.semimajor,
                eccentric,
                values,
            ) == Ok::<TrueAnomaly, KeplerError>(state),
    }
}

/// Where a solve that follows from the seed has come to follows from the
/// seed.
proof fn lemma_stage_follows(
    of: Elements,
    julian_date: Nano,
    seed: Nano,
    pairs: Seq<Functions>,
    solve: Solve,
)
    requires
        solved(Type::of(of.eccentricity), seed, of.eccentricity, of.semimajor, pairs) == Ok::<
            Solve,
            KeplerError,
        >(solve),
    ensures
        Reckoning::stage_of(of, seed, solve) matches Ok(stage) ==> follows_from_the_seed(
            Reckoning { julian_date, seed, stage },
            of,
        ),
{
    let shape = Type::of(of.eccentricity);
    if let Ok(stage) = Reckoning::stage_of(of, seed, solve) {
        match solve {
            Solve::Settled(eccentric) => {
                let state = stage->Resolving_0;
                let none = Seq::<Nano>::empty();
                assert(state.run(none) == Ok::<TrueAnomaly, KeplerError>(state));
                assert(resolved(seed, shape, of.eccentricity, of.semimajor, eccentric, none)
                    == Ok::<TrueAnomaly, KeplerError>(state));
            },
            _ => {},
        }
    }
}

/// A reckoning begins with an anomaly that follows from its seed.
pub proof fn lemma_reckoning_begins_from_the_seed(of: Elements, julian_date: Nano)
    ensures
        Reckoning::begin(of, julian_date) matches Ok(reckoning) ==> follows_from_the_seed(
            reckoning,
            of,
        ),
{
    if let Ok(reckoning) = Reckoning::begin(of, julian_date) {
        let shape = Type::of(of.eccentricity);
        let solve = Solve::begin(shape, reckoning.seed, of.eccentricity, of.semimajor)->Ok_0;
        let none = Seq::<Functions>::empty();
        assert(solve.run(none) == Ok::<Solve, KeplerError>(solve));
        lemma_stage_follows(of, julian_date, reckoning.seed, none, solve);
    }
}

/// Whatever is answered, the anomaly of a reckoning goes on following
/// from its seed.
pub proof fn lemma_reckoning_follows_the_seed(reckoning: Reckoning, of: Elements, answer: Answer)
    requires
        follows_from_the_seed(reckoning, of),
    ensures
        reckoning.step(of, answer) matches Ok(next) ==> follows_from_the_seed(next, of),
{
    let shape = Type::of(of.eccentricity);
    if let Ok(next) = reckoning.step(of, answer) {
        match reckoning.stage {
            Stage::Solving(solve) => {
                let at = answer->Pair_0;
                let pairs = choose|pairs: Seq<Functions>| #[trigger]
                    solved(shape, reckoning.seed, of.eccentricity, of.semimajor, pairs) == Ok::<
                        Solve,
                        KeplerError,
                    >(solve);
                let first = Solve::begin(shape, reckoning.seed, of.eccentricity, of.semimajor)->Ok_0;
                lemma_run_and_step(first, pairs, at);
                lemma_stage_follows(
                    of,
                    reckoning.julian_date,
                    reckoning.seed,
                    pairs.push(at),
                    solve.step(at)->Ok_0,
                );
            },
            Stage::Resolving(state) => {
                let value = answer->Value_0;
                let (pairs, eccentric, values) = choose|
                    pairs: Seq<Functions>,
                    eccentric: Nano,
                    values: Seq<Nano>,
                |
                    #![trigger
                        solved(shape, reckoning.seed, of.eccentricity, of.semimajor, pairs),
                        resolved(
                            reckoning.seed,
                            shape,
                            of.eccentricity,
                            of.semimajor,
                            eccentric,
                            values,
                        ),
                    ]
                    solved(shape, reckoning.seed, of.eccentricity, of.semimajor, pairs) == Ok::<
                        Solve,
                        KeplerError,
                    >(Solve::Settled(eccentric)) && resolved(
                        reckoning.seed,
                        shape,
                        of.eccentricity,
                        of.semimajor,
                        eccentric,
                        values,
                    ) == Ok::<TrueAnomaly, KeplerError>(state);
                let first = TrueAnomaly::begin(
                    reckoning.seed,
                    shape,
                    of.eccentricity,
                    of.semimajor,
                    eccentric,
                )->Ok_0;
                lemma_truly_run_and_step(first, values, value);
                assert(resolved(
                    reckoning.seed,
                    shape,
                    of.eccentricity,
                    of.semimajor,
                    eccentric,
                    values.push(value),
                ) == Ok::<TrueAnomaly, KeplerError>(next.stage->Resolving_0));
            },
        }
    }
}

/// The anomaly that a date is composed from belongs to its day. Whatever
/// the answers, the reckoning that begins at a Julian date ends, if it
/// ends, at that date, with the mean anomaly of the day of the orbit at
/// that date for its seed, and with a true anomaly that followed from the
/// eccentric anomaly on which the solve for that seed settled.
pub proof fn lemma_reckoned_anomaly_follows_from_the_day(
    of: Elements,
    julian_date: Nano,
    answers: Seq<Answer>,
)
    ensures
        Reckoning::begin(of, julian_date) matches Ok(first) ==> (first.run(of, answers) matches Ok(
            last,
        ) ==> last.julian_date == julian_date && last.belongs(of) && follows_from_the_seed(
            last,
            of,
        )),
{
    lemma_reckoning_begins_with_its_day(of, julian_date);
    lemma_reckoning_begins_from_the_seed(of, julian_date);
    if let Ok(first) = Reckoning::begin(of, julian_date) {
        lemma_run_stays_with_its_day(first, of, answers);
        lemma_run_follows_the_seed(first, of, answers);
    }
}

/// Running a reckoning keeps its anomaly following from its seed.
pub proof fn lemma_run_follows_the_seed(reckoning: Reckoning, of: Elements, answers: Seq<Answer>)
    requires
        follows_from_the_seed(reckoning, of),
    ensures
        reckoning.run(of, answers) matches Ok(last) ==> follows_from_the_seed(last, of),
    decreases answers.len(),
{
    if answers.len() > 0 {
        lemma_reckoning_follows_the_seed(reckoning, of, answers[0]);
        if let Ok(next) = reckoning.step(of, answers[0]) {
            lemma_run_follows_the_seed(next, of, answers.skip(1));
        }
    }
}

} // verus!
