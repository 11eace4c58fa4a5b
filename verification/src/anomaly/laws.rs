//! What holds of every solve of Kepler's equation, whatever the answers
//! that it is given.

use crate::anomaly::{
    opposite, Functions, Newton, Solve, TrueAnomaly, MAX_CORRECTIONS, TOLERANCE,
};
use crate::orbit::{KeplerError, Type};
use crate::quantity::{lemma_scaled_is_odd, representable, size, times, Nano, SCALE};
use vstd::arithmetic::div_mod::{lemma_div_is_ordered, lemma_fundamental_div_mod, lemma_mod_bound};
use vstd::prelude::*;

verus! {

/// The solve for the opposite seed: where `solve` stands, seen from the
/// other side of the periapsis.
pub open spec fn reflected(solve: Solve) -> Solve {
    match solve {
        Solve::Seeding(n) => Solve::Seeding(Newton { mirrored: !n.mirrored, ..n }),
        Solve::Refining(n) => Solve::Refining(Newton { mirrored: !n.mirrored, ..n }),
        Solve::Settled(v) => Solve::Settled(opposite(v)),
    }
}

/// The reflection of each state, the same failure.
pub open spec fn reflected_outcome(outcome: Result<Solve, KeplerError>) -> Result<
    Solve,
    KeplerError,
> {
    match outcome {
        Ok(solve) => Ok(reflected(solve)),
        Err(e) => Err(e),
    }
}

/// The outcome of a whole solve: opened for `mean_motion`, then carried on
/// with the answers `answers`.
pub open spec fn solved(
    shape: Type,
    mean_motion: Nano,
    eccentricity: Nano,
    major_axis: Nano,
    answers: Seq<Functions>,
) -> Result<Solve, KeplerError> {
    match Solve::begin(shape, mean_motion, eccentricity, major_axis) {
        Ok(solve) => solve.run(answers),
        Err(e) => Err(e),
    }
}

/// How many answers a solve can still take before it has settled or
/// failed.
pub open spec fn budget(solve: Solve) -> int {
    match solve {
        Solve::Seeding(n) => MAX_CORRECTIONS + 1,
        Solve::Refining(n) => MAX_CORRECTIONS - n.taken,
        Solve::Settled(v) => 0,
    }
}

/// Every state that a well-formed solve reaches is well formed: the count
/// of its corrections stays below the cap.
pub proof fn lemma_run_keeps_count_below_cap(solve: Solve, answers: Seq<Functions>)
    requires
        solve.wf(),
    ensures
        solve.run(answers) is Ok ==> solve.run(answers)->Ok_0.wf(),
    decreases answers.len(),
{
    if answers.len() > 0 {
        if let Ok(next) = solve.step(answers[0]) {
            lemma_run_keeps_count_below_cap(next, answers.skip(1));
        }
    }
}

/// A solve ends: once it has been given as many answers as its budget,
/// one for the lead and the cap's worth for corrections at most, it has
/// settled or failed.
pub proof fn lemma_run_ends_within_budget(solve: Solve, answers: Seq<Functions>)
    requires
        solve.wf(),
        answers.len() >= budget(solve),
    ensures
        solve.run(answers) is Ok ==> solve.run(answers)->Ok_0 is Settled,
    decreases answers.len(),
{
    if answers.len() > 0 {
        if let Ok(next) = solve.step(answers[0]) {
            lemma_run_ends_within_budget(next, answers.skip(1));
        }
    }
}

/// Reflecting a solve of Barker's equation gives the opposite anomaly.
pub proof fn lemma_barker_of_reflected(state: Newton)
    requires
        state.estimate.wf(),
    ensures
        (Newton { mirrored: !state.mirrored, ..state }).barker() == match state.barker() {
            Ok(anomaly) => Ok::<Nano, KeplerError>(opposite(anomaly)),
            Err(e) => Err(e),
        },
    decreases MAX_CORRECTIONS - state.taken,
{
    let other = Newton { mirrored: !state.mirrored, ..state };
    assert(other.barker_slope() == state.barker_slope());
    assert(other.barker_excess() == state.barker_excess());
    if state.taken < MAX_CORRECTIONS && state.barker_slope() > 0 {
        let by = state.barker_excess() / state.barker_slope();
        if representable(state.estimate.units + by) && !(-TOLERANCE <= by <= TOLERANCE)
            && state.taken + 1 < MAX_CORRECTIONS {
            lemma_barker_of_reflected(state.corrected(by));
            assert(other.corrected(by) == Newton {
                mirrored: !state.mirrored,
                ..state.corrected(by)
            });
        }
    }
}

/// Reflecting a solve and stepping it commute.
pub proof fn lemma_step_of_reflected(solve: Solve, at: Functions)
    requires
        solve.wf(),
        solve is Settled ==> solve->Settled_0.wf(),
    ensures
        reflected(solve).step(at) == reflected_outcome(solve.step(at)),
        solve.step(at) matches Ok(Solve::Settled(v)) ==> v.wf(),
{
    match solve {
        Solve::Seeding(n) => {
            let other = Newton { mirrored: !n.mirrored, ..n };
            assert(other.lead(at) == n.lead(at));
        },
        Solve::Refining(n) => {
            let other = Newton { mirrored: !n.mirrored, ..n };
            assert(other.residual(at) == n.residual(at));
            assert(other.slope(at) == n.slope(at));
            assert(other.correction(at) == n.correction(at));
        },
        Solve::Settled(v) => {},
    }
}

/// Reflecting a solve and running it commute.
pub proof fn lemma_run_of_reflected(solve: Solve, answers: Seq<Functions>)
    requires
        solve.wf(),
        solve is Settled ==> solve->Settled_0.wf(),
    ensures
        reflected(solve).run(answers) == reflected_outcome(solve.run(answers)),
    decreases answers.len(),
{
    if answers.len() > 0 {
        lemma_step_of_reflected(solve, answers[0]);
        if let Ok(next) = solve.step(answers[0]) {
            lemma_run_of_reflected(next, answers.skip(1));
        }
    }
}

/// What a solve of Barker's equation settles on has an opposite.
pub proof fn lemma_barker_anomaly_has_opposite(state: Newton)
    requires
        state.estimate.wf(),
    ensures
        state.barker() matches Ok(anomaly) ==> anomaly.wf(),
    decreases MAX_CORRECTIONS - state.taken,
{
    if state.taken < MAX_CORRECTIONS && state.barker_slope() > 0 {
        let by = state.barker_excess() / state.barker_slope();
        if representable(state.estimate.units + by) && !(-TOLERANCE <= by <= TOLERANCE)
            && state.taken + 1 < MAX_CORRECTIONS {
            lemma_barker_anomaly_has_opposite(state.corrected(by));
        }
    }
}

/// Sign symmetry: the solve for the opposite seed, given the same
/// answers, settles on the opposite anomaly, stands where the other stands
/// while it waits, and fails where the other fails.
pub proof fn lemma_eccentric_is_odd(
    shape: Type,
    mean_motion: Nano,
    eccentricity: Nano,
    major_axis: Nano,
    answers: Seq<Functions>,
)
    requires
        mean_motion.wf(),
    ensures
        solved(shape, opposite(mean_motion), eccentricity, major_axis, answers)
            == reflected_outcome(solved(shape, mean_motion, eccentricity, major_axis, answers)),
{
    if shape != Type::Unknown && shape.admits(eccentricity) {
        if shape == Type::Parabolic && mean_motion.units != 0 {
            let mean = Nano { units: mean_motion.magnitude() as i64 };
            let start = Newton {
                shape,
                mean,
                eccentricity,
                major_axis,
                estimate: mean,
                taken: 0,
                mirrored: mean_motion.units < 0,
            };
            lemma_barker_of_reflected(start);
            lemma_barker_anomaly_has_opposite(start);
            assert(opposite(mean_motion).magnitude() == mean_motion.magnitude());
        }
        if let Ok(solve) = Solve::begin(shape, mean_motion, eccentricity, major_axis) {
            assert(Solve::begin(shape, opposite(mean_motion), eccentricity, major_axis) == Ok::<
                Solve,
                KeplerError,
            >(reflected(solve)));
            lemma_run_of_reflected(solve, answers);
        }
    }
}

/// The true anomaly of the opposite anomalies: where `state` stands, seen
/// from the other side of the periapsis.
pub open spec fn reflected_truly(state: TrueAnomaly) -> TrueAnomaly {
    match state {
        TrueAnomaly::Exact(angle) => TrueAnomaly::Exact(opposite(angle)),
        TrueAnomaly::HalfTangent { ratio, half } => TrueAnomaly::HalfTangent {
            ratio,
            half: opposite(half),
        },
        TrueAnomaly::ArcTangent { of } => TrueAnomaly::ArcTangent { of: opposite(of) },
        TrueAnomaly::HyperbolicHalfTangent { ratio, half } => TrueAnomaly::HyperbolicHalfTangent {
            ratio,
            half: opposite(half),
        },
    }
}

/// The reflection of each state, the same failure.
pub open spec fn reflected_truly_outcome(outcome: Result<TrueAnomaly, KeplerError>) -> Result<
    TrueAnomaly,
    KeplerError,
> {
    match outcome {
        Ok(state) => Ok(reflected_truly(state)),
        Err(e) => Err(e),
    }
}

/// The opposite of each answer.
pub open spec fn opposites(answers: Seq<Nano>) -> Seq<Nano> {
    answers.map_values(|value: Nano| opposite(value))
}

/// The outcome of a whole true anomaly: opened for the eccentric anomaly
/// `eccentric`, then carried on with the answers `answers`.
pub open spec fn resolved(
    mean_motion: Nano,
    shape: Type,
    eccentricity: Nano,
    major_axis: Nano,
    eccentric: Nano,
    answers: Seq<Nano>,
) -> Result<TrueAnomaly, KeplerError> {
    match TrueAnomaly::begin(mean_motion, shape, eccentricity, major_axis, eccentric) {
        Ok(state) => state.run(answers),
        Err(e) => Err(e),
    }
}

/// Opposite anomalies open opposite true anomalies: what is asked of the
/// one is asked of the other at the opposite point.
pub proof fn lemma_truly_begins_odd(
    mean_motion: Nano,
    shape: Type,
    eccentricity: Nano,
    major_axis: Nano,
    eccentric: Nano,
)
    requires
        mean_motion.wf(),
        eccentric.wf(),
    ensures
        TrueAnomaly::begin(
            opposite(mean_motion),
            shape,
            eccentricity,
            major_axis,
            opposite(eccentric),
        ) == reflected_truly_outcome(
            TrueAnomaly::begin(mean_motion, shape, eccentricity, major_axis, eccentric),
        ),
        TrueAnomaly::begin(mean_motion, shape, eccentricity, major_axis, eccentric) matches Ok(
            state,
        ) ==> state.wf(),
{
}

/// Reflecting a true anomaly and stepping it with the opposite answer
/// commute: the tangent, the arc tangent and the hyperbolic tangent are
/// odd, and so is what the library does with their values.
pub proof fn lemma_truly_step_of_reflected(state: TrueAnomaly, value: Nano)
    requires
        state.wf(),
        value.wf(),
    ensures
        reflected_truly(state).step(opposite(value)) == reflected_truly_outcome(state.step(value)),
        state.step(value) matches Ok(next) ==> next.wf(),
{
    match state {
        TrueAnomaly::HalfTangent { ratio, half } => {
            lemma_scaled_is_odd(ratio.units as int, value.units as int);
        },
        TrueAnomaly::HyperbolicHalfTangent { ratio, half } => {
            lemma_scaled_is_odd(ratio.units as int, value.units as int);
        },
        _ => {},
    }
}

/// Reflecting a true anomaly and running it with the opposite answers
/// commute.
pub proof fn lemma_truly_run_of_reflected(state: TrueAnomaly, answers: Seq<Nano>)
    requires
        state.wf(),
        forall|i: int| 0 <= i < answers.len() ==> (#[trigger] answers[i]).wf(),
    ensures
        reflected_truly(state).run(opposites(answers)) == reflected_truly_outcome(
            state.run(answers),
        ),
    decreases answers.len(),
{
    if answers.len() > 0 {
        lemma_truly_step_of_reflected(state, answers[0]);
        assert(opposites(answers)[0] == opposite(answers[0]));
        assert(opposites(answers).skip(1) == opposites(answers.skip(1)));
        if let Ok(next) = state.step(answers[0]) {
            assert forall|i: int| 0 <= i < answers.skip(1).len() implies (
            #[trigger] answers.skip(1)[i]).wf() by {
                assert(answers.skip(1)[i] == answers[i + 1]);
            }
            lemma_truly_run_of_reflected(next, answers.skip(1));
        }
    } else {
        assert(opposites(answers).len() == 0);
    }
}

/// The true anomaly is odd: for the opposite seed and the opposite
/// eccentric anomaly, given the opposite answers, it is the opposite, and
/// it fails where the other fails.
pub proof fn lemma_truly_is_odd(
    mean_motion: Nano,
    shape: Type,
    eccentricity: Nano,
    major_axis: Nano,
    eccentric: Nano,
    answers: Seq<Nano>,
)
    requires
        mean_motion.wf(),
        eccentric.wf(),
        forall|i: int| 0 <= i < answers.len() ==> (#[trigger] answers[i]).wf(),
    ensures
        resolved(
            opposite(mean_motion),
            shape,
            eccentricity,
            major_axis,
            opposite(eccentric),
            opposites(answers),
        ) == reflected_truly_outcome(
            resolved(mean_motion, shape, eccentricity, major_axis, eccentric, answers),
        ),
{
    lemma_truly_begins_odd(mean_motion, shape, eccentricity, major_axis, eccentric);
    if let Ok(state) = TrueAnomaly::begin(mean_motion, shape, eccentricity, major_axis, eccentric) {
        lemma_truly_run_of_reflected(state, answers);
    }
}

/// A settled solve stays settled, whatever it is answered.
pub proof fn lemma_settled_stays(anomaly: Nano, answers: Seq<Functions>)
    ensures
        Solve::Settled(anomaly).run(answers) == Ok::<Solve, KeplerError>(Solve::Settled(anomaly)),
    decreases answers.len(),
{
    if answers.len() > 0 {
        lemma_settled_stays(anomaly, answers.skip(1));
    }
}

/// Periapsis maps to periapsis: a body on an ellipse whose mean anomaly is
/// zero has an eccentric and a true anomaly of zero, whatever is answered.
pub proof fn lemma_periapsis_maps_to_periapsis(
    eccentricity: Nano,
    major_axis: Nano,
    answers: Seq<Functions>,
)
    requires
        Type::Elliptical.admits(eccentricity),
    ensures
        ({
            let zero = Nano { units: 0 };
            &&& solved(Type::Elliptical, zero, eccentricity, major_axis, answers) == Ok::<
                Solve,
                KeplerError,
            >(Solve::Settled(zero))
            &&& TrueAnomaly::begin(zero, Type::Elliptical, eccentricity, major_axis, zero) == Ok::<
                TrueAnomaly,
                KeplerError,
            >(TrueAnomaly::Exact(zero))
        }),
{
    lemma_settled_stays(Nano { units: 0 }, answers);
}

/// The slope of Kepler's equation is positive wherever the functions
/// have values that they can have: no answer of that kind is refused for
/// the slope. On an ellipse the slope is below 2.
pub proof fn lemma_slope_is_positive(state: Newton, at: Functions)
    requires
        state.shape.admits(state.eccentricity),
        state.shape == Type::Elliptical || state.shape == Type::Hyperbolic,
        at.fit(state.shape),
    ensures
        state.slope(at) > 0,
        state.shape == Type::Elliptical ==> state.slope(at) < 2 * SCALE,
{
    let e: int = state.eccentricity.units as int;
    let c: int = at.cosine.units as int;
    let one: int = SCALE as int;
    if state.shape == Type::Hyperbolic {
        assert(e * one <= e * c) by (nonlinear_arith)
            requires
                e > 0,
                c >= one,
        ;
        lemma_div_is_ordered(e * one, e * c, one);
        assert(e * one / one == e) by (nonlinear_arith)
            requires
                one > 0,
        ;
    } else {
        assert(-e * one <= e * c <= e * one) by (nonlinear_arith)
            requires
                e > 0,
                -one <= c <= one,
        ;
        lemma_div_is_ordered(e * c, e * one, one);
        lemma_div_is_ordered(-e * one, e * c, one);
        assert(e * one / one == e && -e * one / one == -e) by (nonlinear_arith)
            requires
                one > 0,
        ;
    }
}

/// Whether `there`, the value of the sine after a step of `by`
/// billionths, lies on the tangent to the sine at the point of `at`, two
/// billionths aside: the sine before, and the step times the cosine, which
/// is the slope of the sine. On a hyperbola the same is asked of the
/// hyperbolic sine, whose slope is the hyperbolic cosine.
pub open spec fn on_tangent(at: Functions, by: int, there: Nano) -> bool {
    size(there.units - at.sine.units - times(at.cosine.units as int, by)) <= 2
}

/// What a correction leaves of the residual: with `there` for the sine at
/// the corrected estimate, the residual of Kepler's equation there is at
/// most the billionths of the slope, of the correction and of three times
/// the eccentricity, and one more.
///
/// The sine at the corrected estimate is not asked for by the solve. The
/// law holds of every value of it that lies on the tangent at the estimate
/// before, as the value of the function does where the correction is small.
pub proof fn lemma_correction_leaves_small_residual(state: Newton, at: Functions, there: Nano)
    requires
        state.eccentricity.units >= 0,
        state.slope(at) > 0,
        representable(state.estimate.units + state.correction(at)),
        on_tangent(at, state.correction(at), there),
    ensures
        size(
            state.moved(state.correction(at)).residual(Functions { sine: there, cosine: at.cosine }),
        ) * SCALE < state.slope(at) + size(state.correction(at)) + 3 * state.eccentricity.units + 2
            * SCALE,
{
    let one: int = SCALE as int;
    let e: int = state.eccentricity.units as int;
    let s: int = at.sine.units as int;
    let c: int = at.cosine.units as int;
    let s2: int = there.units as int;
    let x: int = state.estimate.units as int;
    let m: int = state.mean.units as int;
    let by: int = state.correction(at);
    let slope: int = state.slope(at);
    let f: int = state.residual(at);
    let after = state.moved(by);
    let g: int = after.residual(Functions { sine: there, cosine: at.cosine });
    // Every rounded quotient with its remainder.
    let es: int = times(e, s);
    let ec: int = times(e, c);
    let es2: int = times(e, s2);
    let t: int = times(c, by);
    let r1: int = (e * s) % one;
    let r2: int = (e * c) % one;
    let r3: int = (e * s2) % one;
    let r4: int = (c * by) % one;
    let r: int = (-f * one) % slope;
    let u: int = s2 - s - t;
    lemma_fundamental_div_mod(e * s, one);
    lemma_mod_bound(e * s, one);
    lemma_fundamental_div_mod(e * c, one);
    lemma_mod_bound(e * c, one);
    lemma_fundamental_div_mod(e * s2, one);
    lemma_mod_bound(e * s2, one);
    lemma_fundamental_div_mod(c * by, one);
    lemma_mod_bound(c * by, one);
    lemma_fundamental_div_mod(-f * one, slope);
    lemma_mod_bound(-f * one, slope);
    // How far the product with the eccentricity moves with the sine.
    let moved: int = es2 - es;
    assert(e * s2 - e * s == e * t + e * u) by (nonlinear_arith)
        requires
            s2 == s + t + u,
    ;
    assert(one * (e * t) == one * (ec * by) + r2 * by - e * r4) by {
        assert(one * (e * t) == e * (one * t)) by (nonlinear_arith);
        assert(e * (one * t) == (e * c) * by - e * r4) by (nonlinear_arith)
            requires
                c * by == one * t + r4,
        ;
        assert((e * c) * by == one * (ec * by) + r2 * by) by (nonlinear_arith)
            requires
                e * c == one * ec + r2,
        ;
    }
    let eu: int = e * u;
    let shift: int = ec * by;
    let turn: int = r2 * by;
    let rest: int = e * r4;
    assert(one * (one * moved) == one * shift + turn - rest + one * eu - one * (r3 - r1)) by {
        assert(one * moved == e * t + eu - (r3 - r1));
        assert(one * (one * moved) == one * (e * t) + one * eu - one * (r3 - r1))
            by (nonlinear_arith)
            requires
                one * moved == e * t + eu - (r3 - r1),
        ;
    }
    // What is left of the residual is made of remainders.
    assert(after.estimate.units == x + by);
    let left: int = -turn + rest - one * eu + one * (r3 - r1);
    if state.shape == Type::Hyperbolic {
        assert(g == f + moved - by);
        assert(slope == ec - one);
        assert(one * (one * g) == -left - one * r) by (nonlinear_arith)
            requires
                one * (one * moved) == one * shift + turn - rest + one * eu - one * (r3 - r1),
                left == -turn + rest - one * eu + one * (r3 - r1),
                g == f + moved - by,
                slope == ec - one,
                shift == ec * by,
                -f * one == slope * by + r,
        ;
    } else {
        assert(g == f + by - moved);
        assert(slope == one - ec);
        assert(one * (one * g) == left - one * r) by (nonlinear_arith)
            requires
                one * (one * moved) == one * shift + turn - rest + one * eu - one * (r3 - r1),
                left == -turn + rest - one * eu + one * (r3 - r1),
                g == f + by - moved,
                slope == one - ec,
                shift == ec * by,
                -f * one == slope * by + r,
        ;
    }
    assert(-(one * size(by)) <= turn <= one * size(by)) by (nonlinear_arith)
        requires
            turn == r2 * by,
            0 <= r2 < one,
            size(by) == if by < 0 {
                -by
            } else {
                by
            },
    ;
    assert(0 <= rest <= one * e) by (nonlinear_arith)
        requires
            rest == e * r4,
            0 <= r4 < one,
            e >= 0,
    ;
    assert(-(2 * e) <= eu <= 2 * e) by (nonlinear_arith)
        requires
            eu == e * u,
            -2 <= u <= 2,
            e >= 0,
    ;
    let bound: int = slope + size(by) + 3 * e + 2 * one;
    assert(-(one * bound) < one * (one * g) < one * bound) by (nonlinear_arith)
        requires
            one * (one * g) == left - one * r || one * (one * g) == -left - one * r,
            left == -turn + rest - one * eu + one * (r3 - r1),
            -(one * size(by)) <= turn <= one * size(by),
            0 <= rest <= one * e,
            -(2 * e) <= eu <= 2 * e,
            0 <= r1 < one,
            0 <= r3 < one,
            0 <= r < slope,
            bound == slope + size(by) + 3 * e + 2 * one,
            one > 0,
            e >= 0,
    ;
    assert(-bound < one * g < bound) by (nonlinear_arith)
        requires
            -(one * bound) < one * (one * g) < one * bound,
            one > 0,
    ;
}

/// What an elliptical solve settles on solves Kepler's equation to a
/// millionth, and closer: with `there` for the sine at the anomaly, the
/// residual `E − e·sin(E) − M` is less than `1e-6` in size.
pub proof fn lemma_settled_ellipse_solves_kepler(state: Newton, at: Functions, there: Nano)
    requires
        state.wf(),
        state.shape == Type::Elliptical,
        Solve::Refining(state).step(at) matches Ok(Solve::Settled(v)),
        on_tangent(at, state.correction(at), there),
    ensures
        ({
            let settled = state.moved(state.correction(at));
            size(
                settled.estimate.units - times(state.eccentricity.units as int, there.units as int)
                    - settled.mean.units,
            ) < 1_000
        }),
{
    lemma_slope_is_positive(state, at);
    lemma_correction_leaves_small_residual(state, at, there);
}

/// What a hyperbolic solve settles on solves Kepler's equation to a
/// millionth where the slope of the equation is moderate: with `there` for
/// the hyperbolic sine at the anomaly, the residual `e·sinh(H) − H − M` is
/// less than `1e-6` in size if the slope and three times the eccentricity
/// make no more than 997.
///
/// Where the slope is steeper a billionth of the anomaly is more than a
/// millionth of the mean anomaly, and no quantity need solve the equation
/// that closely.
pub proof fn lemma_settled_hyperbola_solves_kepler(state: Newton, at: Functions, there: Nano)
    requires
        state.wf(),
        state.shape == Type::Hyperbolic,
        Solve::Refining(state).step(at) matches Ok(Solve::Settled(v)),
        on_tangent(at, state.correction(at), there),
        state.slope(at) + 3 * state.eccentricity.units <= 997 * SCALE,
    ensures
        ({
            let settled = state.moved(state.correction(at));
            size(
                times(state.eccentricity.units as int, there.units as int)
                    - settled.estimate.units - settled.mean.units,
            ) < 1_000
        }),
{
    lemma_slope_is_positive(state, at);
    lemma_correction_leaves_small_residual(state, at, there);
}

/// One more answer carries a solve one more step.
pub proof fn lemma_run_and_step(solve: Solve, answers: Seq<Functions>, last: Functions)
    ensures
        solve.run(answers.push(last)) == match solve.run(answers) {
            Ok(reached) => reached.step(last),
            Err(e) => Err(e),
        },
    decreases answers.len(),
{
    let longer = answers.push(last);
    if answers.len() == 0 {
        assert(longer[0] == last);
        assert(longer.skip(1).len() == 0);
        match solve.step(last) {
            Ok(next) => {
                assert(next.run(longer.skip(1)) == Ok::<Solve, KeplerError>(next));
            },
            Err(e) => {},
        }
    } else {
        assert(longer[0] == answers[0]);
        assert(longer.skip(1) == answers.skip(1).push(last));
        if let Ok(next) = solve.step(answers[0]) {
            lemma_run_and_step(next, answers.skip(1), last);
        }
    }
}

/// One more answer carries a true anomaly one more step.
pub proof fn lemma_truly_run_and_step(state: TrueAnomaly, answers: Seq<Nano>, last: Nano)
    ensures
        state.run(answers.push(last)) == match state.run(answers) {
            Ok(reached) => reached.step(last),
            Err(e) => Err(e),
        },
    decreases answers.len(),
{
    let longer = answers.push(last);
    if answers.len() == 0 {
        assert(longer[0] == last);
        assert(longer.skip(1).len() == 0);
        match state.step(last) {
            Ok(next) => {
                assert(next.run(longer.skip(1)) == Ok::<TrueAnomaly, KeplerError>(next));
            },
            Err(e) => {},
        }
    } else {
        assert(longer[0] == answers[0]);
        assert(longer.skip(1) == answers.skip(1).push(last));
        if let Ok(next) = state.step(answers[0]) {
            lemma_truly_run_and_step(next, answers.skip(1), last);
        }
    }
}

} // verus!
