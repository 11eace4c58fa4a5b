use rust_solar::anomaly::{
    Anomaly, Asked, Functions, Newton, Solve, TrueAnomaly, MAX_CORRECTIONS, TOLERANCE,
};
use rust_solar::orbit::{KeplerError, Type, HALF_PI};
use rust_solar::quantity::Nano;

const ONE: i64 = 1_000_000_000;

fn nano(x: f64) -> Nano {
    Nano::new((x * 1e9).round() as i64)
}

fn float(n: Nano) -> f64 {
    n.units as f64 / 1e9
}

fn at(sine: i64, cosine: i64) -> Functions {
    Functions { sine: Nano::new(sine), cosine: Nano::new(cosine) }
}

/// The values of the pair of functions that is asked for, as `f64` has them.
fn pair(asked: Asked) -> Functions {
    match asked {
        Asked::SineCosine(x) => Functions { sine: nano(float(x).sin()), cosine: nano(float(x).cos()) },
        Asked::HyperbolicSineCosine(x) => {
            Functions { sine: nano(float(x).sinh()), cosine: nano(float(x).cosh()) }
        }
        other => panic!("no pair of functions is asked for: {:?}", other),
    }
}

/// The value of the function that is asked for, as `f64` has it.
fn value(asked: Asked) -> Nano {
    match asked {
        Asked::Tangent(x) => nano(float(x).tan()),
        Asked::ArcTangent(x) => nano(float(x).atan()),
        Asked::HyperbolicTangent(x) => nano(float(x).tanh()),
        other => panic!("no function is asked for: {:?}", other),
    }
}

/// Runs a solve to its end and reports the anomaly with the number of
/// answers that were asked for.
fn solve(shape: Type, seed: f64, e: f64, a: f64) -> Result<(f64, u32), KeplerError> {
    let mut state = Anomaly.eccentric(shape, nano(seed), nano(e), nano(a))?;
    let mut asked: u32 = 0;
    loop {
        if let Solve::Settled(anomaly) = state {
            return Ok((float(anomaly), asked));
        }
        asked += 1;
        state = Anomaly.refine(state, pair(state.asks()))?;
    }
}

/// Runs a true anomaly to its end.
fn true_anomaly(seed: f64, shape: Type, e: f64, a: f64) -> Result<f64, KeplerError> {
    let (eccentric, _) = solve(shape, seed, e, a)?;
    let mut state = Anomaly.truly(nano(seed), shape, nano(e), nano(a), nano(eccentric))?;
    loop {
        if let TrueAnomaly::Exact(angle) = state {
            return Ok(float(angle));
        }
        state = Anomaly.resolve(state, value(state.asks()))?;
    }
}

fn ellipse(mean: i64, e: i64, estimate: i64, taken: u32) -> Newton {
    Newton {
        shape: Type::Elliptical,
        mean: Nano::new(mean),
        eccentricity: Nano::new(e),
        major_axis: Nano::new(ONE),
        estimate: Nano::new(estimate),
        taken,
        mirrored: false,
    }
}

#[test]
fn tolerance_and_cap_are_as_documented() {
    assert_eq!(TOLERANCE, 100);
    assert_eq!(MAX_CORRECTIONS, 100);
}

#[test]
fn mean_is_the_size_of_the_seed() {
    assert_eq!(Anomaly.mean(Nano::new(500_000_000)), Ok(Nano::new(500_000_000)));
    assert_eq!(Anomaly.mean(Nano::new(-500_000_000)), Ok(Nano::new(500_000_000)));
    assert_eq!(Anomaly.mean(Nano::new(0)), Ok(Nano::new(0)));
    assert_eq!(Anomaly.mean(Nano::new(i64::MAX)), Ok(Nano::new(i64::MAX)));
    assert_eq!(Anomaly.mean(Nano::new(-i64::MAX)), Ok(Nano::new(i64::MAX)));
}

#[test]
fn mean_of_the_least_quantity_is_out_of_range() {
    assert_eq!(Anomaly.mean(Nano::new(i64::MIN)), Err(KeplerError::OutOfRange));
}

#[test]
fn circular_anomaly_is_the_seed() {
    for seed in [0, 1, -1, 500_000_000, -3_141_592_654, i64::MAX, i64::MIN] {
        let solve = Anomaly.eccentric(Type::Circular, Nano::new(seed), Nano::new(0), nano(1.52));
        assert_eq!(solve, Ok(Solve::Settled(Nano::new(seed))));
    }
}

#[test]
fn elliptical_solve_starts_by_seeding() {
    let solve = Anomaly.eccentric(Type::Elliptical, nano(-0.5), nano(0.0934), nano(1.52));
    assert_eq!(
        solve,
        Ok(Solve::Seeding(Newton {
            shape: Type::Elliptical,
            mean: Nano::new(500_000_000),
            eccentricity: Nano::new(93_400_000),
            major_axis: Nano::new(1_520_000_000),
            estimate: Nano::new(500_000_000),
            taken: 0,
            mirrored: true,
        }))
    );
}

#[test]
fn hyperbolic_solve_starts_from_the_mean_anomaly() {
    let solve = Anomaly.eccentric(Type::Hyperbolic, nano(0.25), nano(1.5), nano(2.0));
    assert_eq!(
        solve,
        Ok(Solve::Refining(Newton {
            shape: Type::Hyperbolic,
            mean: Nano::new(250_000_000),
            eccentricity: Nano::new(1_500_000_000),
            major_axis: Nano::new(2_000_000_000),
            estimate: Nano::new(250_000_000),
            taken: 0,
            mirrored: false,
        }))
    );
}

#[test]
fn parabolic_solve_is_settled_at_once() {
    let solved = |seed: i64| Anomaly.eccentric(Type::Parabolic, Nano::new(seed), Nano::new(ONE), nano(1.0));
    // D³/6 = M: the cube roots of 3, of 6 and of 30.
    assert_eq!(solved(500_000_000), Ok(Solve::Settled(Nano::new(1_442_249_570))));
    assert_eq!(solved(ONE), Ok(Solve::Settled(Nano::new(1_817_120_592))));
    assert_eq!(solved(5 * ONE), Ok(Solve::Settled(Nano::new(3_107_232_505))));
    assert_eq!(solved(-500_000_000), Ok(Solve::Settled(Nano::new(-1_442_249_570))));
    assert_eq!(solved(0), Ok(Solve::Settled(Nano::new(0))));
    assert_eq!(solved(1), Ok(Solve::Settled(Nano::new(1_817_120))));
    assert_eq!(solved(1_000), Ok(Solve::Settled(Nano::new(18_171_205))));
    assert_eq!(solved(i64::MAX), Ok(Solve::Settled(Nano::new(3_810_778_085_499))));
    assert_eq!(solved(-i64::MAX), Ok(Solve::Settled(Nano::new(-3_810_778_085_499))));
    assert_eq!(solved(i64::MIN), Err(KeplerError::OutOfRange));
}

#[test]
fn parabolic_anomaly_solves_barkers_equation() {
    for seed in [0.001, 0.5, 1.0, 4.5, 1000.0] {
        let (anomaly, asked) = solve(Type::Parabolic, seed, 1.0, 1.0).unwrap();
        assert_eq!(asked, 0);
        assert!((anomaly.powi(3) / 6.0 - seed).abs() < 1e-6 * (1.0 + seed), "seed {}", seed);
    }
}

#[test]
fn lead_moves_the_estimate_without_counting() {
    // e·sin(1) = 0.5 · 0.841470985 = 0.4207354925, rounded down.
    let start = Anomaly.eccentric(Type::Elliptical, nano(1.0), nano(0.5), nano(1.0)).unwrap();
    let next = Anomaly.refine(start, at(841_470_985, 540_302_306));
    assert_eq!(next, Ok(Solve::Refining(ellipse(ONE, 500_000_000, 1_420_735_492, 0))));
}

#[test]
fn lead_within_the_tolerance_does_not_settle() {
    let start = Anomaly.eccentric(Type::Elliptical, nano(0.5), nano(0.0934), nano(1.52)).unwrap();
    let next = Anomaly.refine(start, at(0, ONE)).unwrap();
    assert!(matches!(next, Solve::Refining(_)));
}

#[test]
fn correction_is_the_residual_over_the_slope() {
    // At E = 1.420735492 with M = 1 and e = 0.5: f = E − e·sin(E) − M =
    // −0.073650047 and f′ = 1 − e·cos(E) = 0.925251348, so that
    // −f/f′ = 0.079600042.
    let state = Solve::Refining(ellipse(ONE, 500_000_000, 1_420_735_492, 0));
    let next = Anomaly.refine(state, at(988_771_078, 149_497_305));
    assert_eq!(next, Ok(Solve::Refining(ellipse(ONE, 500_000_000, 1_500_335_534, 1))));
    let again = Anomaly.refine(next.unwrap(), at(997_518_665, 70_402_504));
    assert_eq!(again, Ok(Solve::Refining(ellipse(ONE, 500_000_000, 1_498_701_823, 2))));
}

#[test]
fn hyperbolic_correction_is_the_residual_over_the_slope() {
    // At H = 0.5 with M = 0.5 and e = 1.5: f = e·sinh(H) − H − M =
    // −0.218357043 and f′ = e·cosh(H) − 1 = 0.691438947.
    let start = Anomaly.eccentric(Type::Hyperbolic, nano(-0.5), nano(1.5), nano(1.0)).unwrap();
    let next = Anomaly.refine(start, at(521_095_305, 1_127_625_965));
    assert_eq!(
        next,
        Ok(Solve::Refining(Newton {
            shape: Type::Hyperbolic,
            mean: Nano::new(500_000_000),
            eccentricity: Nano::new(1_500_000_000),
            major_axis: Nano::new(ONE),
            estimate: Nano::new(815_800_901),
            taken: 1,
            mirrored: true,
        }))
    );
}

#[test]
fn correction_within_the_tolerance_settles() {
    // With a cosine of zero the slope is 1 and the correction the residual, negated.
    let settle = |estimate: i64| Anomaly.refine(Solve::Refining(ellipse(ONE, 500_000_000, estimate, 3)), at(0, 0));
    assert_eq!(settle(ONE + 100), Ok(Solve::Settled(Nano::new(ONE))));
    assert_eq!(settle(ONE - 100), Ok(Solve::Settled(Nano::new(ONE))));
    assert_eq!(settle(ONE), Ok(Solve::Settled(Nano::new(ONE))));
    assert_eq!(settle(ONE + 101), Ok(Solve::Refining(ellipse(ONE, 500_000_000, ONE, 4))));
    assert_eq!(settle(ONE - 101), Ok(Solve::Refining(ellipse(ONE, 500_000_000, ONE, 4))));
}

#[test]
fn negative_seed_settles_on_the_opposite() {
    let mut state = ellipse(ONE, 500_000_000, ONE + 7, 0);
    state.mirrored = true;
    assert_eq!(Anomaly.refine(Solve::Refining(state), at(0, 0)), Ok(Solve::Settled(Nano::new(-ONE))));
}

#[test]
fn settled_solve_stays_settled() {
    let settled = Solve::Settled(Nano::new(7));
    assert_eq!(Anomaly.refine(settled, at(0, ONE)), Ok(settled));
    assert_eq!(Anomaly.refine(settled, at(i64::MAX, i64::MIN)), Ok(settled));
}

#[test]
fn solve_fails_at_the_cap() {
    // A sine that flips between 1 and −1 throws the estimate from M + e to
    // M − e and back: the corrections never fall within the tolerance.
    let mut state = Anomaly.eccentric(Type::Elliptical, nano(1.0), nano(0.5), nano(1.0)).unwrap();
    state = Anomaly.refine(state, at(0, 0)).unwrap();
    assert_eq!(state, Solve::Refining(ellipse(ONE, 500_000_000, ONE, 0)));
    for taken in 1..MAX_CORRECTIONS {
        let sine = if taken % 2 == 1 { ONE } else { -ONE };
        state = Anomaly.refine(state, at(sine, 0)).unwrap();
        let estimate = if taken % 2 == 1 { 1_500_000_000 } else { 500_000_000 };
        assert_eq!(state, Solve::Refining(ellipse(ONE, 500_000_000, estimate, taken)));
    }
    assert_eq!(Anomaly.refine(state, at(-ONE, 0)), Err(KeplerError::NumericalNonConvergence));
}

#[test]
fn last_allowed_correction_may_still_settle() {
    let state = Solve::Refining(ellipse(ONE, 500_000_000, ONE + 5, MAX_CORRECTIONS - 1));
    assert_eq!(Anomaly.refine(state, at(0, 0)), Ok(Solve::Settled(Nano::new(ONE))));
    let state = Solve::Refining(ellipse(ONE, 500_000_000, ONE + 500, MAX_CORRECTIONS - 1));
    assert_eq!(Anomaly.refine(state, at(0, 0)), Err(KeplerError::NumericalNonConvergence));
}

#[test]
fn values_that_the_functions_cannot_have_are_rejected() {
    let seeding = Anomaly.eccentric(Type::Elliptical, nano(1.0), nano(0.5), nano(1.0)).unwrap();
    let refining = Solve::Refining(ellipse(ONE, 500_000_000, ONE, 0));
    for state in [seeding, refining] {
        for answer in [at(ONE + 1, 0), at(-ONE - 1, 0), at(0, ONE + 1), at(0, -ONE - 1)] {
            assert_eq!(Anomaly.refine(state, answer), Err(KeplerError::DomainPrecondition));
        }
        for answer in [at(ONE, ONE), at(-ONE, -ONE), at(0, 0)] {
            assert!(Anomaly.refine(state, answer).is_ok());
        }
    }
    let hyperbolic = Anomaly.eccentric(Type::Hyperbolic, nano(0.5), nano(1.5), nano(1.0)).unwrap();
    assert_eq!(Anomaly.refine(hyperbolic, at(0, ONE - 1)), Err(KeplerError::DomainPrecondition));
    assert_eq!(Anomaly.refine(hyperbolic, at(0, -ONE)), Err(KeplerError::DomainPrecondition));
    assert!(Anomaly.refine(hyperbolic, at(0, ONE)).is_ok());
}

#[test]
fn slope_that_is_not_positive_is_rejected() {
    // No solve that the library opened stands on an ellipse with e = 2.
    let state = Solve::Refining(ellipse(ONE, 2 * ONE, ONE, 0));
    assert_eq!(Anomaly.refine(state, at(0, ONE)), Err(KeplerError::DomainPrecondition));
    assert_eq!(Anomaly.refine(state, at(0, 500_000_000)), Err(KeplerError::DomainPrecondition));
    assert!(Anomaly.refine(state, at(0, 499_999_999)).is_ok());
}

#[test]
fn residual_beyond_the_quantities_is_out_of_range() {
    let start =
        Anomaly.eccentric(Type::Hyperbolic, nano(0.5), Nano::new(i64::MAX), nano(1.0)).unwrap();
    assert_eq!(Anomaly.refine(start, at(i64::MAX, i64::MAX)), Err(KeplerError::OutOfRange));
    assert_eq!(Anomaly.refine(start, at(i64::MIN, i64::MAX)), Err(KeplerError::OutOfRange));
}

#[test]
fn estimate_beyond_the_quantities_is_out_of_range() {
    let seeding =
        Anomaly.eccentric(Type::Elliptical, Nano::new(i64::MAX), nano(0.5), nano(1.0)).unwrap();
    assert_eq!(Anomaly.refine(seeding, at(2, 0)), Err(KeplerError::OutOfRange));
    assert!(Anomaly.refine(seeding, at(1, 0)).is_ok());
    // A residual of −2⁶³ + 1 over a slope of a half doubles.
    let state = Solve::Refining(ellipse(i64::MAX, 500_000_000, 0, 0));
    assert_eq!(Anomaly.refine(state, at(0, ONE)), Err(KeplerError::OutOfRange));
}

#[test]
fn seed_of_zero_is_settled_at_once() {
    for (shape, e) in [(Type::Elliptical, 0.5), (Type::Hyperbolic, 1.5), (Type::Parabolic, 1.0)] {
        assert_eq!(
            Anomaly.eccentric(shape, Nano::new(0), nano(e), nano(1.0)),
            Ok(Solve::Settled(Nano::new(0)))
        );
    }
    assert_eq!(
        Anomaly.eccentric(Type::Elliptical, Nano::new(0), nano(1.0), nano(1.0)),
        Err(KeplerError::DomainPrecondition)
    );
}

#[test]
fn seed_without_magnitude_is_refused() {
    for (shape, e) in [(Type::Elliptical, 0.5), (Type::Hyperbolic, 1.5), (Type::Parabolic, 1.0)] {
        assert_eq!(
            Anomaly.eccentric(shape, Nano::new(i64::MIN), nano(e), nano(1.0)),
            Err(KeplerError::OutOfRange)
        );
    }
}

#[test]
fn eccentricity_of_one_is_rejected_by_ellipse_and_hyperbola() {
    for shape in [Type::Elliptical, Type::Hyperbolic] {
        assert_eq!(
            Anomaly.eccentric(shape, nano(0.5), nano(1.0), nano(1.52)),
            Err(KeplerError::DomainPrecondition)
        );
        assert_eq!(
            Anomaly.truly(nano(0.5), shape, nano(1.0), nano(1.52), nano(0.5)),
            Err(KeplerError::DomainPrecondition)
        );
        assert_eq!(shape.check(nano(1.0)), Err(KeplerError::DomainPrecondition));
    }
}

#[test]
fn eccentricity_outside_the_shape_is_rejected() {
    let cases = [
        (Type::Circular, 0.1),
        (Type::Circular, -0.1),
        (Type::Elliptical, 0.0),
        (Type::Elliptical, 1.5),
        (Type::Elliptical, -0.5),
        (Type::Parabolic, 0.999999999),
        (Type::Parabolic, 1.000000001),
        (Type::Hyperbolic, 0.5),
        (Type::Hyperbolic, 0.0),
    ];
    for (shape, e) in cases {
        assert_eq!(
            Anomaly.eccentric(shape, nano(0.5), nano(e), nano(1.0)),
            Err(KeplerError::DomainPrecondition),
            "{:?} with {}",
            shape,
            e
        );
    }
}

#[test]
fn unknown_shape_is_unsupported() {
    for e in [-1.0, 0.0, 0.5, 1.0, 2.0] {
        assert_eq!(
            Anomaly.eccentric(Type::Unknown, nano(0.5), nano(e), nano(1.0)),
            Err(KeplerError::UnsupportedShape)
        );
        assert_eq!(
            Anomaly.truly(nano(0.5), Type::Unknown, nano(e), nano(1.0), nano(0.5)),
            Err(KeplerError::UnsupportedShape)
        );
    }
}

#[test]
fn elliptical_mars_scenario_converges() {
    let (e, m) = (0.0934, 0.5);
    let (anomaly, asked) = solve(Type::Elliptical, m, e, 1.52).unwrap();
    assert!(asked < 50, "asked for {} answers", asked);
    assert_eq!(asked, 4);
    assert!((anomaly - e * anomaly.sin() - m).abs() < 1e-6);
    assert!((anomaly - 0.548_716_769).abs() < 3e-9, "anomaly {}", anomaly);
}

#[test]
fn elliptical_residual_is_small() {
    for e in [0.001, 0.0934, 0.3, 0.6, 0.9, 0.99] {
        for m in [0.0, 0.1, 0.5, 1.0, 2.0, 3.0, 3.141592653, 5.0, 6.2] {
            let (anomaly, asked) = solve(Type::Elliptical, m, e, 1.0).unwrap();
            assert!(asked < 50);
            let residual = (anomaly - e * anomaly.sin() - m).abs();
            assert!(residual < 1e-6, "e {} m {} residual {}", e, m, residual);
        }
    }
}

#[test]
fn hyperbolic_residual_is_small() {
    for e in [1.1, 1.5, 2.0, 5.0] {
        for m in [0.0, 0.1, 0.5, 1.0, 2.0, 5.0, 20.0] {
            let (anomaly, asked) = solve(Type::Hyperbolic, m, e, 1.0).unwrap();
            assert!(asked < 50);
            let residual = (e * anomaly.sinh() - anomaly - m).abs();
            assert!(residual < 1e-6, "e {} m {} residual {}", e, m, residual);
        }
    }
}

#[test]
fn settled_anomaly_solves_the_equation_in_billionths() {
    // The residual formed as the library forms it, with the sine at the anomaly.
    for e in [0.001, 0.0934, 0.6, 0.99] {
        for m in [0.1, 1.0, 3.0, 6.2] {
            let (anomaly, _) = solve(Type::Elliptical, m, e, 1.0).unwrap();
            let sine = nano(anomaly.sin()).units as i128;
            let product = (nano(e).units as i128 * sine).div_euclid(ONE as i128);
            let residual = nano(anomaly).units as i128 - product - nano(m).units as i128;
            assert!(residual.abs() <= 7, "e {} m {} residual {}", e, m, residual);
        }
    }
    for e in [1.1, 2.0, 5.0] {
        for m in [0.1, 1.0, 5.0] {
            let (anomaly, _) = solve(Type::Hyperbolic, m, e, 1.0).unwrap();
            let sine = nano(anomaly.sinh()).units as i128;
            let product = (nano(e).units as i128 * sine).div_euclid(ONE as i128);
            let residual = product - nano(anomaly).units as i128 - nano(m).units as i128;
            assert!(residual.abs() < 1_000, "e {} m {} residual {}", e, m, residual);
        }
    }
}

#[test]
fn hyperbolic_solve_from_far_off_does_not_settle() {
    // From H = M = 200 each correction takes about 1 off the estimate.
    assert_eq!(
        solve(Type::Hyperbolic, 200.0, 1.5, 1.0),
        Err(KeplerError::OutOfRange)
    );
}

#[test]
fn eccentric_anomaly_is_odd_in_the_seed() {
    let cases = [
        (Type::Elliptical, 0.0934),
        (Type::Hyperbolic, 1.5),
        (Type::Parabolic, 1.0),
        (Type::Circular, 0.0),
    ];
    for (shape, e) in cases {
        for m in [0.1, 0.5, 2.0] {
            let (there, _) = solve(shape, m, e, 1.52).unwrap();
            let (back, _) = solve(shape, -m, e, 1.52).unwrap();
            assert_eq!(back, -there);
            assert!(there > 0.0);
        }
    }
}

#[test]
fn periapsis_maps_to_periapsis() {
    for e in [0.000000001, 0.0934, 0.5, 0.9, 0.999999999] {
        let (anomaly, asked) = solve(Type::Elliptical, 0.0, e, 1.52).unwrap();
        assert_eq!(anomaly, 0.0);
        assert_eq!(asked, 0);
        assert_eq!(true_anomaly(0.0, Type::Elliptical, e, 1.52), Ok(0.0));
    }
}

#[test]
fn true_anomaly_on_a_circle_is_the_sum() {
    let m = Nano::new(500_000_000);
    assert_eq!(
        Anomaly.truly(m, Type::Circular, Nano::new(0), nano(1.52), m),
        Ok(TrueAnomaly::Exact(Nano::new(ONE)))
    );
    assert_eq!(
        Anomaly.truly(Nano::new(-3), Type::Circular, Nano::new(0), nano(1.52), Nano::new(-4)),
        Ok(TrueAnomaly::Exact(Nano::new(-7)))
    );
    assert_eq!(
        Anomaly.truly(Nano::new(-i64::MAX), Type::Circular, Nano::new(0), nano(1.0), Nano::new(0)),
        Ok(TrueAnomaly::Exact(Nano::new(-i64::MAX)))
    );
    assert_eq!(
        Anomaly.truly(Nano::new(i64::MIN), Type::Circular, Nano::new(0), nano(1.0), Nano::new(0)),
        Err(KeplerError::OutOfRange)
    );
    assert_eq!(
        Anomaly.truly(Nano::new(i64::MAX), Type::Circular, Nano::new(0), nano(1.0), Nano::new(1)),
        Err(KeplerError::OutOfRange)
    );
    assert_eq!(
        Anomaly.truly(Nano::new(i64::MIN), Type::Circular, Nano::new(0), nano(1.0), Nano::new(-1)),
        Err(KeplerError::OutOfRange)
    );
    assert_eq!(true_anomaly(0.5, Type::Circular, 0.0, 1.0), Ok(1.0));
}

#[test]
fn true_anomaly_at_periapsis_is_zero() {
    for e in [1, 93_400_000, 999_999_999] {
        assert_eq!(
            Anomaly.truly(Nano::new(0), Type::Elliptical, Nano::new(e), nano(1.52), Nano::new(0)),
            Ok(TrueAnomaly::Exact(Nano::new(0)))
        );
    }
    assert_eq!(
        Anomaly.truly(Nano::new(0), Type::Hyperbolic, nano(1.5), nano(1.52), Nano::new(0)),
        Ok(TrueAnomaly::Exact(Nano::new(0)))
    );
}

#[test]
fn true_anomaly_on_an_ellipse_asks_for_the_half_tangent() {
    let opened =
        Anomaly.truly(nano(0.5), Type::Elliptical, nano(0.0934), nano(1.52), Nano::new(548_716_768));
    assert_eq!(
        opened,
        Ok(TrueAnomaly::HalfTangent {
            ratio: Nano::new(1_098_200_601),
            half: Nano::new(274_358_384),
        })
    );
    assert!((1.098_200_601 - ((1.0_f64 + 0.0934) / (1.0 - 0.0934)).sqrt()).abs() < 2e-9);
    // √(1.6/0.4) = 2, √(1.5/0.5) = 1.7320508075… and √(1.999999999/0.000000001).
    let cases = [
        (600_000_000, 2_000_000_000),
        (500_000_000, 1_732_050_807),
        (999_999_999, 44_721_359_538_815),
        (1, 1_000_000_001),
    ];
    for (e, ratio) in cases {
        assert_eq!(
            Anomaly.truly(nano(0.5), Type::Elliptical, Nano::new(e), nano(1.0), Nano::new(-3)),
            Ok(TrueAnomaly::HalfTangent { ratio: Nano::new(ratio), half: Nano::new(-1) })
        );
    }
}

#[test]
fn true_anomaly_on_a_hyperbola_asks_for_the_hyperbolic_half_tangent() {
    let cases = [
        (1_500_000_000, 2_236_067_977),
        (3_000_000_000, 1_414_213_562),
        (1_000_000_001, 44_721_359_561_176),
        (i64::MAX, ONE),
    ];
    for (e, ratio) in cases {
        assert_eq!(
            Anomaly.truly(nano(0.5), Type::Hyperbolic, Nano::new(e), nano(1.0), Nano::new(7)),
            Ok(TrueAnomaly::HyperbolicHalfTangent { ratio: Nano::new(ratio), half: Nano::new(3) })
        );
    }
}

#[test]
fn true_anomaly_on_a_parabola_has_no_perifocal_distance() {
    for eccentric in [0, 9, -9] {
        assert_eq!(
            Anomaly.truly(nano(0.5), Type::Parabolic, nano(1.0), nano(2.0), Nano::new(eccentric)),
            Err(KeplerError::DomainPrecondition)
        );
    }
}

#[test]
fn half_tangent_is_scaled_by_the_ratio() {
    let state = TrueAnomaly::HalfTangent { ratio: Nano::new(1_098_200_601), half: Nano::new(274_358_384) };
    // 1.098200601 · 0.281643 = 0.309300511…
    assert_eq!(
        Anomaly.resolve(state, Nano::new(281_643_000)),
        Ok(TrueAnomaly::ArcTangent { of: Nano::new(309_300_511) })
    );
    assert_eq!(
        Anomaly.resolve(state, Nano::new(0)),
        Ok(TrueAnomaly::ArcTangent { of: Nano::new(0) })
    );
}

#[test]
fn tangent_beyond_the_quantities_is_clamped() {
    let state = TrueAnomaly::HalfTangent { ratio: Nano::new(2 * ONE), half: Nano::new(1_570_796_326) };
    assert_eq!(
        Anomaly.resolve(state, Nano::new(5_000_000_000_000_000_000)),
        Ok(TrueAnomaly::ArcTangent { of: Nano::new(i64::MAX) })
    );
    assert_eq!(
        Anomaly.resolve(state, Nano::new(-5_000_000_000_000_000_000)),
        Ok(TrueAnomaly::ArcTangent { of: Nano::new(-i64::MAX) })
    );
    assert_eq!(
        Anomaly.resolve(state, Nano::new(i64::MIN)),
        Ok(TrueAnomaly::ArcTangent { of: Nano::new(-i64::MAX) })
    );
}

#[test]
fn true_anomaly_is_twice_the_arc_tangent() {
    let state = TrueAnomaly::ArcTangent { of: Nano::new(309_300_511) };
    assert_eq!(
        Anomaly.resolve(state, Nano::new(299_979_986)),
        Ok(TrueAnomaly::Exact(Nano::new(599_959_972)))
    );
    assert_eq!(
        Anomaly.resolve(state, Nano::new(-299_979_986)),
        Ok(TrueAnomaly::Exact(Nano::new(-599_959_972)))
    );
    assert_eq!(Anomaly.resolve(state, Nano::new(0)), Ok(TrueAnomaly::Exact(Nano::new(0))));
}

#[test]
fn arc_tangent_lies_within_a_quarter_turn() {
    let state = TrueAnomaly::ArcTangent { of: Nano::new(i64::MAX) };
    assert_eq!(HALF_PI, 1_570_796_327);
    assert_eq!(
        Anomaly.resolve(state, Nano::new(HALF_PI)),
        Ok(TrueAnomaly::Exact(Nano::new(3_141_592_654)))
    );
    assert_eq!(
        Anomaly.resolve(state, Nano::new(-HALF_PI)),
        Ok(TrueAnomaly::Exact(Nano::new(-3_141_592_654)))
    );
    for beyond in [HALF_PI + 1, -HALF_PI - 1, 5 * ONE, -5 * ONE, i64::MAX, i64::MIN] {
        assert_eq!(
            Anomaly.resolve(state, Nano::new(beyond)),
            Err(KeplerError::DomainPrecondition)
        );
    }
}

#[test]
fn true_anomaly_is_odd_in_the_smallest_anomalies() {
    // For angles this small the tangent and the arc tangent are the angle.
    for eccentric in [1_i64, 2, 3, 4, 5, 7, 101] {
        let mut results = Vec::new();
        for sign in [1_i64, -1] {
            let seed = Nano::new(sign * eccentric);
            let mut state = Anomaly
                .truly(seed, Type::Elliptical, nano(0.0934), nano(1.52), Nano::new(sign * eccentric))
                .unwrap();
            assert_eq!(state.asks(), Asked::Tangent(Nano::new(sign * (eccentric / 2))));
            while let Asked::Tangent(point) | Asked::ArcTangent(point) = state.asks() {
                state = Anomaly.resolve(state, point).unwrap();
            }
            match state {
                TrueAnomaly::Exact(angle) => results.push(angle.units),
                other => panic!("unexpected state {:?}", other),
            }
        }
        assert_eq!(results[1], -results[0], "eccentric anomaly {}", eccentric);
    }
    let there = Anomaly.truly(Nano::new(3), Type::Elliptical, nano(0.0934), nano(1.52), Nano::new(3));
    assert_eq!(
        there,
        Ok(TrueAnomaly::HalfTangent { ratio: Nano::new(1_098_200_601), half: Nano::new(1) })
    );
    let back =
        Anomaly.truly(Nano::new(-3), Type::Elliptical, nano(0.0934), nano(1.52), Nano::new(-3));
    assert_eq!(
        back,
        Ok(TrueAnomaly::HalfTangent { ratio: Nano::new(1_098_200_601), half: Nano::new(-1) })
    );
}

#[test]
fn true_anomaly_is_odd_in_the_seed() {
    for (shape, e) in [(Type::Elliptical, 0.0934), (Type::Elliptical, 0.9), (Type::Hyperbolic, 1.5)] {
        for m in [0.000000003, 0.1, 0.5, 2.0, 3.0] {
            let there = true_anomaly(m, shape, e, 1.52).unwrap();
            let back = true_anomaly(-m, shape, e, 1.52).unwrap();
            assert_eq!(back, -there, "{:?} e {} m {}", shape, e, m);
        }
    }
    assert_eq!(true_anomaly(-0.5, Type::Circular, 0.0, 1.0), Ok(-1.0));
}

#[test]
fn products_are_rounded_toward_zero() {
    let state = TrueAnomaly::HalfTangent { ratio: Nano::new(1_500_000_000), half: Nano::new(1) };
    for (tangent, product) in [(1, 1), (-1, -1), (3, 4), (-3, -4), (0, 0)] {
        assert_eq!(
            Anomaly.resolve(state, Nano::new(tangent)),
            Ok(TrueAnomaly::ArcTangent { of: Nano::new(product) })
        );
    }
}

#[test]
fn solve_asks_for_the_functions_of_its_shape() {
    let seeding = Anomaly.eccentric(Type::Elliptical, nano(-0.5), nano(0.0934), nano(1.52)).unwrap();
    assert_eq!(seeding.asks(), Asked::SineCosine(Nano::new(500_000_000)));
    let refining = Anomaly.refine(seeding, at(479_425_539, 877_582_562)).unwrap();
    assert_eq!(refining.asks(), Asked::SineCosine(Nano::new(544_778_345)));
    let hyperbolic = Anomaly.eccentric(Type::Hyperbolic, nano(0.25), nano(1.5), nano(2.0)).unwrap();
    assert_eq!(hyperbolic.asks(), Asked::HyperbolicSineCosine(Nano::new(250_000_000)));
    assert_eq!(Solve::Settled(Nano::new(7)).asks(), Asked::Nothing);
}

#[test]
fn true_anomaly_asks_for_the_function_of_its_state() {
    let half = TrueAnomaly::HalfTangent { ratio: Nano::new(ONE), half: Nano::new(5) };
    assert_eq!(half.asks(), Asked::Tangent(Nano::new(5)));
    let arc = TrueAnomaly::ArcTangent { of: Nano::new(-6) };
    assert_eq!(arc.asks(), Asked::ArcTangent(Nano::new(-6)));
    let hyperbolic = TrueAnomaly::HyperbolicHalfTangent { ratio: Nano::new(ONE), half: Nano::new(8) };
    assert_eq!(hyperbolic.asks(), Asked::HyperbolicTangent(Nano::new(8)));
    assert_eq!(TrueAnomaly::Exact(Nano::new(9)).asks(), Asked::Nothing);
}

#[test]
fn hyperbolic_true_anomaly_is_the_scaled_half_tangent() {
    let state =
        TrueAnomaly::HyperbolicHalfTangent { ratio: Nano::new(2_236_067_977), half: Nano::new(383_671_587) };
    // 2.236067977 · 0.365 = 0.816164811…
    assert_eq!(
        Anomaly.resolve(state, Nano::new(365_000_000)),
        Ok(TrueAnomaly::Exact(Nano::new(816_164_811)))
    );
    assert_eq!(
        Anomaly.resolve(state, Nano::new(-365_000_000)),
        Ok(TrueAnomaly::Exact(Nano::new(-816_164_811)))
    );
    assert_eq!(
        Anomaly.resolve(state, Nano::new(ONE)),
        Ok(TrueAnomaly::Exact(Nano::new(2_236_067_977)))
    );
    assert_eq!(Anomaly.resolve(state, Nano::new(ONE + 1)), Err(KeplerError::DomainPrecondition));
    assert_eq!(Anomaly.resolve(state, Nano::new(-ONE - 1)), Err(KeplerError::DomainPrecondition));
}

#[test]
fn exact_true_anomaly_stays_as_it_is() {
    let state = TrueAnomaly::Exact(Nano::new(5));
    assert_eq!(Anomaly.resolve(state, Nano::new(123)), Ok(state));
}

#[test]
fn true_anomaly_agrees_with_the_half_angle_formula() {
    for (m, e) in [(0.5, 0.0934), (2.852_256_12, 0.0934), (3.141_592_653, 0.6), (5.0, 0.9)] {
        let (eccentric, _) = solve(Type::Elliptical, m, e, 1.0).unwrap();
        let expected = 2.0 * (((1.0 + e) / (1.0 - e)).sqrt() * (eccentric / 2.0).tan()).atan();
        let anomaly = true_anomaly(m, Type::Elliptical, e, 1.0).unwrap();
        assert!((anomaly - expected).abs() < 1e-7, "m {} e {}: {} and {}", m, e, anomaly, expected);
    }
    let (eccentric, _) = solve(Type::Hyperbolic, 0.5, 1.5, 1.0).unwrap();
    let expected = ((1.5_f64 + 1.0) / (1.5 - 1.0)).sqrt() * (eccentric / 2.0).tanh();
    let anomaly = true_anomaly(0.5, Type::Hyperbolic, 1.5, 1.0).unwrap();
    assert!((anomaly - expected).abs() < 1e-8);
}
