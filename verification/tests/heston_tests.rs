use fast_sde::error::Constraint;
use fast_sde::error::Instability;
use fast_sde::error::Method;
use fast_sde::error::SdeError;
use fast_sde::ieee::Double;
use fast_sde::models::heston::alfonsi_corrects;
use fast_sde::models::heston::floor_spot;
use fast_sde::models::heston::qe_atom_drawn;
use fast_sde::models::heston::qe_branch;
use fast_sde::models::heston::truncate_variance;
use fast_sde::models::heston::SPOT_FLOOR_BITS;
use fast_sde::models::heston::Heston;
use fast_sde::models::heston::HestonParams;
use fast_sde::models::heston::HestonScheme;
use fast_sde::models::heston::QeBranch;
use fast_sde::models::heston::MAX_KAPPA_BITS;
use fast_sde::models::heston::MAX_THETA_BITS;
use fast_sde::models::heston::MAX_XI_BITS;
use fast_sde::models::heston::QE_THRESHOLD_BITS;

fn d(x: f64) -> Double {
    Double::from_bits(x.to_bits())
}

fn params(s0: f64, v0: f64, r: f64, kappa: f64, theta: f64, xi: f64, rho: f64) -> HestonParams {
    HestonParams {
        s0: d(s0),
        v0: d(v0),
        r: d(r),
        kappa: d(kappa),
        theta: d(theta),
        xi: d(xi),
        rho: d(rho),
    }
}

fn good() -> HestonParams {
    params(100.0, 0.04, 0.05, 2.0, 0.04, 0.3, -0.5)
}

fn refused(name: &str, value: f64, constraint: Constraint) -> SdeError {
    SdeError::InvalidParameters { parameter: name.to_string(), value: d(value), constraint }
}

fn unstable(method: Method, reason: Instability) -> SdeError {
    SdeError::NumericalInstability { method, reason }
}

#[test]
fn test_feller_condition() {
    let params = params(100.0, 0.04, 0.05, 1.0, 0.04, 1.0, 0.0);

    let _heston = Heston::new(params).expect("Should create despite Feller violation");
}

#[test]
fn test_invalid_parameters() {
    let bad_params = params(100.0, 0.04, 0.05, 2.0, 0.04, -0.3, -0.5);
    assert!(Heston::new(bad_params).is_err());

    let bad_params2 = params(100.0, 0.04, 0.05, 2.0, 0.04, 0.3, 1.5);
    assert!(Heston::new(bad_params2).is_err());

    let bad_params3 = params(-100.0, 0.04, 0.05, 2.0, 0.04, 0.3, -0.5);
    assert!(Heston::new(bad_params3).is_err());
}

#[test]
fn heston_constants_are_the_bits_of_their_values() {
    assert_eq!(MAX_KAPPA_BITS, 100.0f64.to_bits());
    assert_eq!(MAX_XI_BITS, 5.0f64.to_bits());
    assert_eq!(MAX_THETA_BITS, 1.0f64.to_bits());
    assert_eq!(QE_THRESHOLD_BITS, 1.5f64.to_bits());
}

#[test]
fn constructors_keep_parameters_and_scheme() {
    let h = Heston::new(good()).unwrap();
    assert_eq!(h.params, good());
    assert_eq!(h.scheme, HestonScheme::AndersenQE);
    for scheme in [HestonScheme::FullTruncationEuler, HestonScheme::AndersenQE, HestonScheme::Alfonsi] {
        let h = Heston::new_with_scheme(good(), scheme).unwrap();
        assert_eq!(h.params, good());
        assert_eq!(h.scheme, scheme);
        let quiet = Heston::new_with_scheme_quiet(good(), scheme, true).unwrap();
        assert_eq!(quiet.scheme, scheme);
        let loud = Heston::new_with_scheme_quiet(good(), scheme, false).unwrap();
        assert_eq!(loud.params, quiet.params);
    }
}

#[test]
fn feller_violation_is_accepted_under_every_scheme() {
    let p = params(100.0, 0.04, 0.05, 1.0, 0.04, 0.5, 0.0);
    for scheme in [HestonScheme::FullTruncationEuler, HestonScheme::AndersenQE, HestonScheme::Alfonsi] {
        assert!(Heston::new_with_scheme(p, scheme).is_ok());
        assert!(Heston::new_with_scheme_quiet(p, scheme, true).is_ok());
    }
}

#[test]
fn each_rule_gives_its_error() {
    let cases = [
        (params(0.0, 0.04, 0.05, 2.0, 0.04, 0.3, -0.5), refused("s0", 0.0, Constraint::Positive)),
        (params(100.0, -0.04, 0.05, 2.0, 0.04, 0.3, -0.5), refused("v0", -0.04, Constraint::NonNegative)),
        (
            params(100.0, 0.04, f64::INFINITY, 2.0, 0.04, 0.3, -0.5),
            refused("r", f64::INFINITY, Constraint::Finite),
        ),
        (params(100.0, 0.04, 0.05, 0.0, 0.04, 0.3, -0.5), refused("kappa", 0.0, Constraint::Positive)),
        (params(100.0, 0.04, 0.05, 2.0, -1.0, 0.3, -0.5), refused("theta", -1.0, Constraint::Positive)),
        (params(100.0, 0.04, 0.05, 2.0, 0.04, -0.3, -0.5), refused("xi", -0.3, Constraint::Positive)),
        (
            params(100.0, 0.04, 0.05, 2.0, 0.04, 0.3, 1.5),
            refused("rho", 1.5, Constraint::InRange { min: d(-1.0), max: d(1.0) }),
        ),
        (
            params(100.0, 0.04, 0.05, 100.5, 0.04, 0.3, -0.5),
            refused("kappa", 100.5, Constraint::MeanReversionTooFast),
        ),
        (params(100.0, 0.04, 0.05, 2.0, 0.04, 5.5, -0.5), refused("xi", 5.5, Constraint::VolOfVolTooHigh)),
        (
            params(100.0, 0.04, 0.05, 2.0, 1.5, 0.3, -0.5),
            refused("theta", 1.5, Constraint::LongRunVarianceTooHigh),
        ),
    ];
    for (p, e) in cases {
        assert_eq!(Heston::validate_params(&p), Err(e.clone()));
        assert_eq!(Heston::new(p).err(), Some(e));
    }
}

#[test]
fn the_first_broken_rule_is_reported() {
    let p = params(-1.0, -1.0, f64::NAN, -1.0, -1.0, -1.0, 2.0);
    assert_eq!(Heston::validate_params(&p), Err(refused("s0", -1.0, Constraint::Positive)));
    let q = params(100.0, 0.04, 0.05, 200.0, 0.04, 0.3, 2.0);
    assert_eq!(
        Heston::validate_params(&q),
        Err(refused("rho", 2.0, Constraint::InRange { min: d(-1.0), max: d(1.0) }))
    );
}

#[test]
fn bounds_are_included() {
    assert!(Heston::new(params(100.0, 0.0, 0.05, 100.0, 1.0, 5.0, 1.0)).is_ok());
    assert!(Heston::new(params(100.0, 0.0, 0.05, 100.0, 1.0, 5.0, -1.0)).is_ok());
}

#[test]
fn step_inputs_are_checked_in_order() {
    for scheme in [HestonScheme::FullTruncationEuler, HestonScheme::AndersenQE, HestonScheme::Alfonsi] {
        let h = Heston::new_with_scheme(good(), scheme).unwrap();
        assert_eq!(h.check_step_inputs(d(100.0), d(0.04), d(0.01)), Ok(()));
        assert_eq!(h.check_step_inputs(d(100.0), d(0.0), d(0.01)), Ok(()));
        for dt in [0.0, -0.01, f64::NAN, f64::INFINITY] {
            assert_eq!(
                h.check_step_inputs(d(-1.0), d(-1.0), d(dt)),
                Err(unstable(Method::Heston(scheme), Instability::IncrementInvalid(d(dt))))
            );
        }
        for s in [0.0, -5.0, f64::NAN, f64::INFINITY] {
            assert_eq!(
                h.check_step_inputs(d(s), d(-1.0), d(0.01)),
                Err(unstable(Method::Heston(scheme), Instability::SpotInvalid(d(s))))
            );
        }
        for v in [-1e-12, f64::NAN, f64::INFINITY] {
            assert_eq!(
                h.check_step_inputs(d(100.0), d(v), d(0.01)),
                Err(unstable(Method::Heston(scheme), Instability::VarianceInvalid(d(v))))
            );
        }
    }
}

#[test]
fn a_step_of_no_length_is_an_instability_of_the_scheme() {
    let h = Heston::new_with_scheme_quiet(good(), HestonScheme::FullTruncationEuler, true).unwrap();
    let s = d(100.0);
    let v = d(0.04);
    let r = h.check_step_inputs(s, v, d(0.0));
    assert_eq!(
        r,
        Err(SdeError::NumericalInstability {
            method: Method::Heston(HestonScheme::FullTruncationEuler),
            reason: Instability::IncrementInvalid(d(0.0)),
        })
    );
    assert!(!r.unwrap_err().is_bad_input());
    assert_eq!(h.scheme_name(), "Full Truncation Euler");
    assert_eq!((s, v), (d(100.0), d(0.04)));
}

#[test]
fn step_outputs_name_the_scheme() {
    for scheme in [HestonScheme::FullTruncationEuler, HestonScheme::AndersenQE, HestonScheme::Alfonsi] {
        let h = Heston::new_with_scheme(good(), scheme).unwrap();
        assert_eq!(h.check_step_outputs(d(101.0), d(0.041)), Ok(()));
        assert_eq!(h.check_step_outputs(d(1e-10), d(0.0)), Ok(()));
        assert_eq!(
            h.check_step_outputs(d(0.0), d(f64::NAN)),
            Err(unstable(Method::Heston(scheme), Instability::SpotInvalidAfterStep(d(0.0))))
        );
        assert_eq!(
            h.check_step_outputs(d(f64::INFINITY), d(0.04)),
            Err(unstable(Method::Heston(scheme), Instability::SpotInvalidAfterStep(d(f64::INFINITY))))
        );
        assert_eq!(
            h.check_step_outputs(d(101.0), d(-0.001)),
            Err(unstable(Method::Heston(scheme), Instability::VarianceInvalidAfterStep(d(-0.001))))
        );
        assert_eq!(
            h.check_step_outputs(d(101.0), d(f64::NAN)),
            Err(unstable(Method::Heston(scheme), Instability::VarianceInvalidAfterStep(d(f64::NAN))))
        );
    }
}

#[test]
fn finish_step_writes_the_state_and_checks_it() {
    let h = Heston::new(good()).unwrap();
    let mut s = d(100.0);
    let mut v = d(0.04);
    assert_eq!(h.finish_step(&mut s, &mut v, d(101.5), d(0.039)), Ok(()));
    assert_eq!((s, v), (d(101.5), d(0.039)));
    assert_eq!(h.check_step_inputs(s, v, d(0.01)), Ok(()));
    let r = h.finish_step(&mut s, &mut v, d(f64::NAN), d(0.039));
    assert_eq!(
        r,
        Err(unstable(
            Method::Heston(HestonScheme::AndersenQE),
            Instability::SpotInvalidAfterStep(d(f64::NAN))
        ))
    );
    assert!(s.is_nan());
    assert_eq!(v, d(0.039));
}

#[test]
fn a_path_of_successful_steps_stays_usable() {
    for scheme in [HestonScheme::FullTruncationEuler, HestonScheme::AndersenQE, HestonScheme::Alfonsi] {
        let h = Heston::new_with_scheme(good(), scheme).unwrap();
        let mut s = d(100.0);
        let mut v = d(0.04);
        let mut x: f64 = 100.0;
        let mut y: f64 = 0.04;
        for i in 0..100 {
            assert_eq!(h.check_step_inputs(s, v, d(0.01)), Ok(()));
            x = x * (1.0 + 0.01 * ((i % 7) as f64 - 3.0));
            y = (y + 0.005 * ((i % 5) as f64 - 2.0)).max(0.0);
            h.finish_step(&mut s, &mut v, d(x), d(y)).expect("Step should succeed");
            assert!(f64::from_bits(s.to_bits()) > 0.0, "Stock price must remain positive");
            assert!(f64::from_bits(v.to_bits()) >= 0.0, "Variance must be non-negative");
        }
    }
}

#[test]
fn scheme_names() {
    let name = |scheme| Heston::new_with_scheme(good(), scheme).unwrap().scheme_name();
    assert_eq!(name(HestonScheme::FullTruncationEuler), "Full Truncation Euler");
    assert_eq!(name(HestonScheme::AndersenQE), "Andersen QE");
    assert_eq!(name(HestonScheme::Alfonsi), "Alfonsi");
    assert_eq!(HestonScheme::FullTruncationEuler.name(), "Full Truncation Euler");
    assert_eq!(HestonScheme::AndersenQE.name(), "Andersen QE");
    assert_eq!(HestonScheme::Alfonsi.name(), "Alfonsi");
}

#[test]
fn quadratic_branch_up_to_the_threshold() {
    assert_eq!(qe_branch(d(0.0)), QeBranch::Quadratic);
    assert_eq!(qe_branch(d(1.0)), QeBranch::Quadratic);
    assert_eq!(qe_branch(d(1.5)), QeBranch::Quadratic);
    assert_eq!(qe_branch(d(1.5000000000000002)), QeBranch::Exponential);
    assert_eq!(qe_branch(d(20.0)), QeBranch::Exponential);
    assert_eq!(qe_branch(d(f64::INFINITY)), QeBranch::Exponential);
    assert_eq!(qe_branch(d(f64::NAN)), QeBranch::Exponential);
}

#[test]
fn feller_condition_is_decided_exactly() {
    assert!(params(100.0, 0.04, 0.05, 1.0, 0.04, 1.0, 0.0).feller_violated());
    assert!(params(100.0, 0.04, 0.05, 1.0, 0.04, 0.5, 0.0).feller_violated());
    assert!(!good().feller_violated());
    assert!(params(100.0, 0.04, 0.05, 1.0, 0.5, 1.0, 0.0).feller_violated());
    assert!(!params(100.0, 0.04, 0.05, 1.0, 0.5000000000000001, 1.0, 0.0).feller_violated());
    assert!(params(100.0, 0.04, 0.05, 1.0, 0.5, 1.0000000000000002, 0.0).feller_violated());
    assert!(!params(100.0, 0.04, 0.05, 2.0, 0.25, 0.9999999999999999, 0.0).feller_violated());
    assert!(params(100.0, 0.04, 0.05, 8.0, 0.5, 2.8284271247461903, 0.0).feller_violated());
    assert!(!params(100.0, 0.04, 0.05, 8.0, 0.5, 2.82842712474619, 0.0).feller_violated());
}

#[test]
fn feller_condition_agrees_with_rounded_arithmetic_away_from_the_edge() {
    let grid = [0.01, 0.04, 0.1, 0.25, 0.3, 0.5, 1.0, 2.0, 3.5, 5.0, 50.0, 100.0];
    for kappa in grid {
        for theta in grid {
            for xi in grid {
                let lhs: f64 = 2.0 * kappa * theta;
                let rhs: f64 = xi * xi;
                if (lhs - rhs).abs() > 1e-9 * rhs {
                    assert_eq!(
                        params(100.0, 0.04, 0.05, kappa, theta, xi, 0.0).feller_violated(),
                        lhs <= rhs,
                        "{kappa} {theta} {xi}"
                    );
                }
            }
        }
    }
}

#[test]
fn feller_condition_of_values_that_are_not_finite() {
    assert!(!params(100.0, 0.04, 0.05, f64::INFINITY, 0.04, 1.0, 0.0).feller_violated());
    assert!(!params(100.0, 0.04, 0.05, 1.0, f64::NAN, 1.0, 0.0).feller_violated());
    assert!(!params(100.0, 0.04, 0.05, 1.0, 0.04, f64::INFINITY, 0.0).feller_violated());
    assert!(params(100.0, 0.04, 0.05, 0.0, 0.04, 0.0, 0.0).feller_violated());
}

#[test]
fn variance_is_cut_off_at_zero() {
    assert_eq!(truncate_variance(d(0.04)), d(0.04));
    assert_eq!(truncate_variance(d(0.0)), d(0.0));
    assert_eq!(truncate_variance(d(-0.001)), d(0.0));
    assert_eq!(truncate_variance(d(f64::NAN)), d(0.0));
    assert_eq!(truncate_variance(d(-0.0)), d(0.0));
    let h = Heston::new(good()).unwrap();
    assert_eq!(h.check_step_outputs(d(100.0), truncate_variance(d(-0.3))), Ok(()));
}

#[test]
fn spot_does_not_fall_below_its_floor() {
    assert_eq!(SPOT_FLOOR_BITS, 1e-10f64.to_bits());
    assert_eq!(floor_spot(d(101.5)), d(101.5));
    assert_eq!(floor_spot(d(1.0000000000000002e-10)), d(1.0000000000000002e-10));
    assert_eq!(floor_spot(d(1e-10)), d(1e-10));
    assert_eq!(floor_spot(d(1e-11)), d(1e-10));
    assert_eq!(floor_spot(d(0.0)), d(1e-10));
    assert_eq!(floor_spot(d(-5.0)), d(1e-10));
    assert_eq!(floor_spot(d(f64::NAN)), d(1e-10));
    assert_eq!(floor_spot(d(f64::INFINITY)), d(f64::INFINITY));
}

#[test]
fn atom_is_drawn_up_to_its_weight() {
    assert!(qe_atom_drawn(d(0.0), d(0.2)));
    assert!(qe_atom_drawn(d(0.2), d(0.2)));
    assert!(!qe_atom_drawn(d(0.20000000000000004), d(0.2)));
    assert!(!qe_atom_drawn(d(0.9), d(0.2)));
    assert!(!qe_atom_drawn(d(0.1), d(f64::NAN)));
    assert!(!qe_atom_drawn(d(0.0), d(-0.1)));
}

#[test]
fn correction_needs_both_variances_above_zero() {
    assert!(alfonsi_corrects(d(0.04), d(0.05)));
    assert!(alfonsi_corrects(d(f64::MIN_POSITIVE), d(f64::MIN_POSITIVE)));
    assert!(!alfonsi_corrects(d(0.0), d(0.05)));
    assert!(!alfonsi_corrects(d(0.04), d(0.0)));
    assert!(!alfonsi_corrects(d(0.04), d(-0.01)));
    assert!(!alfonsi_corrects(d(-0.0), d(0.05)));
    assert!(!alfonsi_corrects(d(f64::NAN), d(0.05)));
    assert!(!alfonsi_corrects(d(0.04), d(f64::NAN)));
}
