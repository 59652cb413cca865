//! The configuration of a pricing run and the rules of its estimators.

use vstd::prelude::*;
use crate::error::validation::validate_finite;
use crate::error::validation::validate_paths;
use crate::error::validation::validate_positive;
use crate::error::validation::validate_steps;
use crate::error::validation::MAX_PATHS;
use crate::error::validation::MAX_STEPS;
use crate::error::Constraint;
use crate::error::Instability;
use crate::error::Method;
use crate::error::refused;
use crate::error::Rejection;
use crate::error::SdeError;
use crate::ieee::zero;
use crate::ieee::Double;
use crate::mc::payoffs::Payoff;
use crate::rng::HORIZON;

verus! {

/// A sensitivity of the price.
#[derive(Clone, Copy, Debug, PartialEq, Eq, Structural)]
pub enum Greek {
    /// To the spot price.
    Delta,
    /// To the volatility.
    Vega,
    /// To the risk-free rate.
    Rho,
    /// To the spot price, of second order.
    Gamma,
}

impl Greek {
    /// The bit that stands for the sensitivity in a set.
    pub open spec fn mask_spec(self) -> u32 {
        match self {
            Greek::Delta => 1,
            Greek::Vega => 2,
            Greek::Rho => 4,
            Greek::Gamma => 8,
        }
    }

    /// The bit that stands for the sensitivity in a set.
    #[verifier::when_used_as_spec(mask_spec)]
    pub fn mask(self) -> (r: u32)
        ensures
            r == self.mask_spec(),
    {
        match self {
            Greek::Delta => 1,
            Greek::Vega => 2,
            Greek::Rho => 4,
            Greek::Gamma => 8,
        }
    }
}

/// The set of sensitivities that a run is asked for, one bit each.
#[derive(Clone, Copy, Debug, PartialEq, Eq, Structural)]
pub struct GreeksConfig {
    bits: u32,
}

impl GreeksConfig {
    /// The bits of the set.
    pub closed spec fn bits_spec(self) -> u32 {
        self.bits
    }

    /// Whether the set holds only bits that stand for a sensitivity.
    pub open spec fn wf(self) -> bool {
        self.bits_spec() <= 15
    }

    /// Whether the sensitivity is in the set.
    pub open spec fn has_spec(self, greek: Greek) -> bool {
        self.bits_spec() & greek.mask_spec() != 0
    }

    /// The empty set.
    pub fn none() -> (r: GreeksConfig)
        ensures
            r.bits_spec() == 0,
            r.wf(),
            forall|g: Greek| !r.has_spec(g),
    {
        assert(forall|m: u32| 0u32 & m == 0) by (bit_vector);
        GreeksConfig { bits: 0 }
    }

    /// The set of the one sensitivity.
    pub fn only(greek: Greek) -> (r: GreeksConfig)
        ensures
            r.bits_spec() == greek.mask_spec(),
            r.wf(),
            forall|g: Greek| r.has_spec(g) == (g == greek),
    {
        assert(1u32 & 1 != 0 && 1u32 & 2 == 0 && 1u32 & 4 == 0 && 1u32 & 8 == 0) by (bit_vector);
        assert(2u32 & 1 == 0 && 2u32 & 2 != 0 && 2u32 & 4 == 0 && 2u32 & 8 == 0) by (bit_vector);
        assert(4u32 & 1 == 0 && 4u32 & 2 == 0 && 4u32 & 4 != 0 && 4u32 & 8 == 0) by (bit_vector);
        assert(8u32 & 1 == 0 && 8u32 & 2 == 0 && 8u32 & 4 == 0 && 8u32 & 8 != 0) by (bit_vector);
        GreeksConfig { bits: greek.mask() }
    }

    /// The set with the given bits, where each of them stands for a
    /// sensitivity.
    pub fn from_bits(bits: u32) -> (r: Option<GreeksConfig>)
        ensures
            r.is_some() == (bits <= 15),
            r matches Some(set) ==> set.bits_spec() == bits && set.wf(),
    {
        if bits <= 15 {
            Some(GreeksConfig { bits })
        } else {
            None
        }
    }

    /// The bits of the set.
    pub fn bits(&self) -> (r: u32)
        ensures
            r == self.bits_spec(),
    {
        self.bits
    }

    /// Whether no sensitivity is in the set.
    pub fn is_empty(&self) -> (r: bool)
        ensures
            r == (self.bits_spec() == 0),
    {
        self.bits == 0
    }

    /// Whether the sensitivity is in the set.
    pub fn has(&self, greek: Greek) -> (r: bool)
        ensures
            r == self.has_spec(greek),
    {
        self.bits & greek.mask() != 0
    }

    /// Whether every sensitivity of `other` is in the set.
    pub fn contains(&self, other: GreeksConfig) -> (r: bool)
        ensures
            r == (forall|g: Greek| other.has_spec(g) ==> self.has_spec(g)),
    {
        let a: u32 = self.bits;
        let b: u32 = other.bits;
        assert((a & b & 15 == b & 15) <==> ((b & 1 != 0 ==> a & 1 != 0) && (b & 2 != 0 ==> a & 2
            != 0) && (b & 4 != 0 ==> a & 4 != 0) && (b & 8 != 0 ==> a & 8 != 0))) by (bit_vector);
        let r = a & b & 15 == b & 15;
        proof {
            if r {
                assert forall|g: Greek| other.has_spec(g) implies self.has_spec(g) by {
                    match g {
                        Greek::Delta => {},
                        Greek::Vega => {},
                        Greek::Rho => {},
                        Greek::Gamma => {},
                    }
                }
            } else {
                assert((other.has_spec(Greek::Delta) && !self.has_spec(Greek::Delta)) || (
                other.has_spec(Greek::Vega) && !self.has_spec(Greek::Vega)) || (other.has_spec(
                    Greek::Rho,
                ) && !self.has_spec(Greek::Rho)) || (other.has_spec(Greek::Gamma) && !self.has_spec(
                    Greek::Gamma,
                )));
            }
        }
        r
    }

    /// The set of the sensitivities that are in either set.
    pub fn union(self, other: GreeksConfig) -> (r: GreeksConfig)
        ensures
            r.bits_spec() == self.bits_spec() | other.bits_spec(),
            forall|g: Greek| r.has_spec(g) == (self.has_spec(g) || other.has_spec(g)),
            self.wf() && other.wf() ==> r.wf(),
    {
        let a: u32 = self.bits;
        let b: u32 = other.bits;
        assert(forall|m: u32| ((a | b) & m != 0) == (a & m != 0 || b & m != 0)) by (bit_vector);
        assert(a <= 15 && b <= 15 ==> (a | b) <= 15) by (bit_vector);
        GreeksConfig { bits: a | b }
    }
}

/// The bits of `1e-10`: a variance of the control below it counts as none,
/// and a variance estimate less than that far below zero counts as zero.
pub const NEGLIGIBLE_BITS: u64 = 0x3DDB_7CDF_D9D7_BDBB;

/// The bits of `-1e-10`.
pub const MINUS_NEGLIGIBLE_BITS: u64 = 0xBDDB_7CDF_D9D7_BDBB;

/// The bits of `100.0`, the spot price and the strike of the default run.
pub const DEFAULT_SPOT_BITS: u64 = 0x4059_0000_0000_0000;

/// The bits of `0.01`, the risk-free rate of the default run.
pub const DEFAULT_RATE_BITS: u64 = 0x3F84_7AE1_47AE_147B;

/// The bits of `0.2`, the volatility of the default run.
pub const DEFAULT_SIGMA_BITS: u64 = 0x3FC9_9999_9999_999A;

/// The bits of `1.0`, the maturity of the default run.
pub const DEFAULT_MATURITY_BITS: u64 = 0x3FF0_0000_0000_0000;

/// Whether a bump of the spot price is more than a tenth of it, for a bump
/// and a spot above zero. The two are compared exactly. An infinite spot
/// has no bump too large, and an infinite bump is too large for any finite
/// spot.
pub open spec fn bump_too_large(epsilon: Double, spot: Double) -> bool {
    spot.is_finite_spec() && (!epsilon.is_finite_spec() || 10 * epsilon.scaled_magnitude()
        > spot.scaled_magnitude())
}

/// The configuration of a pricing run.
#[derive(Clone, Copy, Debug, PartialEq, Eq, Structural)]
pub struct McConfig {
    /// The number of paths.
    pub paths: usize,
    /// The number of time steps of each path.
    pub steps: usize,
    /// The initial spot price.
    pub s0: Double,
    /// The risk-free rate.
    pub r: Double,
    /// The volatility.
    pub sigma: Double,
    /// The maturity.
    pub t: Double,
    /// Whether each path is paired with its mirror image.
    pub use_antithetic: bool,
    /// Whether a control variate is applied.
    pub use_control_variate: bool,
    /// The base seed.
    pub seed: u64,
    /// The contract.
    pub payoff: Payoff,
    /// The sensitivities asked for.
    pub greeks: GreeksConfig,
    /// The bump of the spot price for finite differences, where the caller
    /// fixes it.
    pub epsilon: Option<Double>,
}

impl McConfig {
    /// The first rule that the configuration breaks, in the order in which
    /// they are checked; `None` where it breaks none.
    pub open spec fn rejection(self) -> Option<Rejection> {
        if self.paths == 0 {
            Some(Rejection::Configuration { field: "paths"@, reason: "must be greater than 0"@ })
        } else if self.paths > MAX_PATHS {
            Some(
                Rejection::Configuration {
                    field: "paths"@,
                    reason: "exceeds maximum allowed (1 billion)"@,
                },
            )
        } else if self.steps == 0 {
            Some(Rejection::Configuration { field: "steps"@, reason: "must be greater than 0"@ })
        } else if self.steps > MAX_STEPS {
            Some(
                Rejection::Configuration {
                    field: "steps"@,
                    reason: "exceeds maximum allowed (100,000)"@,
                },
            )
        } else if !self.s0.gt_spec(zero()) {
            Some(refused("s0"@, self.s0, Constraint::Positive))
        } else if !self.r.is_finite_spec() {
            Some(refused("r"@, self.r, Constraint::Finite))
        } else if !self.sigma.gt_spec(zero()) {
            Some(refused("sigma"@, self.sigma, Constraint::Positive))
        } else if !self.t.gt_spec(zero()) {
            Some(refused("t"@, self.t, Constraint::Positive))
        } else {
            match self.epsilon {
                None => None,
                Some(eps) => if !eps.gt_spec(zero()) {
                    Some(refused("epsilon"@, eps, Constraint::Positive))
                } else if bump_too_large(eps, self.s0) {
                    Some(refused("epsilon"@, eps, Constraint::SmallBesideSpot { spot: self.s0 }))
                } else {
                    None
                },
            }
        }
    }

    /// Whether the configuration breaks no rule.
    pub open spec fn valid(self) -> bool {
        self.rejection().is_none()
    }

    /// Checks the configuration rule by rule and reports the first that is
    /// broken. Nothing is simulated and nothing is drawn.
    pub fn validate(&self) -> (r: Result<(), SdeError>)
        ensures
            r.is_ok() == self.valid(),
            r matches Err(e) ==> e.reports(self.rejection().unwrap()),
    {
        validate_paths(self.paths)?;
        validate_steps(self.steps)?;
        validate_positive("s0", self.s0)?;
        validate_finite("r", self.r)?;
        validate_positive("sigma", self.sigma)?;
        validate_positive("t", self.t)?;
        match self.epsilon {
            None => Ok(()),
            Some(eps) => {
                validate_positive("epsilon", eps)?;
                if self.s0.is_finite() && (!eps.is_finite() || eps.times_exceeds(10, self.s0)) {
                    return Err(
                        SdeError::InvalidParameters {
                            parameter: "epsilon".to_owned(),
                            value: eps,
                            constraint: Constraint::SmallBesideSpot { spot: self.s0 },
                        },
                    );
                }
                Ok(())
            },
        }
    }
}

impl Default for McConfig {
    /// A million paths of one step for a European call at the money, with
    /// both variance reductions.
    fn default() -> (r: McConfig)
        ensures
            r.paths == 1_000_000,
            r.steps == 1,
            r.s0.bits == DEFAULT_SPOT_BITS,
            r.r.bits == DEFAULT_RATE_BITS,
            r.sigma.bits == DEFAULT_SIGMA_BITS,
            r.t.bits == DEFAULT_MATURITY_BITS,
            r.use_antithetic,
            r.use_control_variate,
            r.seed == 12345,
            r.payoff == (Payoff::EuropeanCall { k: Double { bits: DEFAULT_SPOT_BITS } }),
            r.greeks.bits_spec() == 0,
            r.epsilon.is_none(),
            r.valid(),
    {
        McConfig {
            paths: 1_000_000,
            steps: 1,
            s0: Double::from_bits(DEFAULT_SPOT_BITS),
            r: Double::from_bits(DEFAULT_RATE_BITS),
            sigma: Double::from_bits(DEFAULT_SIGMA_BITS),
            t: Double::from_bits(DEFAULT_MATURITY_BITS),
            use_antithetic: true,
            use_control_variate: true,
            seed: 12345,
            payoff: Payoff::EuropeanCall { k: Double::from_bits(DEFAULT_SPOT_BITS) },
            greeks: GreeksConfig::none(),
            epsilon: None,
        }
    }
}

/// A configuration with no paths, with a volatility that is not above zero,
/// or with a bump above a tenth of the spot is not valid, whatever else it
/// holds: validation refuses it, and validation simulates nothing.
pub proof fn lemma_invalid_configuration_is_refused(cfg: McConfig)
    ensures
        cfg.paths == 0 ==> !cfg.valid(),
        !cfg.sigma.gt_spec(zero()) ==> !cfg.valid(),
        cfg.epsilon matches Some(eps) && bump_too_large(eps, cfg.s0) ==> !cfg.valid(),
{
}

/// A valid configuration stays inside the horizon of the random streams:
/// every path index is below it, and so is the number of uniform draws
/// that the normal draws of one path take, two for each pair.
pub proof fn lemma_valid_run_within_horizon(cfg: McConfig)
    requires
        cfg.valid(),
    ensures
        cfg.paths < HORIZON,
        2 * cfg.steps + 2 < HORIZON,
{
}

/// Whether the sample variance of the control is large enough to divide
/// by: above `1e-10`. Where it is not, the coefficient of the control is
/// zero.
pub fn control_variance_usable(variance_of_control: Double) -> (r: bool)
    ensures
        r == variance_of_control.gt_spec(Double { bits: NEGLIGIBLE_BITS }),
{
    variance_of_control.gt(Double::from_bits(NEGLIGIBLE_BITS))
}

/// The estimator whose variance failed: the controlled one where a control
/// variate is applied, the plain one otherwise.
pub open spec fn estimator(use_control_variate: bool) -> Method {
    if use_control_variate {
        Method::ControlVariateMonteCarlo
    } else {
        Method::MonteCarlo
    }
}

/// What becomes of a raw variance estimate: one below zero by less than
/// `1e-10` is rounding and becomes zero, one further below zero is a
/// failure, and any other is kept.
pub open spec fn settled_variance(variance: Double) -> Option<Double> {
    if !variance.lt_spec(zero()) {
        Some(variance)
    } else if variance.gt_spec(Double { bits: MINUS_NEGLIGIBLE_BITS }) {
        Some(zero())
    } else {
        None
    }
}

/// Settles a raw variance estimate: zero for one that only rounding took
/// below zero, a failure of the estimator for one further below.
pub fn settle_variance(variance: Double, use_control_variate: bool) -> (r: Result<
    Double,
    SdeError,
>)
    ensures
        r.is_ok() == settled_variance(variance).is_some(),
        r matches Ok(v) ==> Some(v) == settled_variance(variance) && !v.lt_spec(zero()),
        r matches Err(e) ==> e.is_instability(
            estimator(use_control_variate),
            Instability::NegativeVariance(variance),
        ),
{
    if variance.lt(Double::from_bits(0)) {
        if variance.gt(Double::from_bits(MINUS_NEGLIGIBLE_BITS)) {
            Ok(Double::from_bits(0))
        } else {
            let method = if use_control_variate {
                Method::ControlVariateMonteCarlo
            } else {
                Method::MonteCarlo
            };
            Err(
                SdeError::NumericalInstability {
                    method,
                    reason: Instability::NegativeVariance(variance),
                },
            )
        }
    } else {
        Ok(variance)
    }
}

/// The last step of a pricing run: settles the raw variance and refuses a
/// price or a variance that is not finite. The pair that comes out is the
/// price and the variance of the estimate: both are finite, and the
/// variance is zero or above.
pub fn conclude_estimate(price: Double, variance: Double, use_control_variate: bool) -> (r:
    Result<(Double, Double), SdeError>)
    ensures
        r.is_ok() == (settled_variance(variance) matches Some(v) && price.is_finite_spec()
            && v.is_finite_spec()),
        r matches Ok(pair) ==> pair.0 == price && Some(pair.1) == settled_variance(variance),
        r matches Ok(pair) ==> pair.0.is_finite_spec() && pair.1.is_finite_spec()
            && pair.1.ge_spec(zero()),
        settled_variance(variance).is_none() ==> (r matches Err(e) && e.is_instability(
            estimator(use_control_variate),
            Instability::NegativeVariance(variance),
        )),
        settled_variance(variance).is_some() && !price.is_finite_spec() ==> (r matches Err(e)
            && e.is_instability(Method::MonteCarlo, Instability::PriceNotFinite(price))),
        settled_variance(variance).is_some() && price.is_finite_spec() && !settled_variance(
            variance,
        ).unwrap().is_finite_spec() ==> (r matches Err(e) && e.is_instability(
            Method::MonteCarlo,
            Instability::VarianceNotFinite(settled_variance(variance).unwrap()),
        )),
{
    let settled = settle_variance(variance, use_control_variate)?;
    if !price.is_finite() {
        return Err(
            SdeError::NumericalInstability {
                method: Method::MonteCarlo,
                reason: Instability::PriceNotFinite(price),
            },
        );
    }
    if !settled.is_finite() {
        return Err(
            SdeError::NumericalInstability {
                method: Method::MonteCarlo,
                reason: Instability::VarianceNotFinite(settled),
            },
        );
    }
    Ok((price, settled))
}

} // verus!
