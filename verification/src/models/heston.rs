//! The Heston stochastic-volatility model: its parameters, the schemes
//! that advance it, and the checks that guard every step.

use vstd::prelude::*;
use crate::error::validation::validate_correlation;
use crate::error::validation::validate_finite;
use crate::error::validation::validate_non_negative;
use crate::error::validation::validate_positive;
use crate::error::Constraint;
use crate::error::Instability;
use crate::error::Method;
use crate::error::refused;
use crate::error::Rejection;
use crate::error::SdeError;
use crate::ieee::floor_at;
use crate::ieee::floor_at_spec;
use crate::ieee::floor_at_zero;
use crate::ieee::minus_one;
use crate::ieee::product_at_most;
use crate::ieee::one;
use crate::ieee::zero;
use crate::ieee::Double;
use crate::ieee::ONE_BITS;

verus! {

/// The bits of `100.0`, the largest mean-reversion speed that is accepted.
pub const MAX_KAPPA_BITS: u64 = 0x4059_0000_0000_0000;

/// The bits of `5.0`, the largest volatility of variance that is accepted.
pub const MAX_XI_BITS: u64 = 0x4014_0000_0000_0000;

/// The bits of `1.0`, the largest long-run variance that is accepted.
pub const MAX_THETA_BITS: u64 = ONE_BITS;

/// The scheme that advances spot and variance by one increment of time.
#[derive(Clone, Copy, Debug, PartialEq, Eq, Structural)]
pub enum HestonScheme {
    /// An Euler step of the variance, cut off at zero.
    FullTruncationEuler,
    /// Andersen's quadratic-exponential scheme.
    AndersenQE,
    /// Alfonsi's scheme.
    Alfonsi,
}

impl HestonScheme {
    /// The name of the scheme.
    pub open spec fn name_spec(self) -> Seq<char> {
        match self {
            HestonScheme::FullTruncationEuler => "Full Truncation Euler"@,
            HestonScheme::AndersenQE => "Andersen QE"@,
            HestonScheme::Alfonsi => "Alfonsi"@,
        }
    }

    /// The name of the scheme.
    pub fn name(self) -> (r: &'static str)
        ensures
            r@ == self.name_spec(),
    {
        match self {
            HestonScheme::FullTruncationEuler => "Full Truncation Euler",
            HestonScheme::AndersenQE => "Andersen QE",
            HestonScheme::Alfonsi => "Alfonsi",
        }
    }
}

/// The parameters of the model.
#[derive(Clone, Copy, Debug, PartialEq, Eq, Structural)]
pub struct HestonParams {
    /// The initial spot price.
    pub s0: Double,
    /// The initial variance.
    pub v0: Double,
    /// The risk-free rate.
    pub r: Double,
    /// The speed of mean reversion.
    pub kappa: Double,
    /// The long-run variance.
    pub theta: Double,
    /// The volatility of the variance.
    pub xi: Double,
    /// The correlation of spot and variance.
    pub rho: Double,
}

impl HestonParams {
    /// The first rule that the parameters break, in the order in which they
    /// are checked, with the name and the value of the parameter; `None`
    /// where they break none.
    pub open spec fn violation(self) -> Option<Rejection> {
        if !self.s0.gt_spec(zero()) {
            Some(refused("s0"@, self.s0, Constraint::Positive))
        } else if !self.v0.ge_spec(zero()) {
            Some(refused("v0"@, self.v0, Constraint::NonNegative))
        } else if !self.r.is_finite_spec() {
            Some(refused("r"@, self.r, Constraint::Finite))
        } else if !self.kappa.gt_spec(zero()) {
            Some(refused("kappa"@, self.kappa, Constraint::Positive))
        } else if !self.theta.gt_spec(zero()) {
            Some(refused("theta"@, self.theta, Constraint::Positive))
        } else if !self.xi.gt_spec(zero()) {
            Some(refused("xi"@, self.xi, Constraint::Positive))
        } else if !(self.rho.ge_spec(minus_one()) && self.rho.le_spec(one())) {
            Some(refused("rho"@, self.rho, Constraint::InRange { min: minus_one(), max: one() }))
        } else if self.kappa.gt_spec(Double { bits: MAX_KAPPA_BITS }) {
            Some(refused("kappa"@, self.kappa, Constraint::MeanReversionTooFast))
        } else if self.xi.gt_spec(Double { bits: MAX_XI_BITS }) {
            Some(refused("xi"@, self.xi, Constraint::VolOfVolTooHigh))
        } else if self.theta.gt_spec(Double { bits: MAX_THETA_BITS }) {
            Some(refused("theta"@, self.theta, Constraint::LongRunVarianceTooHigh))
        } else {
            None
        }
    }

    /// Whether the parameters break no rule. Whether the variance can reach
    /// zero is no part of it.
    pub open spec fn valid(self) -> bool {
        self.violation().is_none()
    }

    /// Whether the variance can reach zero: twice the product of mean
    /// reversion and long-run variance does not exceed the squared
    /// volatility of variance. The three are read by their absolute values
    /// and compared exactly; where one of them is not finite the answer is
    /// no.
    pub open spec fn feller_violated_spec(self) -> bool {
        &&& self.kappa.is_finite_spec()
        &&& self.theta.is_finite_spec()
        &&& self.xi.is_finite_spec()
        &&& 2 * self.kappa.scaled_magnitude() * self.theta.scaled_magnitude()
            <= self.xi.scaled_magnitude() * self.xi.scaled_magnitude()
    }

    /// Whether the variance can reach zero. This is a diagnosis, not a
    /// fault: such parameters are valid like any others within their
    /// bounds.
    pub fn feller_violated(&self) -> (r: bool)
        ensures
            r == self.feller_violated_spec(),
    {
        self.kappa.is_finite() && self.theta.is_finite() && self.xi.is_finite() && product_at_most(
            2,
            self.kappa,
            self.theta,
            self.xi,
            self.xi,
        )
    }
}

/// Whether an increment of time can be stepped over: a finite value above
/// zero.
pub open spec fn usable_increment(dt: Double) -> bool {
    dt.is_finite_spec() && dt.gt_spec(zero())
}

/// Whether a spot price can be stepped from, or was stepped to: a finite
/// value above zero.
pub open spec fn usable_spot(s: Double) -> bool {
    s.is_finite_spec() && s.gt_spec(zero())
}

/// Whether a variance can be stepped from, or was stepped to: a finite
/// value that is zero or above.
pub open spec fn usable_variance(v: Double) -> bool {
    v.is_finite_spec() && v.ge_spec(zero())
}

/// The model with the scheme that advances it: one value serves any number
/// of independent paths.
#[derive(Clone, Copy, Debug)]
pub struct Heston {
    pub params: HestonParams,
    pub scheme: HestonScheme,
}

impl Heston {
    /// The model under Andersen's scheme.
    pub fn new(params: HestonParams) -> (r: Result<Heston, SdeError>)
        ensures
            r.is_ok() == params.valid(),
            r matches Ok(h) ==> h.params == params && h.scheme == HestonScheme::AndersenQE,
            r matches Err(e) ==> e.reports(params.violation().unwrap()),
    {
        Heston::new_with_scheme(params, HestonScheme::AndersenQE)
    }

    /// The model under the given scheme.
    pub fn new_with_scheme(params: HestonParams, scheme: HestonScheme) -> (r: Result<
        Heston,
        SdeError,
    >)
        ensures
            r.is_ok() == params.valid(),
            r matches Ok(h) ==> h.params == params && h.scheme == scheme,
            r matches Err(e) ==> e.reports(params.violation().unwrap()),
    {
        Heston::new_with_scheme_quiet(params, scheme, false)
    }

    /// The model under the given scheme. Parameters under which the
    /// variance can reach zero are accepted like any others that are valid:
    /// the library never prints, and `suppress_warnings`, which tells the
    /// caller whether to report them, has no bearing on the result.
    pub fn new_with_scheme_quiet(
        params: HestonParams,
        scheme: HestonScheme,
        suppress_warnings: bool,
    ) -> (r: Result<Heston, SdeError>)
        ensures
            r.is_ok() == params.valid(),
            r matches Ok(h) ==> h.params == params && h.scheme == scheme,
            r matches Err(e) ==> e.reports(params.violation().unwrap()),
    {
        match Heston::validate_params(&params) {
            Ok(()) => Ok(Heston { params, scheme }),
            Err(e) => Err(e),
        }
    }

    /// Checks the parameters rule by rule and reports the first that is
    /// broken.
    pub fn validate_params(params: &HestonParams) -> (r: Result<(), SdeError>)
        ensures
            r.is_ok() == params.valid(),
            r matches Err(e) ==> e.reports(params.violation().unwrap()),
    {
        validate_positive("s0", params.s0)?;
        validate_non_negative("v0", params.v0)?;
        validate_finite("r", params.r)?;
        validate_positive("kappa", params.kappa)?;
        validate_positive("theta", params.theta)?;
        validate_positive("xi", params.xi)?;
        validate_correlation("rho", params.rho)?;
        if params.kappa.gt(Double::from_bits(MAX_KAPPA_BITS)) {
            return Err(
                SdeError::InvalidParameters {
                    parameter: "kappa".to_owned(),
                    value: params.kappa,
                    constraint: Constraint::MeanReversionTooFast,
                },
            );
        }
        if params.xi.gt(Double::from_bits(MAX_XI_BITS)) {
            return Err(
                SdeError::InvalidParameters {
                    parameter: "xi".to_owned(),
                    value: params.xi,
                    constraint: Constraint::VolOfVolTooHigh,
                },
            );
        }
        if params.theta.gt(Double::from_bits(MAX_THETA_BITS)) {
            return Err(
                SdeError::InvalidParameters {
                    parameter: "theta".to_owned(),
                    value: params.theta,
                    constraint: Constraint::LongRunVarianceTooHigh,
                },
            );
        }
        Ok(())
    }

    /// The checks at the entry of a step: the increment of time must be a
    /// finite value above zero, and spot and variance must be usable. The
    /// increment is checked first, then the spot, then the variance. Each
    /// failure is an instability of the scheme, with the offending value,
    /// and nothing has been drawn or changed when it is reported.
    pub fn check_step_inputs(&self, s: Double, v: Double, dt: Double) -> (r: Result<
        (),
        SdeError,
    >)
        ensures
            r.is_ok() == (usable_increment(dt) && usable_spot(s) && usable_variance(v)),
            !usable_increment(dt) ==> (r matches Err(e) && e.is_instability(
                Method::Heston(self.scheme),
                Instability::IncrementInvalid(dt),
            )),
            usable_increment(dt) && !usable_spot(s) ==> (r matches Err(e) && e.is_instability(
                Method::Heston(self.scheme),
                Instability::SpotInvalid(s),
            )),
            usable_increment(dt) && usable_spot(s) && !usable_variance(v) ==> (r matches Err(e)
                && e.is_instability(Method::Heston(self.scheme), Instability::VarianceInvalid(v))),
    {
        let zero = Double::from_bits(0);
        if !dt.is_finite() || !dt.gt(zero) {
            return Err(
                SdeError::NumericalInstability {
                    method: Method::Heston(self.scheme),
                    reason: Instability::IncrementInvalid(dt),
                },
            );
        }
        if !s.is_finite() || !s.gt(zero) {
            return Err(
                SdeError::NumericalInstability {
                    method: Method::Heston(self.scheme),
                    reason: Instability::SpotInvalid(s),
                },
            );
        }
        if !v.is_finite() || !v.ge(zero) {
            return Err(
                SdeError::NumericalInstability {
                    method: Method::Heston(self.scheme),
                    reason: Instability::VarianceInvalid(v),
                },
            );
        }
        Ok(())
    }

    /// The checks at the end of a step: the spot that the scheme produced
    /// must be usable, and so must the variance. The spot is checked first.
    pub fn check_step_outputs(&self, s: Double, v: Double) -> (r: Result<(), SdeError>)
        ensures
            r.is_ok() == (usable_spot(s) && usable_variance(v)),
            !usable_spot(s) ==> (r matches Err(e) && e.is_instability(
                Method::Heston(self.scheme),
                Instability::SpotInvalidAfterStep(s),
            )),
            usable_spot(s) && !usable_variance(v) ==> (r matches Err(e) && e.is_instability(
                Method::Heston(self.scheme),
                Instability::VarianceInvalidAfterStep(v),
            )),
    {
        let zero = Double::from_bits(0);
        if !s.is_finite() || !s.gt(zero) {
            return Err(
                SdeError::NumericalInstability {
                    method: Method::Heston(self.scheme),
                    reason: Instability::SpotInvalidAfterStep(s),
                },
            );
        }
        if !v.is_finite() || !v.ge(zero) {
            return Err(
                SdeError::NumericalInstability {
                    method: Method::Heston(self.scheme),
                    reason: Instability::VarianceInvalidAfterStep(v),
                },
            );
        }
        Ok(())
    }

    /// Ends a step: writes the spot and the variance that the scheme
    /// produced over the state, and checks them. After a step that
    /// succeeded the spot is a finite value above zero and the variance a
    /// finite value that is zero or above, so the state can be stepped from
    /// again.
    pub fn finish_step(
        &self,
        s: &mut Double,
        v: &mut Double,
        next_s: Double,
        next_v: Double,
    ) -> (r: Result<(), SdeError>)
        ensures
            *final(s) == next_s,
            *final(v) == next_v,
            r.is_ok() == (usable_spot(next_s) && usable_variance(next_v)),
            r.is_ok() ==> usable_spot(*final(s)) && usable_variance(*final(v)),
            !usable_spot(next_s) ==> (r matches Err(e) && e.is_instability(
                Method::Heston(self.scheme),
                Instability::SpotInvalidAfterStep(next_s),
            )),
            usable_spot(next_s) && !usable_variance(next_v) ==> (r matches Err(e)
                && e.is_instability(
                Method::Heston(self.scheme),
                Instability::VarianceInvalidAfterStep(next_v),
            )),
    {
        *s = next_s;
        *v = next_v;
        self.check_step_outputs(next_s, next_v)
    }

    /// The name of the scheme.
    pub fn scheme_name(&self) -> (r: &'static str)
        ensures
            r@ == self.scheme.name_spec(),
    {
        self.scheme.name()
    }
}

/// Parameters with a correlation above one are not valid, whatever else
/// they hold.
pub proof fn lemma_correlation_above_one_is_refused(params: HestonParams)
    ensures
        params.rho.gt_spec(one()) ==> !params.valid(),
{
}

/// Whether the variance can reach zero is no part of validity: the rules
/// speak of each parameter alone, so whatever the product of mean reversion
/// and long-run variance is beside the volatility of variance, parameters
/// within their bounds are valid.
pub proof fn lemma_validity_is_parameter_wise(params: HestonParams)
    ensures
        params.valid() == (params.s0.gt_spec(zero()) && params.v0.ge_spec(zero())
            && params.r.is_finite_spec() && params.kappa.gt_spec(zero())
            && params.kappa.le_spec(Double { bits: MAX_KAPPA_BITS }) && params.theta.gt_spec(
            zero(),
        ) && params.theta.le_spec(Double { bits: MAX_THETA_BITS }) && params.xi.gt_spec(zero())
            && params.xi.le_spec(Double { bits: MAX_XI_BITS }) && params.rho.ge_spec(minus_one())
            && params.rho.le_spec(one())),
{
}

/// The bits of `1e-10`, below which Andersen's scheme does not let the spot
/// fall.
pub const SPOT_FLOOR_BITS: u64 = 0x3DDB_7CDF_D9D7_BDBB;

/// The variance that a scheme hands on, cut off at zero: a variance that
/// the arithmetic took below zero, or made a NaN, becomes zero.
pub fn truncate_variance(v: Double) -> (r: Double)
    ensures
        r == floor_at_spec(v, zero()),
        r.ge_spec(zero()),
        v.is_finite_spec() ==> usable_variance(r),
{
    floor_at_zero(v)
}

/// The spot that Andersen's scheme hands on: the spot where it is above
/// `1e-10`, and `1e-10` otherwise, so that it stays above zero.
pub fn floor_spot(s: Double) -> (r: Double)
    ensures
        r == floor_at_spec(s, Double { bits: SPOT_FLOOR_BITS }),
        r.gt_spec(zero()),
        s.is_finite_spec() ==> usable_spot(r),
{
    floor_at(s, Double::from_bits(SPOT_FLOOR_BITS))
}

/// Whether the exponential branch of Andersen's scheme draws its atom at
/// zero: the uniform draw is at most the weight of the atom. The next
/// variance is then zero.
pub fn qe_atom_drawn(u: Double, atom: Double) -> (r: bool)
    ensures
        r == u.le_spec(atom),
{
    u.le(atom)
}

/// Whether Alfonsi's scheme applies its correction: the variance and the
/// variance after the Euler step are both above zero, so that both have a
/// root to divide by. Otherwise the correction is zero.
pub fn alfonsi_corrects(v: Double, v_aux: Double) -> (r: bool)
    ensures
        r == (v.gt_spec(zero()) && v_aux.gt_spec(zero())),
{
    v.gt(Double::from_bits(0)) && v_aux.gt(Double::from_bits(0))
}

/// The bits of `1.5`, the threshold between the two branches of Andersen's
/// scheme.
pub const QE_THRESHOLD_BITS: u64 = 0x3FF8_0000_0000_0000;

/// The way in which Andersen's scheme samples the next variance.
#[derive(Clone, Copy, Debug, PartialEq, Eq, Structural)]
pub enum QeBranch {
    /// A quadratic transform of a normal draw.
    Quadratic,
    /// An exponential transform of a uniform draw, with an atom at zero.
    Exponential,
}

/// Picks the branch of Andersen's scheme from the ratio of the variance to
/// the squared mean of the next variance: the quadratic branch where the
/// ratio is at most the threshold, the exponential one otherwise, also
/// where the ratio is a NaN.
pub fn qe_branch(psi: Double) -> (r: QeBranch)
    ensures
        r == if psi.le_spec(Double { bits: QE_THRESHOLD_BITS }) {
            QeBranch::Quadratic
        } else {
            QeBranch::Exponential
        },
{
    if psi.le(Double::from_bits(QE_THRESHOLD_BITS)) {
        QeBranch::Quadratic
    } else {
        QeBranch::Exponential
    }
}

} // verus!
