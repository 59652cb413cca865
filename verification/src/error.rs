//! The errors of the library.

use vstd::prelude::*;
use crate::ieee::Double;
use crate::models::heston::HestonScheme;

pub mod validation;

verus! {

/// The rule that a rejected parameter broke.
#[derive(Clone, Copy, Debug, PartialEq, Eq, Structural)]
pub enum Constraint {
    /// The value must be above zero.
    Positive,
    /// The value must be zero or above.
    NonNegative,
    /// The value must lie between the two bounds, the bounds included.
    InRange { min: Double, max: Double },
    /// The value must be neither a NaN nor infinite.
    Finite,
    /// A mean-reversion speed above 100 is refused.
    MeanReversionTooFast,
    /// A volatility of variance above 5 is refused.
    VolOfVolTooHigh,
    /// A long-run variance above 1 is refused.
    LongRunVarianceTooHigh,
    /// A bump must be small beside the spot price, which is given.
    SmallBesideSpot { spot: Double },
}

/// The computation in which a value went wrong.
#[derive(Clone, Copy, Debug, PartialEq, Eq, Structural)]
pub enum Method {
    /// The plain Monte Carlo estimator.
    MonteCarlo,
    /// The Monte Carlo estimator with a control variate.
    ControlVariateMonteCarlo,
    /// A Heston step under the given scheme.
    Heston(HestonScheme),
}

/// What went wrong, with the offending value.
#[derive(Clone, Copy, Debug, PartialEq, Eq, Structural)]
pub enum Instability {
    /// The variance estimate is below zero by more than rounding explains.
    NegativeVariance(Double),
    /// The price estimate is a NaN or infinite.
    PriceNotFinite(Double),
    /// The variance estimate is a NaN or infinite.
    VarianceNotFinite(Double),
    /// The increment of time handed to a step is not a positive finite
    /// number.
    IncrementInvalid(Double),
    /// The spot handed to a step is not a positive finite number.
    SpotInvalid(Double),
    /// The variance handed to a step is not a non-negative finite number.
    VarianceInvalid(Double),
    /// The spot that a step produced is not a positive finite number.
    SpotInvalidAfterStep(Double),
    /// The variance that a step produced is not a non-negative finite number.
    VarianceInvalidAfterStep(Double),
}

/// An error of the library: bad input, to be fixed and tried again, is told
/// apart from a computation that became numerically unstable.
#[derive(Clone, Debug, PartialEq, Eq)]
#[allow(inconsistent_fields)]
pub enum SdeError {
    /// A parameter has a value that its constraint refuses.
    InvalidParameters { parameter: String, value: Double, constraint: Constraint },
    /// A computation produced a value that cannot be used.
    NumericalInstability { method: Method, reason: Instability },
    /// The variance process may reach zero: twice the product of mean
    /// reversion and long-run variance does not exceed the squared
    /// volatility of variance.
    FellerConditionViolation { kappa: Double, theta: Double, xi: Double, feller_value: Double },
    /// A structural fault of a configuration.
    InvalidConfiguration { field: String, reason: String },
    /// A fault of a Monte Carlo run.
    MonteCarloError { paths: usize, reason: String },
    /// A fault of a payoff evaluation.
    PayoffError { payoff_type: String, reason: String },
    /// A fault of random number generation.
    RandomGenerationError { reason: String },
    /// A calibration that did not succeed.
    CalibrationError { reason: String, current_error: Option<Double> },
    /// An operation that is not offered.
    UnsupportedOperation { operation: String, context: String },
}

/// Why an input is refused, as contracts state it.
pub ghost enum Rejection {
    /// The named parameter has a value that the constraint refuses.
    Parameter { name: Seq<char>, value: Double, constraint: Constraint },
    /// The named field of a configuration is refused for the given reason.
    Configuration { field: Seq<char>, reason: Seq<char> },
}

/// The rejection of a parameter.
pub open spec fn refused(name: Seq<char>, value: Double, constraint: Constraint) -> Rejection {
    Rejection::Parameter { name, value, constraint }
}

/// The result of an operation of the library.
pub type SdeResult<T> = Result<T, SdeError>;

impl SdeError {
    /// Whether this is the rejection of the named parameter with the given
    /// value under the given constraint.
    pub open spec fn is_invalid_parameter(
        self,
        name: Seq<char>,
        offending: Double,
        broken: Constraint,
    ) -> bool {
        self matches SdeError::InvalidParameters { parameter, value, constraint }
            && parameter@ == name && value == offending && constraint == broken
    }

    /// Whether this is the rejection of the named field of a configuration
    /// for the given reason.
    pub open spec fn is_invalid_configuration(self, name: Seq<char>, why: Seq<char>) -> bool {
        self matches SdeError::InvalidConfiguration { field, reason } && field@ == name
            && reason@ == why
    }

    /// Whether this error reports the given rejection.
    pub open spec fn reports(self, rejection: Rejection) -> bool {
        match rejection {
            Rejection::Parameter { name, value, constraint } => self.is_invalid_parameter(
                name,
                value,
                constraint,
            ),
            Rejection::Configuration { field, reason } => self.is_invalid_configuration(
                field,
                reason,
            ),
        }
    }

    /// Whether this is the report of the given instability in the given
    /// method.
    pub open spec fn is_instability(self, within: Method, what: Instability) -> bool {
        self matches SdeError::NumericalInstability { method, reason } && method == within
            && reason == what
    }

    /// Whether the error reports bad input, which the caller can fix, as
    /// opposed to a computation that went wrong.
    pub fn is_bad_input(&self) -> (r: bool)
        ensures
            r == (self is InvalidParameters || self is InvalidConfiguration),
    {
        match self {
            SdeError::InvalidParameters { .. } => true,
            SdeError::InvalidConfiguration { .. } => true,
            _ => false,
        }
    }
}

} // verus!
