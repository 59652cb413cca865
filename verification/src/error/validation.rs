//! Guards on single values.

use vstd::prelude::*;
use crate::error::Constraint;
use crate::error::SdeError;
use crate::ieee::minus_one;
use crate::ieee::one;
use crate::ieee::zero;
use crate::ieee::MINUS_ONE_BITS;
use crate::ieee::ONE_BITS;
use crate::ieee::Double;

verus! {

/// Refuses a value that is not above zero: zero, a negative value, a NaN.
pub fn validate_positive(name: &str, value: Double) -> (r: Result<(), SdeError>)
    ensures
        r.is_ok() == value.gt_spec(zero()),
        r matches Err(e) ==> e.is_invalid_parameter(name@, value, Constraint::Positive),
{
    if !value.gt(Double::from_bits(0)) {
        Err(
            SdeError::InvalidParameters {
                parameter: name.to_owned(),
                value,
                constraint: Constraint::Positive,
            },
        )
    } else {
        Ok(())
    }
}

/// Refuses a value that is not zero or above: a negative value, a NaN.
pub fn validate_non_negative(name: &str, value: Double) -> (r: Result<(), SdeError>)
    ensures
        r.is_ok() == value.ge_spec(zero()),
        r matches Err(e) ==> e.is_invalid_parameter(name@, value, Constraint::NonNegative),
{
    if !value.ge(Double::from_bits(0)) {
        Err(
            SdeError::InvalidParameters {
                parameter: name.to_owned(),
                value,
                constraint: Constraint::NonNegative,
            },
        )
    } else {
        Ok(())
    }
}

/// Refuses a value that does not lie between `min` and `max`, the bounds
/// included: a value below `min` or above `max`, a NaN.
pub fn validate_range(name: &str, value: Double, min: Double, max: Double) -> (r: Result<
    (),
    SdeError,
>)
    ensures
        r.is_ok() == (value.ge_spec(min) && value.le_spec(max)),
        r matches Err(e) ==> e.is_invalid_parameter(
            name@,
            value,
            Constraint::InRange { min, max },
        ),
{
    if !(value.ge(min) && value.le(max)) {
        Err(
            SdeError::InvalidParameters {
                parameter: name.to_owned(),
                value,
                constraint: Constraint::InRange { min, max },
            },
        )
    } else {
        Ok(())
    }
}

/// Refuses a correlation that does not lie between minus one and one.
pub fn validate_correlation(name: &str, rho: Double) -> (r: Result<(), SdeError>)
    ensures
        r.is_ok() == (rho.ge_spec(minus_one()) && rho.le_spec(one())),
        r matches Err(e) ==> e.is_invalid_parameter(
            name@,
            rho,
            Constraint::InRange { min: minus_one(), max: one() },
        ),
{
    validate_range(name, rho, Double::from_bits(MINUS_ONE_BITS), Double::from_bits(ONE_BITS))
}

/// Refuses a NaN and the two infinities.
pub fn validate_finite(name: &str, value: Double) -> (r: Result<(), SdeError>)
    ensures
        r.is_err() == !value.is_finite_spec(),
        r matches Err(e) ==> e.is_invalid_parameter(name@, value, Constraint::Finite),
{
    if !value.is_finite() {
        Err(
            SdeError::InvalidParameters {
                parameter: name.to_owned(),
                value,
                constraint: Constraint::Finite,
            },
        )
    } else {
        Ok(())
    }
}

/// The largest number of paths that a configuration may ask for.
pub const MAX_PATHS: usize = 1_000_000_000;

/// The largest number of steps per path that a configuration may ask for.
pub const MAX_STEPS: usize = 100_000;

/// Refuses a number of paths that is zero or above a billion.
pub fn validate_paths(paths: usize) -> (r: Result<(), SdeError>)
    ensures
        r.is_ok() == (1 <= paths <= MAX_PATHS),
        paths == 0 ==> (r matches Err(e) && e.is_invalid_configuration(
            "paths"@,
            "must be greater than 0"@,
        )),
        paths > MAX_PATHS ==> (r matches Err(e) && e.is_invalid_configuration(
            "paths"@,
            "exceeds maximum allowed (1 billion)"@,
        )),
{
    if paths == 0 {
        Err(
            SdeError::InvalidConfiguration {
                field: "paths".to_owned(),
                reason: "must be greater than 0".to_owned(),
            },
        )
    } else if paths > MAX_PATHS {
        Err(
            SdeError::InvalidConfiguration {
                field: "paths".to_owned(),
                reason: "exceeds maximum allowed (1 billion)".to_owned(),
            },
        )
    } else {
        Ok(())
    }
}

/// Refuses a number of steps that is zero or above a hundred thousand.
pub fn validate_steps(steps: usize) -> (r: Result<(), SdeError>)
    ensures
        r.is_ok() == (1 <= steps <= MAX_STEPS),
        steps == 0 ==> (r matches Err(e) && e.is_invalid_configuration(
            "steps"@,
            "must be greater than 0"@,
        )),
        steps > MAX_STEPS ==> (r matches Err(e) && e.is_invalid_configuration(
            "steps"@,
            "exceeds maximum allowed (100,000)"@,
        )),
{
    if steps == 0 {
        Err(
            SdeError::InvalidConfiguration {
                field: "steps".to_owned(),
                reason: "must be greater than 0".to_owned(),
            },
        )
    } else if steps > MAX_STEPS {
        Err(
            SdeError::InvalidConfiguration {
                field: "steps".to_owned(),
                reason: "exceeds maximum allowed (100,000)".to_owned(),
            },
        )
    } else {
        Ok(())
    }
}

} // verus!
