use crate::error::PipelineError;
use vstd::prelude::*;

verus! {

/// What the mean of `count` values divides their sum by: the count itself.
/// No mean is defined of no values.
pub fn mean_divisor(count: usize) -> (r: Result<usize, PipelineError>)
    ensures
        match r {
            Ok(divisor) => count >= 1 && divisor == count,
            Err(error) => count == 0 && error == PipelineError::EmptyInput,
        },
{
    if count == 0 {
        Err(PipelineError::EmptyInput)
    } else {
        Ok(count)
    }
}

/// The degrees of freedom of a sample of `count` values: what its sample
/// variance divides the sum of squared deviations by. This is `count - 1`,
/// not `count`, and it is defined for two values or more.
pub fn degrees_of_freedom(count: usize) -> (r: Result<usize, PipelineError>)
    ensures
        match r {
            Ok(freedom) => count >= 2 && freedom == count - 1,
            Err(error) => count < 2 && error == PipelineError::InsufficientSamples,
        },
{
    if count < 2 {
        Err(PipelineError::InsufficientSamples)
    } else {
        Ok(count - 1)
    }
}

/// The weights of the two sample variances in the pooled variance: each
/// group's degrees of freedom, the case group's first. The pooled variance
/// divides by their sum, `case_count + control_count - 2`. Both groups need
/// two values or more.
pub fn pooled_weights(case_count: usize, control_count: usize) -> (r: Result<
    (usize, usize),
    PipelineError,
>)
    ensures
        match r {
            Ok(weights) => {
                &&& case_count >= 2
                &&& control_count >= 2
                &&& weights.0 == case_count - 1
                &&& weights.1 == control_count - 1
                &&& weights.0 + weights.1 == case_count + control_count - 2
            },
            Err(error) => {
                &&& case_count < 2 || control_count < 2
                &&& error == PipelineError::InsufficientSamples
            },
        },
{
    match degrees_of_freedom(case_count) {
        Err(error) => Err(error),
        Ok(case_freedom) => match degrees_of_freedom(control_count) {
            Err(error) => Err(error),
            Ok(control_freedom) => Ok((case_freedom, control_freedom)),
        },
    }
}

} // verus!
