//! The failures that a request can end in.

use vstd::prelude::*;

verus! {

/// A parameter of a distribution.
#[derive(Clone, Copy, Debug, PartialEq, Eq, Structural)]
pub enum Parameter {
    /// The mean, or location.
    Mean,
    /// The standard deviation, or scale.
    StdDev,
    /// The degrees of freedom of a Student's t distribution.
    DegreesOfFreedom,
}

/// A statistic of a distribution as a whole, which a numeric routine may
/// decline to give.
#[derive(Clone, Copy, Debug, PartialEq, Eq, Structural)]
pub enum Statistic {
    Entropy,
    Variance,
}

/// The four kinds of failure, for callers that branch on the kind alone.
#[derive(Clone, Copy, Debug, PartialEq, Eq, Structural)]
pub enum ErrorKind {
    /// The parameters describe no distribution.
    InvalidParameter,
    /// An argument of the function lies outside its domain.
    InvalidArgument,
    /// The parameters are valid, but the statistic has no finite value.
    UndefinedStatistic,
    /// A numeric routine gave no result.
    ComputationError,
}

/// Why a request yields no number.
#[derive(Clone, Copy, Debug, PartialEq, Eq, Structural)]
pub enum DistError {
    /// The distribution cannot be constructed; the field names the first
    /// parameter that rules it out.
    InvalidParameter(Parameter),
    /// The probability handed to an inverse CDF is not in `[0, 1]`.
    InvalidArgument,
    /// The variance of a Student's t distribution with `df <= 1` does not
    /// exist.
    UndefinedVariance,
    /// The variance of a Student's t distribution with `1 < df <= 2` is
    /// infinite.
    InfiniteVariance,
    /// The numeric routine gave no value for the statistic.
    ComputationError(Statistic),
}

impl DistError {
    /// The kind of the failure.
    pub open spec fn kind_spec(self) -> ErrorKind {
        match self {
            DistError::InvalidParameter(_) => ErrorKind::InvalidParameter,
            DistError::InvalidArgument => ErrorKind::InvalidArgument,
            DistError::UndefinedVariance => ErrorKind::UndefinedStatistic,
            DistError::InfiniteVariance => ErrorKind::UndefinedStatistic,
            DistError::ComputationError(_) => ErrorKind::ComputationError,
        }
    }

    /// The text of the failure.
    pub open spec fn message_spec(self) -> Seq<char> {
        match self {
            DistError::InvalidParameter(Parameter::Mean) => "mean must be a finite number"@,
            DistError::InvalidParameter(Parameter::StdDev) => "std_dev must be a positive number"@,
            DistError::InvalidParameter(Parameter::DegreesOfFreedom) => "df must be a positive number"@,
            DistError::InvalidArgument => "p must be in [0, 1]"@,
            DistError::UndefinedVariance => "Variance is undefined for df ≤ 1"@,
            DistError::InfiniteVariance => "Variance is infinite for 1 < df ≤ 2"@,
            DistError::ComputationError(Statistic::Entropy) => "Failed to calculate entropy"@,
            DistError::ComputationError(Statistic::Variance) => "Failed to calculate variance"@,
        }
    }

    /// The kind of the failure: malformed input, a statistic that does not
    /// exist, or a routine that gave up.
    pub fn kind(&self) -> (k: ErrorKind)
        ensures
            k == self.kind_spec(),
    {
        match self {
            DistError::InvalidParameter(_) => ErrorKind::InvalidParameter,
            DistError::InvalidArgument => ErrorKind::InvalidArgument,
            DistError::UndefinedVariance => ErrorKind::UndefinedStatistic,
            DistError::InfiniteVariance => ErrorKind::UndefinedStatistic,
            DistError::ComputationError(_) => ErrorKind::ComputationError,
        }
    }

    /// A human-readable message for the failure.
    pub fn message(&self) -> (r: String)
        ensures
            r@ == self.message_spec(),
    {
        let text: &str = match self {
            DistError::InvalidParameter(Parameter::Mean) => "mean must be a finite number",
            DistError::InvalidParameter(Parameter::StdDev) => "std_dev must be a positive number",
            DistError::InvalidParameter(Parameter::DegreesOfFreedom) => "df must be a positive number",
            DistError::InvalidArgument => "p must be in [0, 1]",
            DistError::UndefinedVariance => "Variance is undefined for df ≤ 1",
            DistError::InfiniteVariance => "Variance is infinite for 1 < df ≤ 2",
            DistError::ComputationError(Statistic::Entropy) => "Failed to calculate entropy",
            DistError::ComputationError(Statistic::Variance) => "Failed to calculate variance",
        };
        text.to_owned()
    }
}

} // verus!
