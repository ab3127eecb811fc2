//! A validated request to a numeric routine, and what becomes of the
//! routine's answer.

use crate::binary64::{Binary64, Extended};
use crate::error::{DistError, Statistic};
use crate::normal::Normal;
use crate::students_t::StudentsT;
use vstd::prelude::*;

verus! {

/// A distribution of one of the two families.
#[derive(Clone, Copy, Debug, PartialEq, Eq, Structural)]
pub enum Distribution {
    Normal(Normal),
    StudentsT(StudentsT),
}

/// What is asked of a distribution.
#[derive(Clone, Copy, Debug, PartialEq, Eq, Structural)]
pub enum Query {
    /// The density at a point.
    Pdf(Binary64),
    /// The natural logarithm of the density at a point.
    LnPdf(Binary64),
    /// The probability of a value at or below a point.
    Cdf(Binary64),
    /// The probability of a value above a point.
    Sf(Binary64),
    /// The point below which the given probability lies.
    InverseCdf(Binary64),
    /// The entropy of the distribution.
    Entropy,
    /// The variance of the distribution.
    Variance,
}

/// A request that has passed every check and is ready for the numeric
/// routine.
#[derive(Clone, Copy, Debug, PartialEq, Eq, Structural)]
pub struct Evaluation {
    pub distribution: Distribution,
    pub query: Query,
}

impl Distribution {
    /// The parameters describe a distribution.
    pub open spec fn wf(self) -> bool {
        match self {
            Distribution::Normal(normal) => normal.wf(),
            Distribution::StudentsT(t) => t.wf(),
        }
    }
}

impl Evaluation {
    /// What the numeric routine may rely on: the parameters describe a
    /// distribution; the argument of an inverse CDF is a probability; entropy
    /// is asked of a normal distribution only; and the variance of a
    /// Student's t distribution only beyond two degrees of freedom.
    pub open spec fn wf(self) -> bool {
        &&& self.distribution.wf()
        &&& self.query matches Query::InverseCdf(p) ==> p@.is_probability()
        &&& self.query is Entropy ==> self.distribution is Normal
        &&& self.query is Variance ==> (self.distribution matches Distribution::StudentsT(t)
            ==> Extended::integer(2).lt(t.df@))
    }
}

/// Turns the answer of a numeric routine for a statistic into the result of
/// the request: the value where there is one, a computation error that names
/// the statistic where there is none. No number ever stands for a failure.
pub fn conclude(statistic: Statistic, outcome: Option<Binary64>) -> (r: Result<
    Binary64,
    DistError,
>)
    ensures
        outcome matches Some(value) ==> r == Ok::<Binary64, DistError>(value),
        outcome is None ==> r == Err::<Binary64, DistError>(
            DistError::ComputationError(statistic),
        ),
{
    match outcome {
        Some(value) => Ok(value),
        None => Err(DistError::ComputationError(statistic)),
    }
}

} // verus!
