//! The location-scale Student's t distribution: its parameters, and what is
//! decided before a numeric routine is asked for one of its functions.

use crate::binary64::{Binary64, Extended};
use crate::error::{DistError, Parameter};
use crate::evaluation::{Distribution, Evaluation, Query};
use vstd::arithmetic::power2::lemma_pow2_pos;
use vstd::prelude::*;

verus! {

/// The parameters of a Student's t distribution.
#[derive(Clone, Copy, Debug, PartialEq, Eq, Structural)]
pub struct StudentsT {
    /// The location.
    pub mean: Binary64,
    /// The scale.
    pub std_dev: Binary64,
    /// The degrees of freedom.
    pub df: Binary64,
}

impl StudentsT {
    /// The first parameter, in the order mean, standard deviation, degrees of
    /// freedom, that rules the distribution out; `None` where there is a
    /// distribution. The mean must be a real number; the standard deviation
    /// and the degrees of freedom must be greater than zero, and may be
    /// infinite.
    pub open spec fn fault(mean: Binary64, std_dev: Binary64, df: Binary64) -> Option<Parameter> {
        if !(mean@ is Finite) {
            Some(Parameter::Mean)
        } else if !Extended::integer(0).lt(std_dev@) {
            Some(Parameter::StdDev)
        } else if !Extended::integer(0).lt(df@) {
            Some(Parameter::DegreesOfFreedom)
        } else {
            None
        }
    }

    /// The parameters describe a distribution.
    pub open spec fn wf(self) -> bool {
        StudentsT::fault(self.mean, self.std_dev, self.df) is None
    }

    /// The request for `query` on the distribution with the given
    /// parameters, or the failure of its construction.
    pub open spec fn request(
        mean: Binary64,
        std_dev: Binary64,
        df: Binary64,
        query: Query,
    ) -> Result<Evaluation, DistError> {
        match StudentsT::fault(mean, std_dev, df) {
            Some(parameter) => Err(DistError::InvalidParameter(parameter)),
            None => Ok(
                Evaluation {
                    distribution: Distribution::StudentsT(StudentsT { mean, std_dev, df }),
                    query,
                },
            ),
        }
    }

    /// Constructs the distribution, or says which parameter rules it out.
    ///
    /// A standard deviation that is zero or less is always refused, and so
    /// are degrees of freedom that are zero or less.
    pub fn new(mean: Binary64, std_dev: Binary64, df: Binary64) -> (r: Result<
        StudentsT,
        DistError,
    >)
        ensures
            StudentsT::fault(mean, std_dev, df) matches Some(parameter) ==> r == Err::<
                StudentsT,
                DistError,
            >(DistError::InvalidParameter(parameter)),
            StudentsT::fault(mean, std_dev, df) is None ==> r == Ok::<StudentsT, DistError>(
                (StudentsT { mean, std_dev, df }),
            ),
            std_dev@.le(Extended::integer(0)) ==> r matches Err(DistError::InvalidParameter(_)),
            df@.le(Extended::integer(0)) ==> r matches Err(DistError::InvalidParameter(_)),
            r matches Ok(t) ==> t.wf(),
    {
        if !mean.is_finite() {
            return Err(DistError::InvalidParameter(Parameter::Mean));
        }
        if !Binary64::zero().lt(std_dev) {
            return Err(DistError::InvalidParameter(Parameter::StdDev));
        }
        if !Binary64::zero().lt(df) {
            return Err(DistError::InvalidParameter(Parameter::DegreesOfFreedom));
        }
        Ok(StudentsT { mean, std_dev, df })
    }
}

/// Asks for the density at `x`.
pub fn t_pdf(mean: Binary64, std_dev: Binary64, df: Binary64, x: Binary64) -> (r: Result<
    Evaluation,
    DistError,
>)
    ensures
        r == StudentsT::request(mean, std_dev, df, Query::Pdf(x)),
        r is Ok <==> StudentsT::fault(mean, std_dev, df) is None,
        r matches Ok(evaluation) ==> evaluation.wf(),
{
    let t: StudentsT = StudentsT::new(mean, std_dev, df)?;
    Ok(Evaluation { distribution: Distribution::StudentsT(t), query: Query::Pdf(x) })
}

/// Asks for the cumulative probability at `x`.
pub fn t_cdf(mean: Binary64, std_dev: Binary64, df: Binary64, x: Binary64) -> (r: Result<
    Evaluation,
    DistError,
>)
    ensures
        r == StudentsT::request(mean, std_dev, df, Query::Cdf(x)),
        r is Ok <==> StudentsT::fault(mean, std_dev, df) is None,
        r matches Ok(evaluation) ==> evaluation.wf(),
{
    let t: StudentsT = StudentsT::new(mean, std_dev, df)?;
    Ok(Evaluation { distribution: Distribution::StudentsT(t), query: Query::Cdf(x) })
}

/// Asks for the variance of the distribution with location zero.
///
/// The degrees of freedom decide first, before the distribution is
/// constructed: at `df <= 1` there is no variance, at `1 < df <= 2` it is
/// infinite. In both ranges the standard deviation is not looked at. Only
/// beyond two, or with degrees of freedom that are not a number, is the
/// distribution constructed, and its parameters judged.
pub fn t_variance(std_dev: Binary64, df: Binary64) -> (r: Result<Evaluation, DistError>)
    ensures
        df@.le(Extended::integer(1)) ==> r == Err::<Evaluation, DistError>(
            DistError::UndefinedVariance,
        ),
        Extended::integer(1).lt(df@) && df@.le(Extended::integer(2)) ==> r == Err::<
            Evaluation,
            DistError,
        >(DistError::InfiniteVariance),
        Extended::integer(2).lt(df@) || df@ is Nan ==> r == StudentsT::request(
            (Binary64 { bits: 0 }),
            std_dev,
            df,
            Query::Variance,
        ),
        r is Ok <==> Extended::integer(2).lt(df@) && Extended::integer(0).lt(std_dev@),
        r matches Ok(evaluation) ==> evaluation.wf(),
{
    proof {
        lemma_variance_ranges(df);
    }
    if df.le(Binary64::one()) {
        return Err(DistError::UndefinedVariance);
    }
    if Binary64::one().lt(df) && df.le(Binary64::two()) {
        return Err(DistError::InfiniteVariance);
    }
    let t: StudentsT = StudentsT::new(Binary64::zero(), std_dev, df)?;
    Ok(Evaluation { distribution: Distribution::StudentsT(t), query: Query::Variance })
}

/// Asks for the quantile at the probability `p`.
///
/// The probability is looked at first: outside `[0, 1]` it is reported
/// whatever the parameters are. Both ends of the interval are accepted.
pub fn t_inverse_cdf(mean: Binary64, std_dev: Binary64, df: Binary64, p: Binary64) -> (r: Result<
    Evaluation,
    DistError,
>)
    ensures
        !p@.is_probability() ==> r == Err::<Evaluation, DistError>(DistError::InvalidArgument),
        p@.is_probability() ==> r == StudentsT::request(mean, std_dev, df, Query::InverseCdf(p)),
        r is Ok <==> p@.is_probability() && StudentsT::fault(mean, std_dev, df) is None,
        r matches Ok(evaluation) ==> evaluation.wf(),
{
    if !p.is_probability() {
        return Err(DistError::InvalidArgument);
    }
    let t: StudentsT = StudentsT::new(mean, std_dev, df)?;
    Ok(Evaluation { distribution: Distribution::StudentsT(t), query: Query::InverseCdf(p) })
}

/// Asks for the logarithm of the density at `x`.
pub fn t_ln_pdf(mean: Binary64, std_dev: Binary64, df: Binary64, x: Binary64) -> (r: Result<
    Evaluation,
    DistError,
>)
    ensures
        r == StudentsT::request(mean, std_dev, df, Query::LnPdf(x)),
        r is Ok <==> StudentsT::fault(mean, std_dev, df) is None,
        r matches Ok(evaluation) ==> evaluation.wf(),
{
    let t: StudentsT = StudentsT::new(mean, std_dev, df)?;
    Ok(Evaluation { distribution: Distribution::StudentsT(t), query: Query::LnPdf(x) })
}

/// Asks for the survival probability at `x`.
pub fn t_sf(mean: Binary64, std_dev: Binary64, df: Binary64, x: Binary64) -> (r: Result<
    Evaluation,
    DistError,
>)
    ensures
        r == StudentsT::request(mean, std_dev, df, Query::Sf(x)),
        r is Ok <==> StudentsT::fault(mean, std_dev, df) is None,
        r matches Ok(evaluation) ==> evaluation.wf(),
{
    let t: StudentsT = StudentsT::new(mean, std_dev, df)?;
    Ok(Evaluation { distribution: Distribution::StudentsT(t), query: Query::Sf(x) })
}

/// Every number lies in exactly one of the three ranges by which the
/// variance is decided: at most one, above one and at most two, above two.
/// What is not a number lies in none of them.
pub proof fn lemma_variance_ranges(df: Binary64)
    ensures
        df@ is Nan <==> !(df@.le(Extended::integer(1)) || (Extended::integer(1).lt(df@) && df@.le(
            Extended::integer(2),
        )) || Extended::integer(2).lt(df@)),
        !(df@.le(Extended::integer(1)) && Extended::integer(1).lt(df@)),
        !(df@.le(Extended::integer(2)) && Extended::integer(2).lt(df@)),
        df@.le(Extended::integer(1)) ==> df@.le(Extended::integer(2)),
        Extended::integer(2).lt(df@) ==> Extended::integer(0).lt(df@),
{
    lemma_pow2_pos(1074);
}

} // verus!
