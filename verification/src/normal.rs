//! The normal distribution: its parameters, and what is decided before a
//! numeric routine is asked for one of its functions.

use crate::binary64::{Binary64, Extended};
use crate::error::{DistError, Parameter};
use crate::evaluation::{Distribution, Evaluation, Query};
use vstd::prelude::*;

verus! {

/// The parameters of a normal distribution.
#[derive(Clone, Copy, Debug, PartialEq, Eq, Structural)]
pub struct Normal {
    pub mean: Binary64,
    pub std_dev: Binary64,
}

impl Normal {
    /// The first parameter, in the order mean, standard deviation, that rules
    /// the distribution out; `None` where there is a distribution. The mean
    /// must be a real number, the standard deviation a real number greater
    /// than zero.
    pub open spec fn fault(mean: Binary64, std_dev: Binary64) -> Option<Parameter> {
        if !(mean@ is Finite) {
            Some(Parameter::Mean)
        } else if !std_dev@.is_positive_real() {
            Some(Parameter::StdDev)
        } else {
            None
        }
    }

    /// The parameters describe a distribution.
    pub open spec fn wf(self) -> bool {
        Normal::fault(self.mean, self.std_dev) is None
    }

    /// The request for `query` on the distribution with the given
    /// parameters, or the failure of its construction.
    pub open spec fn request(mean: Binary64, std_dev: Binary64, query: Query) -> Result<
        Evaluation,
        DistError,
    > {
        match Normal::fault(mean, std_dev) {
            Some(parameter) => Err(DistError::InvalidParameter(parameter)),
            None => Ok(
                Evaluation { distribution: Distribution::Normal(Normal { mean, std_dev }), query },
            ),
        }
    }

    /// Constructs the distribution, or says which parameter rules it out.
    ///
    /// A standard deviation that is zero or less is always refused.
    pub fn new(mean: Binary64, std_dev: Binary64) -> (r: Result<Normal, DistError>)
        ensures
            Normal::fault(mean, std_dev) matches Some(parameter) ==> r == Err::<Normal, DistError>(
                DistError::InvalidParameter(parameter),
            ),
            Normal::fault(mean, std_dev) is None ==> r == Ok::<Normal, DistError>(
                (Normal { mean, std_dev }),
            ),
            std_dev@.le(Extended::integer(0)) ==> r matches Err(DistError::InvalidParameter(_)),
            r matches Ok(normal) ==> normal.wf(),
    {
        if !mean.is_finite() {
            return Err(DistError::InvalidParameter(Parameter::Mean));
        }
        if !std_dev.is_positive_real() {
            return Err(DistError::InvalidParameter(Parameter::StdDev));
        }
        Ok(Normal { mean, std_dev })
    }
}

/// Asks for the density at `x`.
pub fn normal_pdf(mean: Binary64, std_dev: Binary64, x: Binary64) -> (r: Result<
    Evaluation,
    DistError,
>)
    ensures
        r == Normal::request(mean, std_dev, Query::Pdf(x)),
        r is Ok <==> Normal::fault(mean, std_dev) is None,
        r matches Ok(evaluation) ==> evaluation.wf(),
{
    let normal: Normal = Normal::new(mean, std_dev)?;
    Ok(Evaluation { distribution: Distribution::Normal(normal), query: Query::Pdf(x) })
}

/// Asks for the cumulative probability at `x`.
pub fn normal_cdf(mean: Binary64, std_dev: Binary64, x: Binary64) -> (r: Result<
    Evaluation,
    DistError,
>)
    ensures
        r == Normal::request(mean, std_dev, Query::Cdf(x)),
        r is Ok <==> Normal::fault(mean, std_dev) is None,
        r matches Ok(evaluation) ==> evaluation.wf(),
{
    let normal: Normal = Normal::new(mean, std_dev)?;
    Ok(Evaluation { distribution: Distribution::Normal(normal), query: Query::Cdf(x) })
}

/// Asks for the entropy of the distribution with mean zero.
pub fn normal_entropy(std_dev: Binary64) -> (r: Result<Evaluation, DistError>)
    ensures
        r == Normal::request((Binary64 { bits: 0 }), std_dev, Query::Entropy),
        !std_dev@.is_positive_real() ==> r == Err::<Evaluation, DistError>(
            DistError::InvalidParameter(Parameter::StdDev),
        ),
        r is Ok <==> std_dev@.is_positive_real(),
        r matches Ok(evaluation) ==> evaluation.wf(),
{
    let normal: Normal = Normal::new(Binary64::zero(), std_dev)?;
    Ok(Evaluation { distribution: Distribution::Normal(normal), query: Query::Entropy })
}

/// Asks for the variance of the distribution with mean zero.
pub fn normal_variance(std_dev: Binary64) -> (r: Result<Evaluation, DistError>)
    ensures
        r == Normal::request((Binary64 { bits: 0 }), std_dev, Query::Variance),
        !std_dev@.is_positive_real() ==> r == Err::<Evaluation, DistError>(
            DistError::InvalidParameter(Parameter::StdDev),
        ),
        r is Ok <==> std_dev@.is_positive_real(),
        r matches Ok(evaluation) ==> evaluation.wf(),
{
    let normal: Normal = Normal::new(Binary64::zero(), std_dev)?;
    Ok(Evaluation { distribution: Distribution::Normal(normal), query: Query::Variance })
}

/// Asks for the logarithm of the density at `x`.
pub fn normal_ln_pdf(mean: Binary64, std_dev: Binary64, x: Binary64) -> (r: Result<
    Evaluation,
    DistError,
>)
    ensures
        r == Normal::request(mean, std_dev, Query::LnPdf(x)),
        r is Ok <==> Normal::fault(mean, std_dev) is None,
        r matches Ok(evaluation) ==> evaluation.wf(),
{
    let normal: Normal = Normal::new(mean, std_dev)?;
    Ok(Evaluation { distribution: Distribution::Normal(normal), query: Query::LnPdf(x) })
}

/// Asks for the survival probability at `x`.
pub fn normal_sf(mean: Binary64, std_dev: Binary64, x: Binary64) -> (r: Result<
    Evaluation,
    DistError,
>)
    ensures
        r == Normal::request(mean, std_dev, Query::Sf(x)),
        r is Ok <==> Normal::fault(mean, std_dev) is None,
        r matches Ok(evaluation) ==> evaluation.wf(),
{
    let normal: Normal = Normal::new(mean, std_dev)?;
    Ok(Evaluation { distribution: Distribution::Normal(normal), query: Query::Sf(x) })
}

/// Asks for the quantile at the probability `p`.
///
/// The distribution is constructed first, so parameters that describe none
/// are reported whatever `p` is. With a distribution, `p` is accepted exactly
/// when it lies in `[0, 1]`, both ends included.
pub fn normal_inverse_cdf(mean: Binary64, std_dev: Binary64, p: Binary64) -> (r: Result<
    Evaluation,
    DistError,
>)
    ensures
        Normal::fault(mean, std_dev) matches Some(parameter) ==> r == Err::<Evaluation, DistError>(
            DistError::InvalidParameter(parameter),
        ),
        Normal::fault(mean, std_dev) is None && !p@.is_probability() ==> r == Err::<
            Evaluation,
            DistError,
        >(DistError::InvalidArgument),
        Normal::fault(mean, std_dev) is None && p@.is_probability() ==> r == Ok::<
            Evaluation,
            DistError,
        >(
            (Evaluation {
                distribution: Distribution::Normal(Normal { mean, std_dev }),
                query: Query::InverseCdf(p),
            }),
        ),
        r is Ok <==> Normal::fault(mean, std_dev) is None && p@.is_probability(),
        r matches Ok(evaluation) ==> evaluation.wf(),
{
    let normal: Normal = Normal::new(mean, std_dev)?;
    if !p.is_probability() {
        return Err(DistError::InvalidArgument);
    }
    Ok(Evaluation { distribution: Distribution::Normal(normal), query: Query::InverseCdf(p) })
}

} // verus!
