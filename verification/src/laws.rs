//! What holds of every request, whatever is asked.

use crate::binary64::{Binary64, Extended};
use crate::error::DistError;
use crate::evaluation::Query;
use crate::normal::Normal;
use crate::students_t::StudentsT;
use vstd::prelude::*;

verus! {

/// A standard deviation that is zero or less describes no distribution of
/// either family: whatever the other parameters are and whatever is asked,
/// the construction fails with an invalid parameter.
pub proof fn lemma_std_dev_at_most_zero_is_refused(
    mean: Binary64,
    std_dev: Binary64,
    df: Binary64,
    query: Query,
)
    requires
        std_dev@.le(Extended::integer(0)),
    ensures
        Normal::fault(mean, std_dev) is Some,
        StudentsT::fault(mean, std_dev, df) is Some,
        Normal::request(mean, std_dev, query) matches Err(DistError::InvalidParameter(_)),
        StudentsT::request(mean, std_dev, df, query) matches Err(DistError::InvalidParameter(_)),
{
}

/// Degrees of freedom that are zero or less describe no Student's t
/// distribution: whatever the other parameters are and whatever is asked,
/// the construction fails with an invalid parameter.
pub proof fn lemma_df_at_most_zero_is_refused(
    mean: Binary64,
    std_dev: Binary64,
    df: Binary64,
    query: Query,
)
    requires
        df@.le(Extended::integer(0)),
    ensures
        StudentsT::fault(mean, std_dev, df) is Some,
        StudentsT::request(mean, std_dev, df, query) matches Err(DistError::InvalidParameter(_)),
{
}

/// A distribution is constructed for exactly the parameters that are
/// numbers, with a real mean and a standard deviation above zero; for the
/// normal distribution the standard deviation is real too, and for Student's
/// t the degrees of freedom lie above zero.
pub proof fn lemma_valid_parameters(mean: Binary64, std_dev: Binary64, df: Binary64)
    ensures
        Normal::fault(mean, std_dev) is None <==> mean@ is Finite && std_dev@ is Finite
            && Extended::integer(0).lt(std_dev@),
        StudentsT::fault(mean, std_dev, df) is None <==> mean@ is Finite && Extended::integer(0).lt(
            std_dev@,
        ) && Extended::integer(0).lt(df@),
        Normal::fault(mean, std_dev) is None && Extended::integer(0).lt(df@)
            ==> StudentsT::fault(mean, std_dev, df) is None,
{
}

} // verus!
