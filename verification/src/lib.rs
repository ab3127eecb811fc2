//! Parameter validation and evaluation planning for the normal and the
//! Student's t distribution, over double-precision numbers held by their bits.
//!
//! Every function of a distribution is asked for in two steps. A function of
//! this library judges the parameters and the argument, and answers with an
//! [`Evaluation`](evaluation::Evaluation) or with the reason why there is
//! none. A numeric routine then works on the evaluation; for a statistic that
//! the routine may decline to give, [`conclude`](evaluation::conclude) turns
//! its answer into the result.

pub mod binary64;
pub mod error;
pub mod evaluation;
pub mod laws;
pub mod normal;
pub mod students_t;

pub use crate::binary64::Binary64;
pub use crate::error::{DistError, ErrorKind, Parameter, Statistic};
pub use crate::evaluation::{conclude, Distribution, Evaluation, Query};
pub use crate::normal::{
    normal_cdf, normal_entropy, normal_inverse_cdf, normal_ln_pdf, normal_pdf, normal_sf,
    normal_variance, Normal,
};
pub use crate::students_t::{
    t_cdf, t_inverse_cdf, t_ln_pdf, t_pdf, t_sf, t_variance, StudentsT,
};
