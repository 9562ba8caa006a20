//! Vectorized column kernels for a host columnar engine: a discounted
//! (exponentially decayed) cumulative sum over a nullable numeric column, and
//! a deterministic feature hasher from nullable strings to bounded bucket ids.
//!
//! Both kernels share one invocation shape — validate the parameters, then
//! map an ordered nullable input column to a fresh output column of the same
//! length, or fail with a typed error before any element is processed.

use vstd::prelude::*;

pub mod discounted_cum_sum;
pub mod errors;
pub mod feature_hasher;

pub use discounted_cum_sum::DiscountedCumSumKwargs;
pub use errors::KernelError;
pub use feature_hasher::FeatureHasherKwargs;

verus! {

} // verus!
