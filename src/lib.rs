//! Coherent Point Drift registration: configuration, validation and iteration control.
//!
//! Coherent Point Drift aligns a moving point set to a fixed one by alternating a soft
//! correspondence step with a transform update until the change in error or the bandwidth
//! sigma2 falls below a threshold, or an iteration limit is reached. This library holds the
//! settings, their validation and the decisions of the iteration loop; real-valued inputs to
//! those decisions are carried as the bit patterns of doubles and decided on exactly.
use vstd::prelude::*;

pub mod binary64;
pub mod gauss_transform;
pub mod iteration;
pub mod normalize;
pub mod rigid;
pub mod runner;

pub use normalize::Normalize;
pub use rigid::Rigid;
pub use runner::Runner;

verus! {

} // verus!
