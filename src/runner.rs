//! Settings shared by every registration method.
use crate::normalize::Normalize;
use crate::rigid::Rigid;
use vstd::prelude::*;

verus! {

/// Default error change threshold, 1e-5.
pub const DEFAULT_ERROR_CHANGE_THRESHOLD: u64 = 0x3EE4_F8B5_88E3_68F1;

/// Default maximum number of iterations.
pub const DEFAULT_MAX_ITERATIONS: usize = 150;

/// Default outlier weight, 0.1.
pub const DEFAULT_OUTLIER_WEIGHT: u64 = 0x3FB9_9999_9999_999A;

/// Default sigma2 threshold, ten times the machine epsilon (10 * 2^-52).
pub const DEFAULT_SIGMA2_THRESHOLD: u64 = 0x3CE4_0000_0000_0000;

/// Settings of a registration run, built with chained setters.
///
/// Every real-valued setting is held as the bit pattern of a double (`f64::to_bits`).
#[derive(Clone, Copy, Debug)]
pub struct Runner {
    /// Iteration stops once the relative change of the error is no longer above this.
    pub error_change_threshold: u64,
    /// Iteration stops after this many iterations.
    pub max_iterations: usize,
    /// How the point sets are normalized before registration.
    pub normalize: Normalize,
    /// The weight given to outliers, which must lie in [0, 1].
    pub outlier_weight: u64,
    /// The initial sigma2; when absent it is computed from the point sets.
    pub sigma2: Option<u64>,
    /// Iteration stops once sigma2 is no longer above this.
    pub sigma2_threshold: u64,
}

impl Runner {
    /// The default settings.
    pub open spec fn spec_default() -> Runner {
        Runner {
            error_change_threshold: DEFAULT_ERROR_CHANGE_THRESHOLD,
            max_iterations: DEFAULT_MAX_ITERATIONS,
            normalize: Normalize::SameScale,
            outlier_weight: DEFAULT_OUTLIER_WEIGHT,
            sigma2: None,
            sigma2_threshold: DEFAULT_SIGMA2_THRESHOLD,
        }
    }

    /// Creates a runner with the default settings.
    pub fn new() -> (r: Runner)
        ensures
            r == Runner::spec_default(),
    {
        Runner::default()
    }

    /// Sets the error change threshold.
    pub fn error_change_threshold(self, error_change_threshold: u64) -> (r: Runner)
        ensures
            r == (Runner { error_change_threshold, ..self }),
    {
        Runner { error_change_threshold, ..self }
    }

    /// Sets the maximum number of iterations.
    pub fn max_iterations(self, max_iterations: usize) -> (r: Runner)
        ensures
            r == (Runner { max_iterations, ..self }),
    {
        Runner { max_iterations, ..self }
    }

    /// Sets the normalization strategy.
    pub fn normalize(self, normalize: Normalize) -> (r: Runner)
        ensures
            r == (Runner { normalize, ..self }),
    {
        Runner { normalize, ..self }
    }

    /// Sets the outlier weight; it is checked when a run starts.
    pub fn outlier_weight(self, outlier_weight: u64) -> (r: Runner)
        ensures
            r == (Runner { outlier_weight, ..self }),
    {
        Runner { outlier_weight, ..self }
    }

    /// Sets the initial sigma2, or clears it so that it is computed from the point sets.
    pub fn sigma2(self, sigma2: Option<u64>) -> (r: Runner)
        ensures
            r == (Runner { sigma2, ..self }),
    {
        Runner { sigma2, ..self }
    }

    /// Returns true if these settings require a scale-enabled registration.
    pub fn requires_scaling(&self) -> (r: bool)
        ensures
            r == self.normalize.spec_requires_scaling(),
    {
        self.normalize.requires_scaling()
    }

    /// A rigid registration with these settings, reflections disallowed and scaling disabled.
    pub fn rigid(self) -> (r: Rigid)
        ensures
            r == Rigid::spec_from_runner(self),
    {
        Rigid::from(self)
    }
}

impl Default for Runner {
    fn default() -> (r: Runner)
        ensures
            r == Runner::spec_default(),
    {
        Runner {
            error_change_threshold: DEFAULT_ERROR_CHANGE_THRESHOLD,
            max_iterations: DEFAULT_MAX_ITERATIONS,
            normalize: Normalize::SameScale,
            outlier_weight: DEFAULT_OUTLIER_WEIGHT,
            sigma2: None,
            sigma2_threshold: DEFAULT_SIGMA2_THRESHOLD,
        }
    }
}

} // verus!
