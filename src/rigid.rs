//! Settings of the rigid registration: rotation, translation and, optionally, uniform scaling.
use crate::runner::Runner;
use vstd::prelude::*;

verus! {

/// An error that is returned when asked to normalize independently without scaling.
#[derive(Clone, Copy, Debug, PartialEq, Eq, Structural)]
pub struct CannotNormalizeIndependentlyWithoutScale {}

impl CannotNormalizeIndependentlyWithoutScale {
    /// What went wrong, in words.
    pub fn message(&self) -> (r: &'static str)
        ensures
            r@ == "Cannot use Normalize::Independent without rigid scaling"@,
    {
        "Cannot use Normalize::Independent without rigid scaling"
    }
}

/// Settings of a rigid registration.
#[derive(Clone, Copy, Debug)]
pub struct Rigid {
    /// Whether the rotation may be a reflection; by default it is kept proper (determinant 1).
    pub allow_reflections: bool,
    /// The settings shared by all registration methods.
    pub runner: Runner,
    /// Whether a uniform scale is estimated along with rotation and translation.
    pub scale: bool,
}

impl Rigid {
    /// The rigid settings over `runner`, with reflections disallowed and scaling disabled.
    pub open spec fn spec_from_runner(runner: Runner) -> Rigid {
        Rigid { allow_reflections: false, runner, scale: false }
    }

    /// The configuration cannot be registered: independent normalization changes the two
    /// sets' relative scale, which only a scale-enabled update can correct.
    pub open spec fn spec_is_incompatible(self) -> bool {
        self.runner.normalize.spec_requires_scaling() && !self.scale
    }

    /// Creates rigid settings over the default runner.
    pub fn new() -> (r: Rigid)
        ensures
            r == Rigid::spec_from_runner(Runner::spec_default()),
    {
        Rigid::default()
    }

    /// Sets whether reflections are allowed.
    pub fn allow_reflections(self, allow_reflections: bool) -> (r: Rigid)
        ensures
            r == (Rigid { allow_reflections, ..self }),
    {
        Rigid { allow_reflections, ..self }
    }

    /// Sets whether a uniform scale is estimated.
    pub fn scale(self, scale: bool) -> (r: Rigid)
        ensures
            r == (Rigid { scale, ..self }),
    {
        Rigid { scale, ..self }
    }

    /// Checks that the normalization strategy and the scale setting can go together.
    pub fn validate(&self) -> (r: Result<(), CannotNormalizeIndependentlyWithoutScale>)
        ensures
            r is Err <==> self.spec_is_incompatible(),
    {
        if self.runner.requires_scaling() && !self.scale {
            Err(CannotNormalizeIndependentlyWithoutScale {})
        } else {
            Ok(())
        }
    }
}

impl Default for Rigid {
    fn default() -> (r: Rigid)
        ensures
            r == Rigid::spec_from_runner(Runner::spec_default()),
    {
        Rigid { allow_reflections: false, runner: Runner::new(), scale: false }
    }
}

impl From<Runner> for Rigid {
    fn from(runner: Runner) -> (r: Rigid) {
        Rigid { allow_reflections: false, runner, scale: false }
    }
}

impl vstd::std_specs::convert::FromSpecImpl<Runner> for Rigid {
    open spec fn obeys_from_spec() -> bool {
        true
    }

    open spec fn from_spec(runner: Runner) -> Rigid {
        Rigid::spec_from_runner(runner)
    }
}

} // verus!
