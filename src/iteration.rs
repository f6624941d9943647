//! The decisions of the registration loop.
//!
//! A run is driven from outside: the caller computes the correspondences and the transform
//! update, and hands the controller the two signals that decide whether to go on, the relative
//! error change and the new sigma2 (as bit patterns of doubles). The controller answers with the
//! next action and keeps the iteration count.
use crate::binary64::{in_unit_interval, is_less, lemma_unit_interval_patterns, less};
use crate::gauss_transform::{validate_outlier_weight, InvalidOutlierWeight};
use crate::rigid::{CannotNormalizeIndependentlyWithoutScale, Rigid};
use crate::runner::{Runner, DEFAULT_OUTLIER_WEIGHT};
use vstd::prelude::*;

verus! {

/// Where a run stands.
#[derive(Clone, Copy, Debug, PartialEq, Eq, Structural)]
pub enum Phase {
    /// Iterations may still be performed.
    Iterating,
    /// Iteration stopped on a threshold before the iteration limit.
    Converged,
    /// Iteration stopped because the iteration limit was reached.
    Exhausted,
    /// A numeric step failed; the run is abandoned.
    Failed,
}

/// What the caller does next.
#[derive(Clone, Copy, Debug, PartialEq, Eq, Structural)]
pub enum Action {
    /// Perform one more iteration.
    Iterate,
    /// Stop iterating and finalize the result.
    Finish,
}

/// A configuration that cannot be run, found before any numeric work.
#[derive(Clone, Copy, Debug, PartialEq, Eq, Structural)]
pub enum ConfigurationError {
    /// Independent normalization was asked for without scaling.
    Scaling(CannotNormalizeIndependentlyWithoutScale),
    /// The outlier weight does not lie in [0, 1].
    OutlierWeight(InvalidOutlierWeight),
}

/// The state of a run, as the contracts see it.
pub struct ControllerView {
    pub max_iterations: nat,
    pub error_change_threshold: u64,
    pub sigma2_threshold: u64,
    pub iterations: nat,
    pub phase: Phase,
}

/// The iteration count never passes the limit; a converged run stopped below it and an
/// exhausted one at it.
pub open spec fn well_formed(v: ControllerView) -> bool {
    &&& v.iterations <= v.max_iterations
    &&& v.phase == Phase::Converged ==> v.iterations < v.max_iterations
    &&& v.phase == Phase::Exhausted ==> v.iterations == v.max_iterations
}

/// The state of a run that passed validation.
pub open spec fn started(rigid: Rigid) -> ControllerView {
    ControllerView {
        max_iterations: rigid.runner.max_iterations as nat,
        error_change_threshold: rigid.runner.error_change_threshold,
        sigma2_threshold: rigid.runner.sigma2_threshold,
        iterations: 0,
        phase: Phase::Iterating,
    }
}

/// The loop goes on while under the iteration limit, the error change is above its threshold
/// and sigma2 is above its threshold.
pub open spec fn continues(v: ControllerView, error_change: u64, sigma2: u64) -> bool {
    &&& v.phase == Phase::Iterating
    &&& v.iterations < v.max_iterations
    &&& less(v.error_change_threshold, error_change)
    &&& less(v.sigma2_threshold, sigma2)
}

/// The state after one decision on the given signals.
pub open spec fn after_decision(v: ControllerView, error_change: u64, sigma2: u64) -> ControllerView {
    if v.phase != Phase::Iterating {
        v
    } else if continues(v, error_change, sigma2) {
        ControllerView { iterations: v.iterations + 1, ..v }
    } else if v.iterations < v.max_iterations {
        ControllerView { phase: Phase::Converged, ..v }
    } else {
        ControllerView { phase: Phase::Exhausted, ..v }
    }
}

/// The state after a decision on each pair of signals (error change, sigma2) in turn.
pub open spec fn after_decisions(v: ControllerView, signals: Seq<(u64, u64)>) -> ControllerView
    decreases signals.len(),
{
    if signals.len() == 0 {
        v
    } else {
        after_decisions(after_decision(v, signals[0].0, signals[0].1), signals.drop_first())
    }
}

/// How many of those decisions asked for an iteration.
pub open spec fn iterations_asked(v: ControllerView, signals: Seq<(u64, u64)>) -> nat
    decreases signals.len(),
{
    if signals.len() == 0 {
        0
    } else {
        let next = after_decision(v, signals[0].0, signals[0].1);
        (if continues(v, signals[0].0, signals[0].1) { 1nat } else { 0nat })
            + iterations_asked(next, signals.drop_first())
    }
}

/// Whatever signals a run receives, it asks for at most `max_iterations` iterations in all,
/// its count is the number of iterations asked for, and once stopped it stays stopped.
pub proof fn lemma_iterations_bounded(v: ControllerView, signals: Seq<(u64, u64)>)
    requires
        well_formed(v),
    ensures
        well_formed(after_decisions(v, signals)),
        after_decisions(v, signals).max_iterations == v.max_iterations,
        after_decisions(v, signals).iterations == v.iterations + iterations_asked(v, signals),
        v.iterations + iterations_asked(v, signals) <= v.max_iterations,
        v.phase != Phase::Iterating ==> after_decisions(v, signals) == v,
    decreases signals.len(),
{
    if signals.len() > 0 {
        lemma_iterations_bounded(after_decision(v, signals[0].0, signals[0].1), signals.drop_first());
    }
}

/// A run stops as soon as sigma2 is no longer above its threshold, and then it has converged
/// exactly when it stopped below the iteration limit.
pub proof fn lemma_stops_on_small_sigma2(v: ControllerView, error_change: u64, sigma2: u64)
    requires
        well_formed(v),
        v.phase == Phase::Iterating,
        !less(v.sigma2_threshold, sigma2),
    ensures
        after_decision(v, error_change, sigma2).iterations == v.iterations,
        after_decision(v, error_change, sigma2).phase == Phase::Converged <==> v.iterations
            < v.max_iterations,
        after_decision(v, error_change, sigma2).phase == Phase::Exhausted <==> v.iterations
            == v.max_iterations,
{
}

/// The default settings pass validation: a run started with them begins iterating.
pub proof fn lemma_default_settings_start()
    ensures
        !Rigid::spec_from_runner(Runner::spec_default()).spec_is_incompatible(),
        in_unit_interval(DEFAULT_OUTLIER_WEIGHT),
{
    lemma_unit_interval_patterns(DEFAULT_OUTLIER_WEIGHT);
}

/// Drives the registration loop.
pub struct Controller {
    max_iterations: usize,
    error_change_threshold: u64,
    sigma2_threshold: u64,
    iterations: usize,
    phase: Phase,
}

impl View for Controller {
    type V = ControllerView;

    closed spec fn view(&self) -> ControllerView {
        ControllerView {
            max_iterations: self.max_iterations as nat,
            error_change_threshold: self.error_change_threshold,
            sigma2_threshold: self.sigma2_threshold,
            iterations: self.iterations as nat,
            phase: self.phase,
        }
    }
}

impl Controller {
    #[verifier::type_invariant]
    closed spec fn inv(self) -> bool {
        well_formed(self@)
    }

    /// Validates the settings and starts a run.
    ///
    /// The scale setting is checked first, then the outlier weight; either failure comes
    /// before any iteration can be asked for.
    pub fn start(rigid: &Rigid) -> (r: Result<Controller, ConfigurationError>)
        ensures
            r is Ok <==> !rigid.spec_is_incompatible() && in_unit_interval(
                rigid.runner.outlier_weight,
            ),
            rigid.spec_is_incompatible() ==> r == Err::<Controller, ConfigurationError>(
                ConfigurationError::Scaling(CannotNormalizeIndependentlyWithoutScale {}),
            ),
            !rigid.spec_is_incompatible() && !in_unit_interval(rigid.runner.outlier_weight) ==> r
                == Err::<Controller, ConfigurationError>(
                ConfigurationError::OutlierWeight(InvalidOutlierWeight(rigid.runner.outlier_weight)),
            ),
            r is Ok ==> r->Ok_0@ == started(*rigid),
    {
        match rigid.validate() {
            Err(e) => Err(ConfigurationError::Scaling(e)),
            Ok(()) => match validate_outlier_weight(rigid.runner.outlier_weight) {
                Err(e) => Err(ConfigurationError::OutlierWeight(e)),
                Ok(()) => Ok(
                    Controller {
                        max_iterations: rigid.runner.max_iterations,
                        error_change_threshold: rigid.runner.error_change_threshold,
                        sigma2_threshold: rigid.runner.sigma2_threshold,
                        iterations: 0,
                        phase: Phase::Iterating,
                    },
                ),
            },
        }
    }

    /// Decides on the signals of the latest iteration (or, before the first one, on the
    /// initial error change and sigma2): either one more iteration, counted now, or the end of
    /// the loop.
    pub fn decide(&mut self, error_change: u64, sigma2: u64) -> (a: Action)
        ensures
            final(self)@ == after_decision(old(self)@, error_change, sigma2),
            a == Action::Iterate <==> continues(old(self)@, error_change, sigma2),
            well_formed(final(self)@),
    {
        proof {
            use_type_invariant(&*self);
        }
        if self.phase != Phase::Iterating {
            return Action::Finish;
        }
        if self.iterations < self.max_iterations && is_less(self.error_change_threshold, error_change)
            && is_less(self.sigma2_threshold, sigma2) {
            self.iterations = self.iterations + 1;
            Action::Iterate
        } else {
            if self.iterations < self.max_iterations {
                self.phase = Phase::Converged;
            } else {
                self.phase = Phase::Exhausted;
            }
            Action::Finish
        }
    }

    /// Records that a numeric step failed: the run is abandoned.
    pub fn fail(&mut self)
        ensures
            final(self)@ == (ControllerView { phase: Phase::Failed, ..old(self)@ }),
    {
        proof {
            use_type_invariant(&*self);
        }
        self.phase = Phase::Failed;
    }

    /// Whether the run stopped on a threshold before the iteration limit.
    pub fn converged(&self) -> (r: bool)
        ensures
            r == (self@.phase == Phase::Converged),
            self@.phase == Phase::Converged || self@.phase == Phase::Exhausted ==> (r
                <==> self@.iterations < self@.max_iterations),
    {
        proof {
            use_type_invariant(self);
        }
        self.phase == Phase::Converged
    }

    /// The number of iterations asked for so far.
    pub fn iterations(&self) -> (r: usize)
        ensures
            r == self@.iterations,
    {
        self.iterations
    }

    /// Where the run stands.
    pub fn phase(&self) -> (r: Phase)
        ensures
            r == self@.phase,
    {
        self.phase
    }
}

} // verus!
