//! Normalization strategies applied to the point sets before registration.
use vstd::prelude::*;

verus! {

/// Normalization strategies.
///
/// Normalizing the points before a registration keeps error sums small and, in some cases,
/// prevents them from overflowing.
#[derive(Clone, Copy, Debug, PartialEq, Eq, Structural)]
pub enum Normalize {
    /// Normalize both point sets independently; a rigid registration then needs scaling.
    Independent,
    /// Normalize both point sets with one shared scale (the mean of the two).
    SameScale,
    /// Leave the points as they are.
    Disabled,
}

impl Normalize {
    /// True of the strategy that changes the relative scale of the two sets, which only a
    /// scale-enabled registration can undo.
    pub open spec fn spec_requires_scaling(self) -> bool {
        self == Normalize::Independent
    }

    /// Returns true if this normalization requires scaling.
    pub fn requires_scaling(&self) -> (r: bool)
        ensures
            r == self.spec_requires_scaling(),
    {
        match *self {
            Normalize::Independent => true,
            _ => false,
        }
    }
}

impl Default for Normalize {
    /// The default strategy is `SameScale`.
    fn default() -> (r: Normalize)
        ensures
            r == Normalize::SameScale,
    {
        Normalize::SameScale
    }
}

} // verus!
