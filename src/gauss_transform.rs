//! The correspondence step's precondition: an outlier weight between zero and one.
use crate::binary64::{in_unit_interval, is_in_unit_interval};
use vstd::prelude::*;

verus! {

/// An error returned if the outlier weight is not between zero and one; it carries the weight's
/// bit pattern.
#[derive(Clone, Copy, Debug, PartialEq, Eq, Structural)]
pub struct InvalidOutlierWeight(pub u64);

impl InvalidOutlierWeight {
    /// The rejected weight, as the bit pattern of a double.
    pub fn bits(&self) -> (r: u64)
        ensures
            r == self.0,
    {
        self.0
    }
}

/// Accepts an outlier weight (the bit pattern of a double) exactly when it denotes a number in
/// [0, 1]; NaN and the infinities are refused.
pub fn validate_outlier_weight(outlier_weight: u64) -> (r: Result<(), InvalidOutlierWeight>)
    ensures
        r is Ok <==> in_unit_interval(outlier_weight),
        r is Err ==> r == Err::<(), InvalidOutlierWeight>(InvalidOutlierWeight(outlier_weight)),
{
    if is_in_unit_interval(outlier_weight) {
        Ok(())
    } else {
        Err(InvalidOutlierWeight(outlier_weight))
    }
}

} // verus!
