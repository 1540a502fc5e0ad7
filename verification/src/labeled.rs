//! The interface of labeled metric instruments: a family of submetrics
//! selected by a string label. The concrete labeled types live with the
//! embedding application; this trait describes the operations they offer.

use crate::counter::ErrorType;
use vstd::prelude::*;

verus! {

/// A description of the labeled-metric interface.
///
/// `T` is the submetric instrument type handed out per label.
pub trait Labeled<T> where T: Clone {
    /// Gets a specific metric for a given label.
    ///
    /// If a set of acceptable labels was configured and the given label
    /// is not in the set, the value is recorded under a reserved
    /// other-label bucket. Without a configured set, only the first 16
    /// unique labels are kept apart; later ones also fall into the
    /// reserved bucket. Labels are limited to 111 printable ASCII
    /// characters; an invalid label likewise lands in the reserved
    /// bucket.
    fn get(&self, label: &str) -> T;

    /// Gets the number of diagnostics recorded against this metric for
    /// the given error type.
    fn test_get_num_recorded_errors(&self, error: ErrorType) -> i32;
}

} // verus!
