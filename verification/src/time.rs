//! Spans of time, as far as a throbber needs them.

use std::time::Duration;
use vstd::prelude::*;

verus! {

/// The duration that lasts `ms` milliseconds.
pub uninterp spec fn duration_of_millis(ms: u64) -> Duration;

/// `Duration::from_millis` builds the duration that lasts the given number of
/// milliseconds. Nothing more is claimed of it.
pub assume_specification[ Duration::from_millis ](millis: u64) -> (d: Duration)
    ensures
        d == duration_of_millis(millis),
;

} // verus!
