//! What the library relies on from `std::time::Duration`.
//!
//! A duration is read through two quantities, its whole seconds and the rest
//! below one second. The contracts below are taken from the documentation of
//! the standard library and are not proved here.

use std::time::Duration;
use vstd::prelude::*;

verus! {

/// The whole seconds in a duration: what `Duration::as_secs` returns.
pub uninterp spec fn whole_secs(d: Duration) -> u64;

/// The part of a duration below one second, in nanoseconds: what
/// `Duration::subsec_nanos` returns.
pub uninterp spec fn subsec_nanos(d: Duration) -> u32;

/// `Duration::from_secs` makes the duration of exactly `secs` seconds.
pub assume_specification[ Duration::from_secs ](secs: u64) -> (d: Duration)
    ensures
        whole_secs(d) == secs,
        subsec_nanos(d) == 0,
;

/// `Duration::as_secs` gives the whole seconds of the duration.
pub assume_specification[ Duration::as_secs ](d: &Duration) -> (secs: u64)
    ensures
        secs == whole_secs(*d),
;

} // verus!
