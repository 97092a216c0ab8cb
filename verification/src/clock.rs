//! Wall-clock timing, taken from the `stopwatch` crate.
//!
//! What a stopwatch reads depends on when it is read, so nothing is claimed of
//! the values below: the rules that use a reading are proved for every
//! reading.

use vstd::prelude::*;

verus! {

/// A `stopwatch::Stopwatch`, carried through unopened.
#[verifier::external_type_specification]
#[verifier::external_body]
pub struct ExStopwatch(stopwatch::Stopwatch);

/// `Stopwatch::start_new` hands out a stopwatch that runs from the moment of
/// the call. Nothing is claimed of it.
pub assume_specification[ stopwatch::Stopwatch::start_new ]() -> (watch: stopwatch::Stopwatch)
;

/// `Stopwatch::elapsed_ms` reads the whole milliseconds a stopwatch has run.
/// Nothing is claimed of the reading.
pub assume_specification[ stopwatch::Stopwatch::elapsed_ms ](
    watch: &stopwatch::Stopwatch,
) -> (ms: i64)
;

} // verus!
