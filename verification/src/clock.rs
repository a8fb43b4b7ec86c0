//! The clock: the standard library's monotonic time, which the verifier takes on trust.

use vstd::prelude::*;
use std::time::{Duration, Instant};

verus! {

/// A reading of the monotonic clock. Nothing of its value is known to the proofs.
#[verifier::external_type_specification]
#[verifier::external_body]
pub struct ExInstant(Instant);

/// `Instant::now` reads the clock: nothing is promised of the reading.
pub assume_specification[ Instant::now ]() -> (now: Instant);

/// `Instant::elapsed` measures the time since a reading: nothing is promised of
/// the span, which depends on the clock.
pub assume_specification[ Instant::elapsed ](since: &Instant) -> (span: Duration);

/// `Duration::as_secs` gives the whole seconds of a span.
pub assume_specification[ Duration::as_secs ](span: &Duration) -> (secs: u64);

/// `Duration::is_zero` says whether a span is of no time at all.
pub assume_specification[ Duration::is_zero ](span: &Duration) -> (zero: bool);

} // verus!
