//! Wall-clock measurement of how long an operation took.

use vstd::prelude::*;
use std::time::Duration;
use std::time::Instant;

verus! {

#[verifier::external_type_specification]
#[verifier::external_body]
pub struct ExInstant(Instant);

/// `Instant::now` reads the monotonic clock; nothing is known of the moment
/// it returns.
pub assume_specification[ Instant::now ]() -> (t: Instant);

/// `Instant::elapsed` gives the time that has passed since the instant was
/// taken; nothing is known of its length.
pub assume_specification[ Instant::elapsed ](t: &Instant) -> (d: Duration);

/// `Duration::as_millis` gives the whole milliseconds of a duration; nothing
/// is known of their number.
pub assume_specification[ Duration::as_millis ](d: &Duration) -> (ms: u128);

/// Whole milliseconds since `start`, cut to 64 bits.
pub fn elapsed_ms(start: &Instant) -> (ms: u64) {
    let d = start.elapsed();
    let ms: u128 = d.as_millis();
    cut_to_u64(ms)
}

/// A count cut to its low 64 bits. A count that fits is not changed.
pub fn cut_to_u64(n: u128) -> (cut: u64)
    ensures
        cut == n % 0x1_0000_0000_0000_0000,
        n <= u64::MAX ==> cut == n,
{
    (n % 0x1_0000_0000_0000_0000) as u64
}

} // verus!
