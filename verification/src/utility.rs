use vstd::prelude::*;

verus! {

// A cooperative busy-wait.  The clock is the machine's and says nothing
// verifiable, so the trusted items below carry no promises beyond their
// types; the loop itself is ordinary verified code.

#[verifier::external_type_specification]
#[verifier::external_body]
pub struct ExInstant(std::time::Instant);

/// Relies on std::time::Instant::now: an opaque monotonic timestamp.
#[verifier::external_body]
fn instant_now() -> (r: std::time::Instant) {
    std::time::Instant::now()
}

/// Relies on std::time::Instant::elapsed: the time since the instant.
#[verifier::external_body]
fn instant_elapsed(start: &std::time::Instant) -> (r: core::time::Duration) {
    start.elapsed()
}

/// Relies on core::time::Duration::as_millis: the duration in whole
/// milliseconds.
#[verifier::external_body]
fn duration_millis(d: &core::time::Duration) -> (r: u128) {
    d.as_millis()
}

/// Burns the calling thread until `interval_ms` milliseconds have passed,
/// without suspending it.  The poll count is bounded only so that the
/// loop provably terminates; the clock reaches any real interval first.
pub fn spin(interval_ms: u64) {
    let start = instant_now();
    let mut fuel: u64 = u64::MAX;
    while fuel > 0
        decreases fuel,
    {
        let waited = instant_elapsed(&start);
        if duration_millis(&waited) >= interval_ms as u128 {
            return ;
        }
        fuel = fuel - 1;
    }
}

} // verus!
