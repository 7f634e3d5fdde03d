//! Spans of time, and the random spread that keeps retries apart.
use rand::Rng;
use std::time::Duration;
use vstd::prelude::*;

verus! {

/// The length of a span of time in nanoseconds.
pub uninterp spec fn nanos_of(d: Duration) -> nat;

/// `Duration::new`: so many seconds and nanoseconds.
pub assume_specification[ Duration::new ](secs: u64, nanos: u32) -> (d: Duration)
    requires
        nanos < 1_000_000_000,
    ensures
        nanos_of(d) == secs * 1_000_000_000 + nanos,
;

/// `Duration::as_nanos`: the length in nanoseconds.
pub assume_specification[ Duration::as_nanos ](d: &Duration) -> (n: u128)
    ensures
        n == nanos_of(*d),
;

/// `rand::Rng::gen_range` on the thread's generator: some value of the
/// half-open range. Which one is left to chance.
#[verifier::external_body]
fn draw(low: u64, high: u64) -> (n: u64)
    requires
        low < high,
    ensures
        low <= n < high,
{
    rand::thread_rng().gen_range(low..high)
}

/// The least factor, in billionths.
pub const FACTOR_LOW: u64 = 800_000_000;

/// The factor that no draw reaches, in billionths.
pub const FACTOR_HIGH: u64 = 1_200_000_000;

/// A factor between 0.8 and 1.2, in billionths, by chance.
pub fn jitter() -> (n: u64)
    ensures
        FACTOR_LOW <= n < FACTOR_HIGH,
{
    draw(FACTOR_LOW, FACTOR_HIGH)
}

/// A number of seconds times a factor in billionths.
pub fn scale_secs(secs: u64, factor: u64) -> (d: Duration)
    requires
        secs * factor / 1_000_000_000 <= u64::MAX,
    ensures
        nanos_of(d) == secs * factor,
{
    assert(secs * factor <= u64::MAX * u64::MAX) by (nonlinear_arith)
        requires
            secs <= u64::MAX,
            factor <= u64::MAX,
    ;
    let total: u128 = (secs as u128) * (factor as u128);
    let whole: u128 = total / 1_000_000_000;
    let rest: u128 = total % 1_000_000_000;
    Duration::new(whole as u64, rest as u32)
}

/// A resync interval spread by a fifth either way, so that a fleet does not
/// reconcile in step.
pub fn jittered_resync(base_secs: u64) -> (d: Duration)
    requires
        base_secs * 12 <= u64::MAX * 10,
    ensures
        base_secs * FACTOR_LOW <= nanos_of(d) <= base_secs * FACTOR_HIGH,
{
    let factor = jitter();
    assert(base_secs * FACTOR_LOW <= base_secs * factor <= base_secs * FACTOR_HIGH)
        by (nonlinear_arith)
        requires
            FACTOR_LOW <= factor < FACTOR_HIGH,
    ;
    scale_secs(base_secs, factor)
}

} // verus!
