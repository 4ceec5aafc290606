//! The timing of the viewer's loop: how long it waits for a key, and when
//! it refreshes the tables from the cluster.

use vstd::prelude::*;

verus! {

/// The longest wait for a key, in milliseconds.
pub const PULLING_DURATION_MS: u64 = 250;

/// The time between two refreshes of the tables, in milliseconds.
pub const TICKS_DELAY_MS: u64 = 1000;

/// Nanoseconds in a millisecond.
pub const NANOS_PER_MILLI: u128 = 1_000_000;

/// What is left of `period` once `elapsed` has passed, and nothing once it
/// has passed whole.
pub open spec fn remaining(period: nat, elapsed: nat) -> nat {
    if elapsed < period {
        (period - elapsed) as nat
    } else {
        0
    }
}

/// How long to wait for a key, in nanoseconds: what is left of the polling
/// period since the last refresh.
pub fn poll_wait(period_nanos: u128, elapsed_nanos: u128) -> (r: u128)
    ensures
        r == remaining(period_nanos as nat, elapsed_nanos as nat),
        r <= period_nanos,
{
    period_nanos.saturating_sub(elapsed_nanos)
}

/// Whether the tables are due for a refresh: the delay has passed since the
/// last one.
pub fn refresh_due(elapsed_nanos: u128, delay_nanos: u128) -> (r: bool)
    ensures
        r == (elapsed_nanos >= delay_nanos),
{
    elapsed_nanos >= delay_nanos
}

/// A period in milliseconds, in nanoseconds.
pub fn millis_to_nanos(ms: u64) -> (r: u128)
    ensures
        r == ms * NANOS_PER_MILLI,
{
    assert(ms * NANOS_PER_MILLI <= u64::MAX * 1_000_000) by (nonlinear_arith)
        requires
            ms <= u64::MAX,
    ;
    ms as u128 * NANOS_PER_MILLI
}

} // verus!
