use vstd::prelude::*;

verus! {

/// Clock of the processor, in Hz.
pub const CPU_CLOCK_HZ: u128 = 4_194_304;
/// Clock cycles in one M-cycle.
pub const M_CYCLE_CLOCK: u128 = 4;
/// Length of one M-cycle in nanoseconds, rounded down.
pub const M_CYCLE_NANOS: u128 = M_CYCLE_CLOCK * 1_000_000_000 / CPU_CLOCK_HZ;

/// With `now` nanoseconds gone since start and the M-cycles of the first `accounted` of them
/// already run: how many M-cycles are due, and how many nanoseconds they account for
/// altogether. What is left over waits for the next call.
pub fn due_cycles(now: u128, accounted: u128) -> (r: (u128, u128))
    requires
        accounted <= now,
    ensures
        r.0 == (now - accounted) / (M_CYCLE_NANOS as int),
        r.1 == accounted + r.0 * M_CYCLE_NANOS,
        accounted <= r.1 <= now,
        now - r.1 < M_CYCLE_NANOS,
{
    assert(M_CYCLE_NANOS == 953);
    let n: u128 = (now - accounted) / M_CYCLE_NANOS;
    (n, accounted + n * M_CYCLE_NANOS)
}

} // verus!
