//! A calibrated busy-wait delay: two nested counting loops whose iteration
//! count stands in for elapsed time on the target clock. The loops' work is
//! made observable by counting every inner iteration, so the delay cannot be
//! elided and its duration can be reasoned about.

use vstd::prelude::*;

verus! {

/// Inner-loop iterations that approximate one millisecond on the target
/// clock speed; found empirically, not crystal-accurate.
pub const ITERS_PER_MILLISECOND: u32 = 1500;

/// Total inner-loop iterations that a wait of `ms` milliseconds performs.
pub open spec fn wait_work(ms: u32) -> nat {
    ms as nat * ITERS_PER_MILLISECOND as nat
}

/// Busy-spin for approximately `ms` milliseconds. Returns the number of
/// inner-loop iterations performed, the observable measure of the work done:
/// zero for `ms == 0`, and strictly increasing in `ms`.
pub fn wait_approx_ms(ms: u32) -> (work: u64)
    ensures
        work == wait_work(ms),
{
    let mut work: u64 = 0;
    let mut i: u32 = 0;
    while i < ms
        invariant
            i <= ms,
            work == wait_work(i),
        decreases ms - i,
    {
        let mut j: u32 = 0;
        while j < ITERS_PER_MILLISECOND
            invariant
                j <= ITERS_PER_MILLISECOND,
                i < ms,
                work == wait_work(i) + j,
            decreases ITERS_PER_MILLISECOND - j,
        {
            work = work + 1;
            j = j + 1;
        }
        i = i + 1;
    }
    work
}

/// A zero-length wait performs no work at all: the outer loop runs no
/// iterations.
pub proof fn lemma_wait_zero()
    ensures
        wait_work(0) == 0,
{
}

/// The wait is strictly monotonic: each further millisecond costs strictly
/// more work than the previous total.
pub proof fn lemma_wait_monotonic(ms: u32)
    requires
        ms >= 1,
    ensures
        wait_work(ms) > wait_work((ms - 1) as u32),
{
}

} // verus!
