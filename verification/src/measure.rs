//! The pure arithmetic of the measurement runner: the fixed busy-wait loop
//! that is measured, the selection of the largest per-path cycle estimate,
//! and the differencing of the 24-bit cycle counter register across a
//! measured region.

use vstd::prelude::*;

verus! {

/// The cycle counter register carries its value in the low 24 bits.
pub const CYCCNT_MASK: u32 = 0x00FF_FFFF;

/// Fixed number of counter ticks spent on the breakpoints that delimit the
/// measured region; subtracted from every measurement.
pub const BKPT_OVERHEAD: u32 = 5;

/// The counter value carried in a raw register word: its low 24 bits.
pub open spec fn counter_of(raw: u32) -> u32 {
    raw & CYCCNT_MASK
}

/// The cycle count of a measured region, from the raw register words read
/// at its start and at its end. The counter increments with each clock
/// cycle, so the end value is the larger one; the fixed breakpoint
/// overhead is subtracted. A pair whose difference does not cover the
/// overhead — including one where the masked counter wrapped — yields
/// nothing.
pub open spec fn cycle_diff_spec(start_raw: u32, end_raw: u32) -> Option<u64> {
    let s = counter_of(start_raw);
    let e = counter_of(end_raw);
    if e >= s + BKPT_OVERHEAD {
        Some((e - s - BKPT_OVERHEAD) as u64)
    } else {
        None
    }
}

/// Differences the two raw register words of a measured region, masking
/// each to the counter's 24 bits and subtracting the breakpoint overhead.
pub fn cycle_diff(start_raw: u32, end_raw: u32) -> (r: Option<u64>)
    ensures
        r == cycle_diff_spec(start_raw, end_raw),
        r matches Some(d) ==> d <= CYCCNT_MASK,
{
    let s = start_raw & CYCCNT_MASK;
    let e = end_raw & CYCCNT_MASK;
    proof {
        assert(end_raw & 0x00FF_FFFFu32 <= 0x00FF_FFFFu32) by (bit_vector);
    }
    if e >= s && e - s >= BKPT_OVERHEAD {
        Some((e - s - BKPT_OVERHEAD) as u64)
    } else {
        None
    }
}

/// The largest per-path cycle estimate among those reported, or nothing
/// when no path was reported.
pub fn max_path_cycles(cycles: &Vec<u64>) -> (r: Option<u64>)
    ensures
        match r {
            Some(m) => cycles@.contains(m) && forall|i: int|
                0 <= i < cycles@.len() ==> cycles@[i] <= m,
            None => cycles@.len() == 0,
        },
{
    if cycles.len() == 0 {
        return None;
    }
    let mut m: u64 = cycles[0];
    let mut k: usize = 1;
    proof {
        assert(cycles@.contains(cycles@[0]));
    }
    while k < cycles.len()
        invariant
            1 <= k <= cycles@.len(),
            cycles@.contains(m),
            forall|i: int| 0 <= i < k ==> cycles@[i] <= m,
        decreases cycles@.len() - k,
    {
        if cycles[k] > m {
            m = cycles[k];
            proof {
                assert(cycles@.contains(cycles@[k as int]));
            }
        }
        k = k + 1;
    }
    Some(m)
}

/// Spins for a fixed number of iterations: the busy-wait example whose
/// duration the cycle counter is asked to measure. Verification shows that
/// the loop terminates.
pub fn timed_loop() {
    let mut i: u32 = 0;
    while i < 10000
        invariant
            i <= 10000,
        decreases 10000 - i,
    {
        i = i + 1;
    }
}

} // verus!
