//! Sign and doubling functions: the smallest of the firmware examples,
//! exercised for functional correctness.

use vstd::prelude::*;

verus! {

/// Returns the sign of `v`: `1` for positive, `0` for zero, `-1` for
/// negative. The result is always exactly one of those three values.
pub fn get_sign(v: i32) -> (r: i32)
    ensures
        r == 1 || r == 0 || r == -1,
        v > 0 ==> r == 1,
        v == 0 ==> r == 0,
        v < 0 ==> r == -1,
{
    if v > 0 {
        1
    } else if v == 0 {
        0
    } else {
        -1
    }
}

/// Doubles `v0` with saturation: inputs whose double would not fit in a
/// `u32` give `u32::MAX` instead. Returns the input alongside the result.
pub fn addu(v0: u32) -> (r: (u32, u32))
    ensures
        r.0 == v0,
        v0 > u32::MAX / 2 ==> r.1 == u32::MAX,
        v0 <= u32::MAX / 2 ==> r.1 == 2 * v0,
{
    if v0 > u32::MAX / 2 {
        (v0, u32::MAX)
    } else {
        (v0, v0 + v0)
    }
}

/// Doubles `v0` exactly; the caller must ensure that the double fits in an
/// `i32`. Returns the input alongside the result.
pub fn addi(v0: i32) -> (r: (i32, i32))
    requires
        i32::MIN <= 2 * v0 <= i32::MAX,
    ensures
        r.0 == v0,
        r.1 == 2 * v0,
{
    (v0, v0 + v0)
}

} // verus!
