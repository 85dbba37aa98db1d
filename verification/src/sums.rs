//! Three summation strategies — recursive, iterative, and closed-form —
//! proved equivalent: each returns the sum of the integers `1..=n`.

use vstd::prelude::*;

verus! {

/// The sum of the integers `1..=n`.
pub open spec fn sum_to(n: nat) -> nat
    decreases n,
{
    if n == 0 {
        0
    } else {
        n + sum_to((n - 1) as nat)
    }
}

/// Twice the sum of `1..=n` is `n * (n + 1)`: the closed form, stated
/// without division so the induction stays in linear arithmetic.
proof fn lemma_sum_to_double(n: nat)
    ensures
        2 * sum_to(n) == n * (n + 1),
    decreases n,
{
    if n != 0 {
        lemma_sum_to_double((n - 1) as nat);
        assert((n - 1) * n + 2 * n == n * (n + 1)) by (nonlinear_arith);
    }
}

/// The closed form of the sum: `sum_to(n) == n * (n + 1) / 2`.
pub proof fn lemma_sum_to_closed_form(n: nat)
    ensures
        sum_to(n) == n * (n + 1) / 2,
{
    lemma_sum_to_double(n);
}

/// For a bound that fits in a `u8`, the sum is at most `sum_to(255)`.
proof fn lemma_sum_to_u8_bound(n: nat)
    requires
        n <= 255,
    ensures
        sum_to(n) <= 32640,
{
    lemma_sum_to_double(n);
    assert(n * (n + 1) <= 255 * 256) by (nonlinear_arith)
        requires
            n <= 255,
    ;
}

/// Sums `1..=n` by direct recursion.
pub fn sum_recursive(n: u8) -> (sum: u32)
    ensures
        sum == sum_to(n as nat),
    decreases n,
{
    if n == 0 {
        0
    } else {
        proof {
            lemma_sum_to_u8_bound(n as nat);
        }
        n as u32 + sum_recursive(n - 1)
    }
}

/// Sums `1..=n` by iteration.
pub fn sum_iterative(n: u8) -> (sum: u32)
    ensures
        sum == sum_to(n as nat),
{
    let mut sum: u32 = 0;
    for v in 0..n
        invariant
            sum == sum_to(v as nat),
    {
        proof {
            lemma_sum_to_u8_bound((v + 1) as nat);
        }
        sum = sum + v as u32 + 1;
    }
    sum
}

/// Sums `1..=n` by the closed-form formula `n * (n + 1) / 2`.
pub fn sum_formula(n: u8) -> (sum: u32)
    ensures
        sum == sum_to(n as nat),
{
    let m: u32 = n as u32;
    proof {
        lemma_sum_to_closed_form(n as nat);
        assert(m * (m + 1) <= 255 * 256) by (nonlinear_arith)
            requires
                m <= 255,
        ;
    }
    m * (m + 1) / 2
}

/// The iterative and recursive sums agree on every input: this check is
/// proved to return `true`.
pub fn equal_iter_rec(n: u8) -> (r: bool)
    ensures
        r,
{
    let i = sum_iterative(n);
    let s = sum_recursive(n);
    i == s
}

/// The recursive and closed-form sums agree on every input: this check is
/// proved to return `true`.
pub fn equal_rec_formula(n: u8) -> (r: bool)
    ensures
        r,
{
    let s = sum_recursive(n);
    let f = sum_formula(n);
    s == f
}

} // verus!
