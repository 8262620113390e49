//! Backoff-delay arithmetic.
//!
//! Delays are whole nanoseconds in a `u64`. Advancing the delay multiplies it
//! by the configured factor, saturating at `u64::MAX` instead of overflowing;
//! as long as the mathematical product fits, the sequence of backoff delays
//! is exactly `initial * multiplier^k`.

use vstd::arithmetic::power::lemma0_pow;
use vstd::arithmetic::power::lemma_pow_positive;
use vstd::arithmetic::power::pow;
use vstd::prelude::*;

verus! {

/// The product of `a` and `b` when it fits in a `u64`, `u64::MAX` otherwise.
pub open spec fn sat_mul(a: u64, b: u64) -> u64 {
    if a * b > u64::MAX {
        u64::MAX
    } else {
        (a * b) as u64
    }
}

/// The delay in force when the backoff with index `k` begins (0-indexed):
/// the initial delay `d` with the multiplier `m` applied `k` times,
/// saturating at `u64::MAX`.
pub open spec fn delay_at(d: u64, m: u32, k: nat) -> u64
    decreases k,
{
    if k == 0 {
        d
    } else {
        sat_mul(delay_at(d, m, (k - 1) as nat), m as u64)
    }
}

/// Saturating multiply; the machine uses it to advance the backoff delay.
pub fn saturating_mul(a: u64, b: u64) -> (r: u64)
    ensures
        r == sat_mul(a, b),
{
    match a.checked_mul(b) {
        Some(p) => p,
        None => u64::MAX,
    }
}

/// Applying the multiplier once and then `k` more times is applying it
/// `k + 1` times.
pub proof fn lemma_delay_at_shift(d: u64, m: u32, k: nat)
    ensures
        delay_at(sat_mul(d, m as u64), m, k) == delay_at(d, m, k + 1),
    decreases k,
{
    if k > 0 {
        lemma_delay_at_shift(d, m, (k - 1) as nat);
    }
    assert(delay_at(d, m, k + 1) == sat_mul(delay_at(d, m, k), m as u64));
}

/// The delay sequence is exact while it fits: the backoff with index `k`
/// (0-indexed) sleeps for `d * m^k` whenever that product fits in a `u64`.
pub proof fn lemma_delay_exact(d: u64, m: u32, k: nat)
    requires
        d * pow(m as int, k) <= u64::MAX,
    ensures
        delay_at(d, m, k) == d * pow(m as int, k),
    decreases k,
{
    reveal(pow);
    if k == 0 {
    } else if m == 0 {
        lemma0_pow(k);
        assert(delay_at(d, m, k) == sat_mul(delay_at(d, m, (k - 1) as nat), 0));
    } else {
        lemma_pow_positive(m as int, (k - 1) as nat);
        assert(pow(m as int, k) == m * pow(m as int, (k - 1) as nat));
        assert(d * pow(m as int, (k - 1) as nat) <= d * pow(m as int, k)
            && (d * pow(m as int, (k - 1) as nat)) * (m as int) == d * pow(m as int, k))
            by (nonlinear_arith)
            requires
                m >= 1,
                d >= 0,
                pow(m as int, (k - 1) as nat) >= 1,
                pow(m as int, k) == m * pow(m as int, (k - 1) as nat),
        ;
        lemma_delay_exact(d, m, (k - 1) as nat);
    }
}

/// With multiplier 0, every backoff after the first sleeps for 0.
pub proof fn lemma_delay_multiplier_zero(d: u64, k: nat)
    requires
        k >= 1,
    ensures
        delay_at(d, 0, k) == 0,
    decreases k,
{
    if k > 1 {
        lemma_delay_multiplier_zero(d, (k - 1) as nat);
    }
}

/// With multiplier 1, every backoff sleeps for the initial delay.
pub proof fn lemma_delay_multiplier_one(d: u64, k: nat)
    ensures
        delay_at(d, 1, k) == d,
    decreases k,
{
    if k > 0 {
        lemma_delay_multiplier_one(d, (k - 1) as nat);
    }
}

} // verus!
