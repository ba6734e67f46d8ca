//! Turning a pair of cumulative counters and an elapsed interval into an
//! instantaneous rate: saturating delta, scaled to one second, truncated.

use vstd::prelude::*;

verus! {

/// Clamp a mathematical integer into the `u64` range.
pub open spec fn clamp_u64(x: int) -> u64 {
    if x > u64::MAX as int {
        u64::MAX
    } else if x < 0 {
        0
    } else {
        x as u64
    }
}

/// The milliseconds elapsed between the previous sample and the current
/// one; a clock that did not move forward counts as no elapsed time.
pub open spec fn spec_elapsed_ms(prev_ms: u64, curr_ms: u64) -> u64 {
    clamp_u64(curr_ms - prev_ms)
}

/// The rate in bits per second derived from a cumulative total, the
/// previous sample's total, and the elapsed milliseconds: the delta,
/// floored at zero when the counter went backwards, scaled to one second
/// and divided by the elapsed time, truncated. A zero elapsed interval is
/// defined as rate zero to avoid dividing by zero.
pub open spec fn spec_rate(total: u64, prev: u64, elapsed_ms: u64) -> u64 {
    if elapsed_ms == 0 {
        0
    } else {
        clamp_u64((clamp_u64(total - prev) as int * 1000) / elapsed_ms as int)
    }
}

/// Compute the rate in bits per second from cumulative bit counters and an
/// elapsed interval in milliseconds. Counter resets (a total below the
/// previous sample) floor the delta at zero rather than wrapping.
pub fn compute_rate(total: u64, prev: u64, elapsed_ms: u64) -> (rate: u64)
    ensures
        rate == spec_rate(total, prev, elapsed_ms),
{
    if elapsed_ms == 0 {
        0
    } else {
        let delta: u64 = total.saturating_sub(prev);
        let scaled: u128 = (delta as u128) * 1000;
        let q: u128 = scaled / (elapsed_ms as u128);
        if q > u64::MAX as u128 {
            u64::MAX
        } else {
            q as u64
        }
    }
}

/// Law: when the counter did not reset and time has passed, the rate is
/// exactly the truncated quotient of the scaled delta, and the traffic it
/// claims over the elapsed interval never exceeds the delta itself.
pub proof fn lemma_rate_of_increase(total: u64, prev: u64, elapsed_ms: u64)
    requires
        prev <= total,
        elapsed_ms > 0,
    ensures
        spec_rate(total, prev, elapsed_ms) == clamp_u64(
            ((total - prev) * 1000) / elapsed_ms as int,
        ),
        spec_rate(total, prev, elapsed_ms) as int * elapsed_ms as int <= (total - prev) * 1000,
{
    let d = (total - prev) as int;
    let e = elapsed_ms as int;
    let q = (d * 1000) / e;
    vstd::arithmetic::div_mod::lemma_fundamental_div_mod(d * 1000, e);
    vstd::arithmetic::div_mod::lemma_mod_division_less_than_divisor(d * 1000, e);
    assert(q * e <= d * 1000);
    if q > u64::MAX as int {
        assert((u64::MAX as int) * e <= q * e) by (nonlinear_arith)
            requires
                q > u64::MAX as int,
                e > 0,
        ;
    }
}

/// Law: a counter reset (the total fell below the previous sample) yields
/// a rate of exactly zero, never a wrapped value.
pub proof fn lemma_rate_of_reset(total: u64, prev: u64, elapsed_ms: u64)
    requires
        total < prev,
    ensures
        spec_rate(total, prev, elapsed_ms) == 0,
{
    if elapsed_ms != 0 {
        let e = elapsed_ms as int;
        assert(clamp_u64(total - prev) == 0);
        assert(0int / e == 0) by {
            vstd::arithmetic::div_mod::lemma_div_basics(e);
        }
    }
}

/// Law: a zero elapsed interval yields a rate of zero, whatever the
/// counters say.
pub proof fn lemma_rate_of_zero_elapsed(total: u64, prev: u64)
    ensures
        spec_rate(total, prev, 0) == 0,
{
}

} // verus!
