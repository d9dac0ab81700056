use vstd::prelude::*;
use vstd::arithmetic::div_mod::lemma_div_is_ordered;

verus! {

/// `x · 2^k`.
pub open spec fn doubled(x: int, k: nat) -> int
    decreases k,
{
    if k == 0 {
        x
    } else {
        2 * doubled(x, (k - 1) as nat)
    }
}

pub open spec fn min_int(a: int, b: int) -> int {
    if a <= b {
        a
    } else {
        b
    }
}

pub open spec fn max_int(a: int, b: int) -> int {
    if a >= b {
        a
    } else {
        b
    }
}

/// Jitter is drawn uniformly from [0.5, 1.5), in thousandths.
pub open spec fn valid_jitter(jitter_permille: u64) -> bool {
    500 <= jitter_permille < 1500
}

/// The sleep after a failed attempt `k`, in milliseconds:
/// `min(base · 2^k · J, max_delay_s · 1000)`, with `J` given in thousandths,
/// saturated at the largest 64-bit value.
pub open spec fn backoff_ms(base_delay_ms: u64, attempt: u32, jitter_permille: u64, max_delay_s: u64) -> int {
    min_int(
        min_int(
            doubled(base_delay_ms * jitter_permille, attempt as nat) / 1000,
            max_delay_s * 1000,
        ),
        u64::MAX as int,
    )
}

proof fn doubled_grows(x: int, i: nat, k: nat)
    requires
        0 <= x,
        i <= k,
    ensures
        0 <= doubled(x, i) <= doubled(x, k),
    decreases k,
{
    if i < k {
        doubled_grows(x, i, (k - 1) as nat);
    } else if k > 0 {
        doubled_grows(x, 0, (k - 1) as nat);
    }
}

/// Computes the exponential backoff of [`backoff_ms`] without overflow.
pub fn backoff_delay_ms(base_delay_ms: u64, attempt: u32, jitter_permille: u64, max_delay_s: u64) -> (r: u64)
    requires
        valid_jitter(jitter_permille),
    ensures
        r == backoff_ms(base_delay_ms, attempt, jitter_permille, max_delay_s),
{
    let cap: u128 = if (max_delay_s as u128) * 1000 < u64::MAX as u128 {
        (max_delay_s as u128) * 1000
    } else {
        u64::MAX as u128
    };
    let ghost x: int = base_delay_ms * jitter_permille;
    assert(0 <= x <= u64::MAX * 1500) by (nonlinear_arith)
        requires
            x == base_delay_ms * jitter_permille,
            jitter_permille < 1500,
    ;
    let mut p: u128 = (base_delay_ms as u128) * (jitter_permille as u128);
    let mut i: u32 = 0;
    while i < attempt
        invariant
            i <= attempt,
            p == doubled(x, i as nat),
            0 <= x,
            x == base_delay_ms * jitter_permille,
            p <= u64::MAX * 2000 + 2000,
            cap == min_int(max_delay_s * 1000, u64::MAX as int),
        decreases attempt - i,
    {
        if p / 1000 > cap {
            proof {
                doubled_grows(x, i as nat, attempt as nat);
                lemma_div_is_ordered(p as int, doubled(x, attempt as nat), 1000);
            }
            return cap as u64;
        }
        p = p * 2;
        i = i + 1;
    }
    let q: u128 = p / 1000;
    if q < cap {
        q as u64
    } else {
        cap as u64
    }
}

} // verus!
