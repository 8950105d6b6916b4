//! Amounts of tokens: the fixed principal and the time-proportional reward,
//! both scaled by the token's decimal precision.

use vstd::prelude::*;

verus! {

/// Number of whole tokens that a single stake locks.
pub const STAKE_AMOUNT: u64 = 1;

/// Ten to the power `d`.
pub open spec fn pow10(d: nat) -> int
    decreases d,
{
    if d == 0 {
        1
    } else {
        10 * pow10((d - 1) as nat)
    }
}

/// One whole token expressed in base units of a token with `decimals` places.
pub open spec fn scale_spec(decimals: u8) -> int {
    pow10(decimals as nat)
}

/// The principal, in base units, that a stake locks.
pub open spec fn principal_spec(decimals: u8) -> int {
    STAKE_AMOUNT * scale_spec(decimals)
}

/// The reward, in base units, for `elapsed` seconds: one whole token per second.
pub open spec fn reward_spec(elapsed: int, decimals: u8) -> int {
    elapsed * scale_spec(decimals)
}

pub proof fn lemma_pow10_positive(d: nat)
    ensures
        pow10(d) >= 1,
    decreases d,
{
    if d > 0 {
        lemma_pow10_positive((d - 1) as nat);
    }
}

/// The base units in one whole token, or `None` when `10^decimals` does not
/// fit in a `u64`.
pub fn scale_factor(decimals: u8) -> (r: Option<u64>)
    ensures
        r matches Some(s) ==> s == scale_spec(decimals),
        r is None <==> scale_spec(decimals) > u64::MAX,
{
    let mut s: u64 = 1;
    let mut i: u8 = 0;
    while i < decimals
        invariant
            i <= decimals,
            s == pow10(i as nat),
        decreases decimals - i,
    {
        match s.checked_mul(10) {
            Some(t) => {
                s = t;
                i = i + 1;
            },
            None => {
                proof {
                    lemma_pow10_monotone((i + 1) as nat, decimals as nat);
                }
                return None;
            },
        }
    }
    Some(s)
}

proof fn lemma_pow10_monotone(a: nat, b: nat)
    requires
        a <= b,
    ensures
        pow10(a) <= pow10(b),
    decreases b - a,
{
    if a < b {
        lemma_pow10_monotone(a, (b - 1) as nat);
        lemma_pow10_positive((b - 1) as nat);
    }
}

/// The principal in base units, or `None` when it does not fit in a `u64`.
pub fn principal_amount(decimals: u8) -> (r: Option<u64>)
    ensures
        r matches Some(p) ==> p == principal_spec(decimals),
        r is None <==> principal_spec(decimals) > u64::MAX,
{
    match scale_factor(decimals) {
        Some(s) => STAKE_AMOUNT.checked_mul(s),
        None => None,
    }
}

/// The reward in base units for `elapsed` seconds, or `None` when it, or the
/// scale factor it is computed from, does not fit in a `u64`.
pub fn reward_amount(elapsed: u64, decimals: u8) -> (r: Option<u64>)
    ensures
        r matches Some(x) ==> x == reward_spec(elapsed as int, decimals),
        r is None <==> (scale_spec(decimals) > u64::MAX || reward_spec(elapsed as int, decimals)
            > u64::MAX),
{
    match scale_factor(decimals) {
        Some(s) => elapsed.checked_mul(s),
        None => None,
    }
}

/// The reward grows strictly with the time staked, linearly, at one whole
/// token per second.
pub proof fn lemma_reward_monotonic(t1: int, t2: int, decimals: u8)
    requires
        t1 < t2,
    ensures
        reward_spec(t1, decimals) < reward_spec(t2, decimals),
        reward_spec(t2, decimals) - reward_spec(t1, decimals) == (t2 - t1) * scale_spec(
            decimals,
        ),
{
    lemma_pow10_positive(decimals as nat);
    let s = scale_spec(decimals);
    assert(t1 * s < t2 * s) by (nonlinear_arith)
        requires
            t1 < t2,
            s >= 1,
    ;
    assert(t2 * s - t1 * s == (t2 - t1) * s) by (nonlinear_arith);
}

} // verus!
