use vstd::prelude::*;

verus! {

/// Number of base units in one whole token with `decimals` decimal places.
pub open spec fn pow10(decimals: nat) -> nat
    decreases decimals,
{
    if decimals == 0 {
        1
    } else {
        10 * pow10((decimals - 1) as nat)
    }
}

/// `count` whole tokens (or slots of reward) expressed in base units.
pub open spec fn scaled(count: nat, decimals: nat) -> nat {
    count * pow10(decimals)
}

/// Powers of ten are positive and grow with the exponent.
pub proof fn lemma_pow10_monotone(i: nat, j: nat)
    requires
        i <= j,
    ensures
        1 <= pow10(i) <= pow10(j),
    decreases j,
{
    if j > i {
        lemma_pow10_monotone(i, (j - 1) as nat);
    } else if j > 0 {
        lemma_pow10_monotone((j - 1) as nat, (j - 1) as nat);
    }
}

/// Converts `count` whole units into base units of a token with `decimals`
/// decimal places, or `None` when the result does not fit in a `u64`.
pub fn scaled_amount(count: u64, decimals: u8) -> (r: Option<u64>)
    ensures
        r == (if scaled(count as nat, decimals as nat) <= u64::MAX {
            Some(scaled(count as nat, decimals as nat) as u64)
        } else {
            None
        }),
{
    if count == 0 {
        return Some(0);
    }
    let mut p: u64 = 1;
    let mut i: u8 = 0;
    while i < decimals
        invariant
            i <= decimals,
            p == pow10(i as nat),
            1 <= count,
        decreases decimals - i,
    {
        match p.checked_mul(10) {
            Some(q) => {
                p = q;
                i = i + 1;
            },
            None => {
                proof {
                    let big = pow10(decimals as nat);
                    lemma_pow10_monotone((i + 1) as nat, decimals as nat);
                    assert(count * big >= big) by (nonlinear_arith)
                        requires
                            1 <= count,
                            0 <= big,
                    ;
                }
                return None;
            },
        }
    }
    count.checked_mul(p)
}

} // verus!
