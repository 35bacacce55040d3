//! Normalization of oracle prices.
//!
//! The oracle reports a price as a signed mantissa and a non-positive
//! power-of-ten exponent. A round keeps at most `price_decimals` decimals:
//! when the oracle carries more, the surplus decimals are truncated — not
//! rounded — by integer division by the corresponding power of ten.

use vstd::prelude::*;

use crate::error::Error;

verus! {

/// `10^n`.
pub open spec fn pow10(n: nat) -> int
    decreases n,
{
    if n == 0 {
        1
    } else {
        10 * pow10((n - 1) as nat)
    }
}

proof fn lemma_pow10_positive(n: nat)
    ensures
        pow10(n) >= 1,
    decreases n,
{
    if n > 0 {
        lemma_pow10_positive((n - 1) as nat);
    }
}

proof fn lemma_pow10_increases(m: nat, n: nat)
    requires
        m <= n,
    ensures
        pow10(m) <= pow10(n),
    decreases n,
{
    if m < n {
        lemma_pow10_increases(m, (n - 1) as nat);
        lemma_pow10_positive((n - 1) as nat);
    }
}

/// How many surplus decimals the oracle carries beyond `target_decimals`:
/// fewer decimals than the target mean no change at all.
pub open spec fn spec_decimal_change(pyth_expo: i32, target_decimals: u8) -> nat {
    if -pyth_expo > target_decimals {
        (-pyth_expo - target_decimals) as nat
    } else {
        0
    }
}

/// The oracle price truncated to `target_decimals` decimals.
pub open spec fn spec_normalized_price(pyth_price: i64, pyth_expo: i32, target_decimals: u8) -> int {
    (pyth_price as int) / pow10(spec_decimal_change(pyth_expo, target_decimals))
}

/// `10^n`, or `None` once the power leaves the widened domain.
fn pow10_checked(n: u8) -> (r: Option<u128>)
    ensures
        match r {
            Some(p) => p == pow10(n as nat),
            None => pow10(n as nat) > u128::MAX,
        },
{
    let mut p: u128 = 1;
    let mut i: u8 = 0;
    while i < n
        invariant
            i <= n,
            p == pow10(i as nat),
        decreases n - i,
    {
        p = match p.checked_mul(10) {
            Some(v) => v,
            None => {
                proof {
                    lemma_pow10_increases((i + 1) as nat, n as nat);
                }
                return None;
            },
        };
        i = i + 1;
    }
    Some(p)
}

/// A non-negative oracle price brought to `target_decimals` decimals, per
/// `spec_normalized_price`. Rejected with `OverflowError` only when the
/// required power of ten leaves the widened domain.
pub fn get_price_with_decimal_change(pyth_price: i64, pyth_expo: i32, target_decimals: u8) -> (r:
    Result<u64, Error>)
    requires
        pyth_price >= 0,
        -255 <= pyth_expo <= 0,
    ensures
        pow10(spec_decimal_change(pyth_expo, target_decimals)) <= u128::MAX ==> r == Ok::<
            u64,
            Error,
        >(spec_normalized_price(pyth_price, pyth_expo, target_decimals) as u64),
        pow10(spec_decimal_change(pyth_expo, target_decimals)) > u128::MAX ==> r == Err::<
            u64,
            Error,
        >(Error::OverflowError),
{
    let pyth_feed_decimals: u8 = (-pyth_expo) as u8;
    let power_change: u8 = if pyth_feed_decimals > target_decimals {
        pyth_feed_decimals - target_decimals
    } else {
        0
    };
    let power = match pow10_checked(power_change) {
        Some(p) => p,
        None => {
            return Err(Error::OverflowError);
        },
    };
    proof {
        lemma_pow10_positive(power_change as nat);
    }
    let price = (pyth_price as u128) / power;
    assert(price <= pyth_price) by (nonlinear_arith)
        requires
            price == (pyth_price as int) / (power as int),
            pyth_price >= 0,
            power >= 1,
    ;
    Ok(price as u64)
}

} // verus!
