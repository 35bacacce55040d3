//! The settlement engine: pure payout arithmetic.
//!
//! Three functions compute, from the state of a settled round and one stake
//! record, what the participant earned, what fee is levied on the earnings,
//! and what amount leaves the pool towards the participant. All value-bearing
//! arithmetic is widened for the multiply, narrowed only after the divide,
//! and rejects overflow explicitly instead of wrapping.

use vstd::arithmetic::div_mod::{lemma_fundamental_div_mod, lemma_mod_bound};
use vstd::arithmetic::mul::{
    lemma_mul_is_commutative, lemma_mul_is_distributive_add, lemma_mul_nonnegative,
};
use vstd::prelude::*;

use crate::error::Error;
use crate::outcome::Outcome;
use crate::state::MAX_FEE_BPS;

verus! {

/// What a stake of `order_amount` on `order_outcome` earns beyond its
/// principal when the round resolves `event_outcome` over the pools
/// `up_amount` / `down_amount`: the stake's proportional share of the losing
/// pool, truncated towards zero; nothing for a loser, a one-sided pool, or a
/// round that resolved `Invalid` or `Same`.
pub open spec fn spec_earned(
    up_amount: u128,
    down_amount: u128,
    event_outcome: Outcome,
    order_amount: u64,
    order_outcome: Outcome,
) -> int {
    if event_outcome != order_outcome {
        0
    } else if up_amount == 0 || down_amount == 0 {
        0
    } else if event_outcome == Outcome::Up {
        (order_amount * down_amount) / (up_amount as int)
    } else if event_outcome == Outcome::Down {
        (order_amount * up_amount) / (down_amount as int)
    } else {
        0
    }
}

/// When the widened earnings computation must be rejected: the product no
/// longer fits the widened domain, or the quotient no longer fits a `u64`.
pub open spec fn earned_overflows(
    up_amount: u128,
    down_amount: u128,
    event_outcome: Outcome,
    order_amount: u64,
    order_outcome: Outcome,
) -> bool {
    &&& event_outcome == order_outcome
    &&& event_outcome.is_side()
    &&& up_amount > 0
    &&& down_amount > 0
    &&& {
        let losing = if event_outcome == Outcome::Up {
            down_amount as int
        } else {
            up_amount as int
        };
        order_amount * losing > u128::MAX
            || spec_earned(up_amount, down_amount, event_outcome, order_amount, order_outcome)
                > u64::MAX
    }
}

/// `bps` basis points of `amount`, truncated towards zero.
pub open spec fn spec_fee(amount: int, bps: u32) -> int {
    amount * bps / 10000
}

/// What leaves the pool towards the participant: the full principal when the
/// round refunds (`Invalid`, `Same`, or a one-sided pool), nothing for a
/// loser, and principal plus earnings net of the fee for a winner.
pub open spec fn spec_user_amount(
    event_outcome: Outcome,
    up_amount: u128,
    down_amount: u128,
    order_outcome: Outcome,
    order_amount: u64,
    earned: int,
    fee: int,
) -> int {
    if event_outcome == Outcome::Invalid || event_outcome == Outcome::Same {
        order_amount as int
    } else if up_amount == 0 || down_amount == 0 {
        order_amount as int
    } else if event_outcome != order_outcome {
        0
    } else {
        order_amount + earned - fee
    }
}

/// When the winner's `principal + earned - fee` cannot be represented: the
/// sum exceeds `u64` or the fee exceeds what it is levied against.
pub open spec fn user_amount_overflows(
    event_outcome: Outcome,
    up_amount: u128,
    down_amount: u128,
    order_outcome: Outcome,
    order_amount: u64,
    earned: u64,
    fee: u64,
) -> bool {
    &&& event_outcome != Outcome::Invalid
    &&& event_outcome != Outcome::Same
    &&& up_amount > 0
    &&& down_amount > 0
    &&& event_outcome == order_outcome
    &&& (order_amount + earned > u64::MAX || fee > order_amount + earned)
}

/// The earnings of one stake record, per `spec_earned`.
pub fn get_earned_amount(
    up_amount: u128,
    down_amount: u128,
    event_outcome: Outcome,
    order_amount: u64,
    order_outcome: Outcome,
) -> (r: Result<u64, Error>)
    ensures
        earned_overflows(up_amount, down_amount, event_outcome, order_amount, order_outcome)
            ==> r == Err::<u64, Error>(Error::OverflowError),
        !earned_overflows(up_amount, down_amount, event_outcome, order_amount, order_outcome)
            ==> r == Ok::<u64, Error>(
                spec_earned(up_amount, down_amount, event_outcome, order_amount, order_outcome)
                    as u64,
            ),
{
    if event_outcome != order_outcome {
        return Ok(0);
    }

    // Nothing earned if only one side was entered
    if up_amount == 0 || down_amount == 0 {
        return Ok(0);
    }

    let winning_pool: u128;
    let losing_pool: u128;
    if event_outcome == Outcome::Up {
        winning_pool = up_amount;
        losing_pool = down_amount;
    } else if event_outcome == Outcome::Down {
        winning_pool = down_amount;
        losing_pool = up_amount;
    } else {
        return Ok(0);
    }

    // Divide the losing pool by winning for the earnings multiplier
    let product = match (order_amount as u128).checked_mul(losing_pool) {
        Some(p) => p,
        None => {
            return Err(Error::OverflowError);
        },
    };
    let quotient = product / winning_pool;
    if quotient > u64::MAX as u128 {
        return Err(Error::OverflowError);
    }
    Ok(quotient as u64)
}

/// `bps` basis points of `amount`: the fee levied on earnings, and likewise
/// the burned fraction of a fee.
pub fn get_bps_amount(amount: u64, bps: u32) -> (r: Result<u64, Error>)
    ensures
        spec_fee(amount as int, bps) <= u64::MAX ==> r == Ok::<u64, Error>(
            spec_fee(amount as int, bps) as u64,
        ),
        spec_fee(amount as int, bps) > u64::MAX ==> r == Err::<u64, Error>(Error::OverflowError),
{
    if amount == 0 {
        assert(spec_fee(0, bps) == 0) by (nonlinear_arith);
        return Ok(0);
    }

    assert((amount as u128) * (bps as u128) <= u128::MAX) by (nonlinear_arith)
        requires
            amount <= u64::MAX,
            bps <= u32::MAX,
    ;
    let product = (amount as u128) * (bps as u128);
    let quotient = product / 10000;
    if quotient > u64::MAX as u128 {
        return Err(Error::OverflowError);
    }
    Ok(quotient as u64)
}

/// What leaves the pool towards the participant, per `spec_user_amount`.
/// Fees are levied only on earnings, never on principal, so every refund
/// path returns the principal untouched.
pub fn get_amount_to_user(
    event_outcome: Outcome,
    up_amount: u128,
    down_amount: u128,
    order_outcome: Outcome,
    order_amount: u64,
    earned_amount: u64,
    fee: u64,
) -> (r: Result<u64, Error>)
    ensures
        user_amount_overflows(
            event_outcome,
            up_amount,
            down_amount,
            order_outcome,
            order_amount,
            earned_amount,
            fee,
        ) ==> r == Err::<u64, Error>(Error::OverflowError),
        !user_amount_overflows(
            event_outcome,
            up_amount,
            down_amount,
            order_outcome,
            order_amount,
            earned_amount,
            fee,
        ) ==> r == Ok::<u64, Error>(
            spec_user_amount(
                event_outcome,
                up_amount,
                down_amount,
                order_outcome,
                order_amount,
                earned_amount as int,
                fee as int,
            ) as u64,
        ),
{
    // Return the original amount if the event was invalid or same
    if event_outcome == Outcome::Invalid || event_outcome == Outcome::Same {
        return Ok(order_amount);
    }

    // Return the original amount if one side wasn't entered
    if up_amount == 0 || down_amount == 0 {
        return Ok(order_amount);
    }

    // Losers get nothing
    if event_outcome != order_outcome {
        return Ok(0);
    }

    // Winners get their original amount back plus their earnings minus fees
    let with_earnings = match order_amount.checked_add(earned_amount) {
        Some(v) => v,
        None => {
            return Err(Error::OverflowError);
        },
    };
    match with_earnings.checked_sub(fee) {
        Some(v) => Ok(v),
        None => Err(Error::OverflowError),
    }
}

/// The sum of a sequence of stake amounts.
pub open spec fn sum_amounts(s: Seq<u64>) -> int
    decreases s.len(),
{
    if s.len() == 0 {
        0
    } else {
        sum_amounts(s.drop_last()) + s.last()
    }
}

/// The sum of the truncated earnings `(a * losing) / winning` over a
/// sequence of winning stake amounts.
pub open spec fn sum_earned(s: Seq<u64>, losing: int, winning: int) -> int
    decreases s.len(),
{
    if s.len() == 0 {
        0
    } else {
        sum_earned(s.drop_last(), losing, winning) + (s.last() * losing) / winning
    }
}

/// The total value a settlement of every stake in `s` on the winning side
/// moves out of the pool: for each stake, the amount to the participant plus
/// the fee levied on its earnings.
pub open spec fn sum_settled(
    s: Seq<u64>,
    up_amount: u128,
    down_amount: u128,
    outcome: Outcome,
    fee_bps: u32,
) -> int
    decreases s.len(),
{
    if s.len() == 0 {
        0
    } else {
        let a = s.last();
        let e = spec_earned(up_amount, down_amount, outcome, a, outcome);
        let f = spec_fee(e, fee_bps);
        sum_settled(s.drop_last(), up_amount, down_amount, outcome, fee_bps) + spec_user_amount(
            outcome,
            up_amount,
            down_amount,
            outcome,
            a,
            e,
            f,
        ) + f
    }
}

/// Each truncated quotient loses less than one unit: summed over `s`, the
/// total earnings stay within `losing * sum / winning`, and fall short of it
/// by less than `s.len()` whole units of the winning pool.
proof fn lemma_sum_earned_bounds(s: Seq<u64>, losing: int, winning: int)
    requires
        winning > 0,
        losing >= 0,
    ensures
        winning * sum_earned(s, losing, winning) <= losing * sum_amounts(s),
        s.len() > 0 ==> losing * sum_amounts(s) < winning * sum_earned(s, losing, winning)
            + s.len() * winning,
    decreases s.len(),
{
    if s.len() == 0 {
        assert(winning * 0 == 0 && losing * 0 == 0) by (nonlinear_arith);
    } else {
        let rest = s.drop_last();
        lemma_sum_earned_bounds(rest, losing, winning);
        let a = s.last() as int;
        let p = a * losing;
        lemma_mul_nonnegative(a, losing);
        lemma_fundamental_div_mod(p, winning);
        lemma_mod_bound(p, winning);
        assert(winning * (p / winning) <= p < winning * (p / winning) + winning);
        lemma_mul_is_commutative(a, losing);
        lemma_mul_is_distributive_add(losing, sum_amounts(rest), a);
        lemma_mul_is_distributive_add(winning, sum_earned(rest, losing, winning), p / winning);
        assert((s.len() as int) * winning == (rest.len() as int) * winning + winning)
            by (nonlinear_arith)
            requires
                s.len() == rest.len() + 1,
        ;
        if rest.len() == 0 {
            assert(winning * sum_earned(rest, losing, winning) == 0 && losing * sum_amounts(rest)
                == 0 && (rest.len() as int) * winning == 0) by (nonlinear_arith)
                requires
                    sum_earned(rest, losing, winning) == 0,
                    sum_amounts(rest) == 0,
                    rest.len() == 0,
            ;
        }
    }
}

/// Settling a winning stake moves exactly its principal plus its earnings
/// out of the pool, the fee included; summed, that is the principal sum plus
/// the earnings sum.
proof fn lemma_sum_settled_decomposes(
    s: Seq<u64>,
    up_amount: u128,
    down_amount: u128,
    outcome: Outcome,
    fee_bps: u32,
)
    requires
        outcome.is_side(),
        up_amount > 0,
        down_amount > 0,
    ensures
        sum_settled(s, up_amount, down_amount, outcome, fee_bps) == sum_amounts(s) + sum_earned(
            s,
            if outcome == Outcome::Up {
                down_amount as int
            } else {
                up_amount as int
            },
            if outcome == Outcome::Up {
                up_amount as int
            } else {
                down_amount as int
            },
        ),
    decreases s.len(),
{
    if s.len() == 0 {
    } else {
        lemma_sum_settled_decomposes(s.drop_last(), up_amount, down_amount, outcome, fee_bps);
    }
}

/// Conservation: over any settled two-sided round, the amounts paid to the
/// winning participants plus the fees levied on them never exceed the whole
/// pool, and the shortfall — what floor-rounding leaves behind — is smaller
/// than the number of winning records.
pub proof fn lemma_conservation(
    stakes: Seq<u64>,
    up_amount: u128,
    down_amount: u128,
    outcome: Outcome,
    fee_bps: u32,
)
    requires
        outcome.is_side(),
        up_amount > 0,
        down_amount > 0,
        sum_amounts(stakes) == if outcome == Outcome::Up {
            up_amount as int
        } else {
            down_amount as int
        },
    ensures
        sum_settled(stakes, up_amount, down_amount, outcome, fee_bps) <= up_amount + down_amount,
        up_amount + down_amount - sum_settled(stakes, up_amount, down_amount, outcome, fee_bps)
            < stakes.len(),
{
    let winning = if outcome == Outcome::Up {
        up_amount as int
    } else {
        down_amount as int
    };
    let losing = if outcome == Outcome::Up {
        down_amount as int
    } else {
        up_amount as int
    };
    if stakes.len() == 0 {
        assert(sum_amounts(stakes) == 0);
    }
    lemma_sum_settled_decomposes(stakes, up_amount, down_amount, outcome, fee_bps);
    lemma_sum_earned_bounds(stakes, losing, winning);
    let earned = sum_earned(stakes, losing, winning);
    assert(earned <= losing) by (nonlinear_arith)
        requires
            winning > 0,
            winning * earned <= losing * winning,
    ;
    assert(losing - stakes.len() < earned) by (nonlinear_arith)
        requires
            winning > 0,
            losing * winning < winning * earned + (stakes.len() as int) * winning,
    ;
}

/// Refund totality: when a round resolves `Invalid` or `Same`, or either
/// side's pool is empty, every stake earns nothing, pays no fee, and is
/// refunded exactly its principal.
pub proof fn lemma_refund_totality(
    event_outcome: Outcome,
    up_amount: u128,
    down_amount: u128,
    order_outcome: Outcome,
    order_amount: u64,
    fee_bps: u32,
)
    requires
        event_outcome == Outcome::Invalid || event_outcome == Outcome::Same || up_amount == 0
            || down_amount == 0,
    ensures
        spec_earned(up_amount, down_amount, event_outcome, order_amount, order_outcome) == 0,
        spec_fee(0, fee_bps) == 0,
        spec_user_amount(
            event_outcome,
            up_amount,
            down_amount,
            order_outcome,
            order_amount,
            0,
            0,
        ) == order_amount,
{
    if event_outcome == order_outcome && up_amount != 0 && down_amount != 0 {
        assert(!event_outcome.is_side());
    }
    assert(0int * fee_bps == 0) by (nonlinear_arith);
}

} // verus!
