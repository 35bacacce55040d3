//! The payout dispatcher: settles one stake record against a resolved
//! round.
//!
//! The dispatcher computes the settlement amounts, retires the record by
//! removing it, and counts the retirement. It moves no funds itself: the
//! returned `Payout` tells the transfer collaborator what to move to the
//! participant, what to move to the fee account, and what to destroy.
//! Because a settled record no longer exists, a second settlement of the
//! same record fails with `ResourceNotFound` — idempotence rests on
//! absence, not on memory of past settlements.

use vstd::prelude::*;

use crate::error::Error;
use crate::outcome::Outcome;
use crate::settlement::{
    earned_overflows, get_amount_to_user, get_bps_amount, get_earned_amount, spec_earned,
    spec_fee, spec_user_amount, user_amount_overflows,
};
use crate::state::{Event, Order, Round, MAX_FEE_BPS};

verus! {

/// What a settlement moves out of the pool's escrow.
#[derive(Clone, Copy, Debug, PartialEq, Eq, Structural)]
pub struct Payout {
    /// To the record's participant.
    pub to_user: u64,
    /// To the round's fee account: the fee net of the burned portion.
    pub to_fee_account: u64,
    /// Destroyed rather than transferred.
    pub burned: u64,
}

/// The fee taken on `ord`'s earnings under `ev`, assuming the earnings fit.
pub open spec fn spec_order_fee(ev: Event, ord: Order) -> int {
    spec_fee(spec_earned(ev.up_amount, ev.down_amount, ev.outcome, ord.amount, ord.outcome),
        ev.fee_bps)
}

/// The burned portion of that fee: a sub-fraction of the fee, not of the
/// pool, and only when there is a fee to burn from.
pub open spec fn spec_order_burn(ev: Event, ord: Order) -> int {
    let f = spec_order_fee(ev, ord);
    if f > 0 && ev.fee_burn_bps > 0 {
        spec_fee(f, ev.fee_burn_bps)
    } else {
        0
    }
}

/// When settling `ord` under `ev` must be rejected: the widened earnings or
/// the winner's total no longer fit their narrow domains.
pub open spec fn spec_settle_overflows(ev: Event, ord: Order) -> bool {
    ||| earned_overflows(ev.up_amount, ev.down_amount, ev.outcome, ord.amount, ord.outcome)
    ||| user_amount_overflows(
        ev.outcome,
        ev.up_amount,
        ev.down_amount,
        ord.outcome,
        ord.amount,
        spec_earned(ev.up_amount, ev.down_amount, ev.outcome, ord.amount, ord.outcome) as u64,
        spec_order_fee(ev, ord) as u64,
    )
}

/// The payout a successful settlement of `ord` under `ev` hands back.
pub open spec fn spec_payout(ev: Event, ord: Order) -> Payout {
    let e = spec_earned(ev.up_amount, ev.down_amount, ev.outcome, ord.amount, ord.outcome);
    let f = spec_order_fee(ev, ord);
    let b = spec_order_burn(ev, ord);
    Payout {
        to_user: spec_user_amount(
            ev.outcome,
            ev.up_amount,
            ev.down_amount,
            ord.outcome,
            ord.amount,
            e,
            f,
        ) as u64,
        to_fee_account: (f - b) as u64,
        burned: b as u64,
    }
}

/// Settles `authority`'s stake record against the resolved round: computes
/// the settlement amounts, retires the record, and counts the retirement.
///
/// Legal only once the outcome is drawn, and once per record: after a
/// successful settlement the record is gone, so invoking this again for the
/// same participant fails with `ResourceNotFound` and changes nothing.
pub fn settle_order(round: &mut Round, authority: u64) -> (r: Result<Payout, Error>)
    requires
        old(round).wf(),
    ensures
        final(round).wf(),
        old(round).event.outcome == Outcome::Undrawn ==> (r matches Err(e) && e
            == Error::EventNotSettled && *final(round) == *old(round)),
        old(round).event.outcome != Outcome::Undrawn && !old(round).has_order(authority) ==> (
        r matches Err(e) && e == Error::ResourceNotFound && *final(round) == *old(round)),
        old(round).event.outcome != Outcome::Undrawn && old(round).has_order(authority) ==> ({
            let i = old(round).order_index(authority);
            let ord = old(round).orders@[i];
            if spec_settle_overflows(old(round).event, ord) {
                r matches Err(e) && e == Error::OverflowError && *final(round) == *old(round)
            } else {
                &&& r matches Ok(p) && p == spec_payout(old(round).event, ord)
                &&& final(round).orders@ == old(round).orders@.remove(i)
                &&& final(round).event == (Event {
                    orders_settled: (old(round).event.orders_settled + 1) as u32,
                    ..old(round).event
                })
            }
        }),
        r matches Ok(p) ==> !final(round).has_order(authority),
{
    if round.event.outcome == Outcome::Undrawn {
        return Err(Error::EventNotSettled);
    }
    let idx = match round.find_order(authority) {
        Some(i) => i,
        None => {
            return Err(Error::ResourceNotFound);
        },
    };
    let order = round.orders[idx];

    let earned_amount = get_earned_amount(
        round.event.up_amount,
        round.event.down_amount,
        round.event.outcome,
        order.amount,
        order.outcome,
    )?;

    // Only take fees on earned amounts; the fee never exceeds what it is
    // levied on, because the rate is at most the whole amount.
    assert(spec_fee(earned_amount as int, round.event.fee_bps) <= earned_amount)
        by (nonlinear_arith)
        requires
            round.event.fee_bps <= MAX_FEE_BPS,
            earned_amount >= 0,
    ;
    let mut fee = get_bps_amount(earned_amount, round.event.fee_bps)?;

    let amount_to_user = get_amount_to_user(
        round.event.outcome,
        round.event.up_amount,
        round.event.down_amount,
        order.outcome,
        order.amount,
        earned_amount,
        fee,
    )?;

    let mut burned: u64 = 0;
    if fee > 0 && round.event.fee_burn_bps > 0 {
        assert(spec_fee(fee as int, round.event.fee_burn_bps) <= fee) by (nonlinear_arith)
            requires
                round.event.fee_burn_bps <= MAX_FEE_BPS,
                fee >= 0,
        ;
        burned = get_bps_amount(fee, round.event.fee_burn_bps)?;
        fee = fee - burned;
    }

    let ghost before = round.orders@;
    round.orders.remove(idx);
    round.event.orders_settled = round.event.orders_settled + 1;
    proof {
        let s = round.orders@;
        assert forall|i: int, j: int|
            0 <= i < j < s.len() implies s[i].authority != s[j].authority by {
            let i0 = if i < idx {
                i
            } else {
                i + 1
            };
            let j0 = if j < idx {
                j
            } else {
                j + 1
            };
            assert(s[i] == before[i0] && s[j] == before[j0]);
        }
        assert forall|i: int| 0 <= i < s.len() implies s[i].wf() by {
            let i0 = if i < idx {
                i
            } else {
                i + 1
            };
            assert(s[i] == before[i0]);
        }
        assert(!round.has_order(authority)) by {
            if round.has_order(authority) {
                let w = choose|i: int|
                    0 <= i < s.len() && s[i].authority == authority;
                let w0 = if w < idx {
                    w
                } else {
                    w + 1
                };
                assert(s[w] == before[w0]);
                if w0 < idx {
                    assert(before[w0].authority != before[idx as int].authority);
                } else {
                    assert(before[idx as int].authority != before[w0].authority);
                }
            }
        }
    }
    Ok(Payout { to_user: amount_to_user, to_fee_account: fee, burned })
}

} // verus!
