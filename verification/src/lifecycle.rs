//! The lifecycle controller: the state machine that carries a round from
//! Open through Locked and Settled to the point where it may be reclaimed.
//!
//! Every transition validates its guards first and leaves all state
//! untouched on any rejection. The oracle collaborator's observation — or
//! its absence — comes in as a plain value; an unusable oracle never fails a
//! transition, it draws the terminal `Invalid` outcome so that every stake
//! keeps a refund path.

use vstd::prelude::*;

use crate::error::Error;
use crate::events::{EventCreated, EventLocked, EventSettled};
use crate::outcome::Outcome;
use crate::price::{
    get_price_with_decimal_change, pow10, spec_decimal_change, spec_normalized_price,
};
use crate::state::{
    Event, EventConfig, Order, PriceReading, Round, EVENT_CONFIG_VERSION, EVENT_VERSION,
    MAX_FEE_BPS, MAX_PRICE_DECIMALS, ORDER_VERSION,
};

verus! {

/// Creates a recurring market configuration owned by `authority`.
pub fn create_event_config(
    authority: u64,
    pyth_feed: u64,
    currency_mint: u64,
    interval_seconds: u32,
    next_event_start: i64,
) -> (c: EventConfig)
    ensures
        c == (EventConfig {
            version: EVENT_CONFIG_VERSION,
            authority,
            pyth_feed,
            currency_mint,
            interval_seconds,
            next_event_start,
        }),
{
    EventConfig {
        version: EVENT_CONFIG_VERSION,
        authority,
        pyth_feed,
        currency_mint,
        interval_seconds,
        next_event_start,
    }
}

/// The owner's explicit reconfiguration of cadence and next start.
pub fn update_event_config(
    event_config: &mut EventConfig,
    interval_seconds: u32,
    next_event_start: i64,
)
    ensures
        *final(event_config) == (EventConfig {
            interval_seconds,
            next_event_start,
            ..*old(event_config)
        }),
{
    event_config.interval_seconds = interval_seconds;
    event_config.next_event_start = next_event_start;
}

/// The oracle's decimals clamped to what a round keeps.
pub open spec fn clamped_decimals(pyth_expo: i32) -> u8 {
    if -pyth_expo > MAX_PRICE_DECIMALS {
        MAX_PRICE_DECIMALS
    } else {
        (-pyth_expo) as u8
    }
}

/// Why minting a round off `cfg` at time `now` is rejected, if it is: in
/// guard order, the fee bounds, a lock moment beyond the representable
/// range, a lock moment already in the past, and a settle/expiry deadline
/// beyond the representable range.
pub open spec fn spec_create_event_check(
    cfg: EventConfig,
    now: i64,
    fee_bps: u32,
    fee_burn_bps: u32,
) -> Option<Error> {
    let lock_time = cfg.next_event_start + cfg.interval_seconds;
    if fee_bps > MAX_FEE_BPS {
        Some(Error::InvalidFee)
    } else if fee_burn_bps > MAX_FEE_BPS {
        Some(Error::InvalidFee)
    } else if lock_time > i64::MAX {
        Some(Error::OverflowError)
    } else if lock_time < now {
        Some(Error::InvalidLockTime)
    } else if lock_time + 2 * cfg.interval_seconds > i64::MAX {
        Some(Error::OverflowError)
    } else {
        None
    }
}

/// The round a successful mint creates: parameters copied from the
/// configuration, prices and outcome still unset, and an optional symmetric
/// liquidity seed split evenly between the two sides.
pub open spec fn spec_minted_event(
    cfg: EventConfig,
    event_config_key: u64,
    fee_bps: u32,
    fee_burn_bps: u32,
    initial_liquidity: u64,
    pyth_expo: i32,
    lock_thread: u64,
    settle_thread: u64,
    fee_account: u64,
) -> Event {
    Event {
        version: EVENT_VERSION,
        event_config: event_config_key,
        lock_thread,
        settle_thread,
        fee_account,
        fee_bps,
        fee_burn_bps,
        start_time: cfg.next_event_start,
        lock_time: (cfg.next_event_start + cfg.interval_seconds) as i64,
        wait_period: cfg.interval_seconds,
        lock_price: 0,
        settle_price: 0,
        outcome: Outcome::Undrawn,
        price_decimals: clamped_decimals(pyth_expo),
        up_amount: (initial_liquidity / 2) as u128,
        down_amount: (initial_liquidity / 2) as u128,
        up_count: 0,
        down_count: 0,
        orders_settled: 0,
    }
}

/// The observer record of a successful mint.
pub open spec fn spec_created_record(cfg: EventConfig, ev: Event) -> EventCreated {
    EventCreated {
        event_config: ev.event_config,
        authority: cfg.authority,
        pyth_feed: cfg.pyth_feed,
        price_decimals: ev.price_decimals,
        fee_bps: ev.fee_bps,
        fee_account: ev.fee_account,
        start_time: ev.start_time,
        lock_time: ev.lock_time,
        wait_period: ev.wait_period,
        currency_mint: cfg.currency_mint,
        up_amount: ev.up_amount,
        down_amount: ev.down_amount,
    }
}

/// Mints the next round off `event_config` and advances the schedule by
/// exactly one interval. On success the caller must fund the seed (if any)
/// into the round's escrow and arm two triggers: the lock transition at
/// `lock_time`, the settle transition at `lock_time + wait_period`.
///
/// `event_config_key` is the substrate identity of the configuration, under
/// which the new round is addressed; `pyth_expo` is the exponent the oracle
/// currently reports, from which the round's decimals are derived.
pub fn create_event(
    event_config: &mut EventConfig,
    event_config_key: u64,
    now: i64,
    fee_bps: u32,
    fee_burn_bps: u32,
    initial_liquidity: u64,
    pyth_expo: i32,
    lock_thread: u64,
    settle_thread: u64,
    fee_account: u64,
) -> (r: Result<(Round, EventCreated), Error>)
    requires
        -255 <= pyth_expo <= 0,
    ensures
        match spec_create_event_check(*old(event_config), now, fee_bps, fee_burn_bps) {
            Some(e) => r matches Err(e2) && e2 == e && *final(event_config) == *old(event_config),
            None => ({
                let ev = spec_minted_event(
                    *old(event_config),
                    event_config_key,
                    fee_bps,
                    fee_burn_bps,
                    initial_liquidity,
                    pyth_expo,
                    lock_thread,
                    settle_thread,
                    fee_account,
                );
                &&& *final(event_config) == (EventConfig {
                    next_event_start: ev.lock_time,
                    ..*old(event_config)
                })
                &&& old(event_config).next_event_start <= final(event_config).next_event_start
                &&& r matches Ok(out) && out.0.event == ev && out.0.orders@.len() == 0
                    && out.0.wf() && out.1 == spec_created_record(*old(event_config), ev)
            }),
        },
{
    if fee_bps > MAX_FEE_BPS {
        return Err(Error::InvalidFee);
    }
    if fee_burn_bps > MAX_FEE_BPS {
        return Err(Error::InvalidFee);
    }

    let start_time = event_config.next_event_start;
    let interval = event_config.interval_seconds;
    let lock_time = match start_time.checked_add(interval as i64) {
        Some(t) => t,
        None => {
            return Err(Error::OverflowError);
        },
    };
    if lock_time < now {
        return Err(Error::InvalidLockTime);
    }
    // Keep the settle deadline and the expiry threshold representable.
    let span: i64 = 2 * (interval as i64);
    if lock_time > i64::MAX - span {
        return Err(Error::OverflowError);
    }

    let pyth_feed_decimals = (-pyth_expo) as u8;
    let price_decimals = if pyth_feed_decimals > MAX_PRICE_DECIMALS {
        MAX_PRICE_DECIMALS
    } else {
        pyth_feed_decimals
    };

    event_config.next_event_start = lock_time;

    let half_liquidity = initial_liquidity / 2;
    let event = Event {
        version: EVENT_VERSION,
        event_config: event_config_key,
        lock_thread,
        settle_thread,
        fee_account,
        fee_bps,
        fee_burn_bps,
        start_time,
        lock_time,
        wait_period: interval,
        lock_price: 0,
        settle_price: 0,
        outcome: Outcome::Undrawn,
        price_decimals,
        up_amount: half_liquidity as u128,
        down_amount: half_liquidity as u128,
        up_count: 0,
        down_count: 0,
        orders_settled: 0,
    };
    let record = EventCreated {
        event_config: event_config_key,
        authority: event_config.authority,
        pyth_feed: event_config.pyth_feed,
        price_decimals,
        fee_bps,
        fee_account,
        start_time,
        lock_time,
        wait_period: interval,
        currency_mint: event_config.currency_mint,
        up_amount: half_liquidity as u128,
        down_amount: half_liquidity as u128,
    };
    Ok((Round { event, orders: Vec::new() }, record))
}

/// Why a stake by `authority` is rejected, if it is: in guard order, an
/// already-drawn outcome, a round closed to stakes, a side other than
/// Up/Down, a zero amount, a second record for the same participant, and
/// counters or totals with no room left.
pub open spec fn spec_create_order_check(
    round: Round,
    now: i64,
    authority: u64,
    outcome: Outcome,
    amount: u64,
) -> Option<Error> {
    if round.event.outcome != Outcome::Undrawn {
        Some(Error::EventSettled)
    } else if now >= round.event.lock_time {
        Some(Error::EventLocked)
    } else if !outcome.is_side() {
        Some(Error::InvalidOutcome)
    } else if amount == 0 {
        Some(Error::InvalidAmount)
    } else if round.has_order(authority) {
        Some(Error::DuplicateRecord)
    } else if round.event.up_count + round.event.down_count == u32::MAX {
        Some(Error::OverflowError)
    } else if (if outcome == Outcome::Up {
        round.event.up_amount
    } else {
        round.event.down_amount
    }) + amount > u128::MAX {
        Some(Error::OverflowError)
    } else {
        None
    }
}

/// Places one stake: appends the participant's record and accumulates the
/// chosen side's total and count. Legal only while the round is open —
/// before the lock moment and before any outcome is drawn — so stake
/// accumulation observably precedes the lock transition.
pub fn create_order(
    round: &mut Round,
    now: i64,
    authority: u64,
    outcome: Outcome,
    amount: u64,
) -> (r: Result<(), Error>)
    requires
        old(round).wf(),
    ensures
        final(round).wf(),
        match spec_create_order_check(*old(round), now, authority, outcome, amount) {
            Some(e) => r matches Err(e2) && e2 == e && *final(round) == *old(round),
            None => ({
                &&& r matches Ok(v)
                &&& final(round).orders@ == old(round).orders@.push(
                    Order { version: ORDER_VERSION, authority, outcome, amount },
                )
                &&& final(round).event == (if outcome == Outcome::Up {
                    Event {
                        up_amount: (old(round).event.up_amount + amount) as u128,
                        up_count: (old(round).event.up_count + 1) as u32,
                        ..old(round).event
                    }
                } else {
                    Event {
                        down_amount: (old(round).event.down_amount + amount) as u128,
                        down_count: (old(round).event.down_count + 1) as u32,
                        ..old(round).event
                    }
                })
            }),
        },
{
    if round.event.outcome != Outcome::Undrawn {
        return Err(Error::EventSettled);
    }
    if now >= round.event.lock_time {
        return Err(Error::EventLocked);
    }
    let is_up = outcome == Outcome::Up;
    if !is_up && !(outcome == Outcome::Down) {
        return Err(Error::InvalidOutcome);
    }
    if amount == 0 {
        return Err(Error::InvalidAmount);
    }
    match round.find_order(authority) {
        Some(_) => {
            return Err(Error::DuplicateRecord);
        },
        None => {},
    }
    let count_sum = round.event.up_count as u64 + round.event.down_count as u64;
    if count_sum >= u32::MAX as u64 {
        return Err(Error::OverflowError);
    }

    if is_up {
        let new_total = match round.event.up_amount.checked_add(amount as u128) {
            Some(v) => v,
            None => {
                return Err(Error::OverflowError);
            },
        };
        round.event.up_amount = new_total;
        round.event.up_count = round.event.up_count + 1;
    } else {
        let new_total = match round.event.down_amount.checked_add(amount as u128) {
            Some(v) => v,
            None => {
                return Err(Error::OverflowError);
            },
        };
        round.event.down_amount = new_total;
        round.event.down_count = round.event.down_count + 1;
    }
    let ghost before = round.orders@;
    round.orders.push(Order { version: ORDER_VERSION, authority, outcome, amount });
    proof {
        let s = round.orders@;
        assert forall|i: int, j: int|
            0 <= i < j < s.len() implies s[i].authority != s[j].authority by {
            if j == s.len() - 1 {
                assert(s[i] == before[i]);
            }
        }
    }
    Ok(())
}

/// Why the lock transition is rejected, if it is: an already-drawn outcome,
/// an already-captured lock price, or a lock moment not reached yet.
pub open spec fn spec_lock_check(ev: Event, now: i64) -> Option<Error> {
    if ev.outcome != Outcome::Undrawn {
        Some(Error::EventSettled)
    } else if ev.lock_price != 0 {
        Some(Error::LockPriceSet)
    } else if ev.lock_time > now {
        Some(Error::EventNotLocked)
    } else {
        None
    }
}

/// The observer record of a completed lock transition over the final event.
pub open spec fn spec_locked_record(ev: Event) -> EventLocked {
    EventLocked {
        event_config: ev.event_config,
        start_time: ev.start_time,
        lock_price: ev.lock_price,
        up_amount: ev.up_amount,
        down_amount: ev.down_amount,
        up_count: ev.up_count,
        down_count: ev.down_count,
    }
}

/// The lock transition: captures the oracle price as the round's reference
/// price, write-once. A missing or negative observation draws the terminal
/// `Invalid` outcome instead, so the stakes keep their refund path.
///
/// The caller reads the oracle with the bounded staleness rule and hands in
/// what it observed, or `None`.
pub fn set_lock_price(round: &mut Round, now: i64, reading: Option<PriceReading>) -> (r: Result<
    EventLocked,
    Error,
>)
    requires
        old(round).wf(),
        match reading {
            Some(p) => p.price >= 0 ==> -255 <= p.expo <= 0,
            None => true,
        },
    ensures
        final(round).wf(),
        match spec_lock_check(old(round).event, now) {
            Some(e) => r matches Err(e2) && e2 == e && *final(round) == *old(round),
            None => match reading {
                None => r matches Ok(rec) && rec == spec_locked_record(final(round).event)
                    && *final(round) == (Round {
                    event: (Event { outcome: Outcome::Invalid, ..old(round).event }),
                    ..*old(round)
                }),
                Some(p) => {
                    if p.price < 0 {
                        r matches Ok(rec) && rec == spec_locked_record(final(round).event)
                            && *final(round) == (Round {
                            event: (Event { outcome: Outcome::Invalid, ..old(round).event }),
                            ..*old(round)
                        })
                    } else if pow10(spec_decimal_change(p.expo, old(round).event.price_decimals))
                        <= u128::MAX {
                        r matches Ok(rec) && rec == spec_locked_record(final(round).event)
                            && *final(round) == (Round {
                            event: (Event {
                                lock_price: spec_normalized_price(
                                    p.price,
                                    p.expo,
                                    old(round).event.price_decimals,
                                ) as u64,
                                ..old(round).event
                            }),
                            ..*old(round)
                        })
                    } else {
                        r matches Err(e) && e == Error::OverflowError && *final(round) == *old(
                            round,
                        )
                    }
                },
            },
        },
{
    if round.event.outcome != Outcome::Undrawn {
        return Err(Error::EventSettled);
    }
    if round.event.lock_price != 0 {
        return Err(Error::LockPriceSet);
    }
    if round.event.lock_time > now {
        return Err(Error::EventNotLocked);
    }

    match reading {
        Some(p) => {
            if p.price < 0 {
                round.event.outcome = Outcome::Invalid;
            } else {
                let price = match get_price_with_decimal_change(
                    p.price,
                    p.expo,
                    round.event.price_decimals,
                ) {
                    Ok(v) => v,
                    Err(e) => {
                        return Err(e);
                    },
                };
                round.event.lock_price = price;
            }
        },
        None => {
            round.event.outcome = Outcome::Invalid;
        },
    }

    Ok(EventLocked {
        event_config: round.event.event_config,
        start_time: round.event.start_time,
        lock_price: round.event.lock_price,
        up_amount: round.event.up_amount,
        down_amount: round.event.down_amount,
        up_count: round.event.up_count,
        down_count: round.event.down_count,
    })
}

/// Why the settle transition is rejected, if it is: an already-drawn
/// outcome, a reference price that was never captured — so the lock
/// transition observably precedes the settle transition — or a waiting
/// period still running.
pub open spec fn spec_settle_check(ev: Event, now: i64) -> Option<Error> {
    if ev.outcome != Outcome::Undrawn {
        Some(Error::EventSettled)
    } else if ev.lock_price == 0 {
        Some(Error::LockPriceNotSet)
    } else if now < ev.lock_time + ev.wait_period {
        Some(Error::EventInWaitingPeriod)
    } else {
        None
    }
}

/// How a round resolves from its two captured prices.
pub open spec fn spec_derived_outcome(settle_price: u64, lock_price: u64) -> Outcome {
    if settle_price == lock_price {
        Outcome::Same
    } else if settle_price > lock_price {
        Outcome::Up
    } else {
        Outcome::Down
    }
}

/// The observer record of a drawn outcome over the final event.
pub open spec fn spec_settled_record(ev: Event) -> EventSettled {
    EventSettled {
        event_config: ev.event_config,
        start_time: ev.start_time,
        settle_price: ev.settle_price,
        outcome: ev.outcome,
    }
}

/// The settle transition: captures the oracle price once the waiting period
/// has passed, and draws the outcome by comparing it with the reference
/// price — `Same` on equality, `Up` above, `Down` below. A missing or
/// negative observation draws `Invalid` instead.
pub fn settle_event(round: &mut Round, now: i64, reading: Option<PriceReading>) -> (r: Result<
    EventSettled,
    Error,
>)
    requires
        old(round).wf(),
        match reading {
            Some(p) => p.price >= 0 ==> -255 <= p.expo <= 0,
            None => true,
        },
    ensures
        final(round).wf(),
        match spec_settle_check(old(round).event, now) {
            Some(e) => r matches Err(e2) && e2 == e && *final(round) == *old(round),
            None => match reading {
                None => r matches Ok(rec) && rec == spec_settled_record(final(round).event)
                    && *final(round) == (Round {
                    event: (Event { outcome: Outcome::Invalid, ..old(round).event }),
                    ..*old(round)
                }),
                Some(p) => {
                    if p.price < 0 {
                        r matches Ok(rec) && rec == spec_settled_record(final(round).event)
                            && *final(round) == (Round {
                            event: (Event { outcome: Outcome::Invalid, ..old(round).event }),
                            ..*old(round)
                        })
                    } else if pow10(spec_decimal_change(p.expo, old(round).event.price_decimals))
                        <= u128::MAX {
                        ({
                            let v = spec_normalized_price(
                                p.price,
                                p.expo,
                                old(round).event.price_decimals,
                            ) as u64;
                            r matches Ok(rec) && rec == spec_settled_record(final(round).event)
                                && *final(round) == (Round {
                                event: (Event {
                                    settle_price: v,
                                    outcome: spec_derived_outcome(v, old(round).event.lock_price),
                                    ..old(round).event
                                }),
                                ..*old(round)
                            })
                        })
                    } else {
                        r matches Err(e) && e == Error::OverflowError && *final(round) == *old(
                            round,
                        )
                    }
                },
            },
        },
{
    if round.event.outcome != Outcome::Undrawn {
        return Err(Error::EventSettled);
    }
    if round.event.lock_price == 0 {
        return Err(Error::LockPriceNotSet);
    }
    if now < round.event.lock_time + round.event.wait_period as i64 {
        return Err(Error::EventInWaitingPeriod);
    }

    match reading {
        Some(p) => {
            if p.price < 0 {
                round.event.outcome = Outcome::Invalid;
            } else {
                let price = match get_price_with_decimal_change(
                    p.price,
                    p.expo,
                    round.event.price_decimals,
                ) {
                    Ok(v) => v,
                    Err(e) => {
                        return Err(e);
                    },
                };
                round.event.settle_price = price;
                round.event.outcome = if price == round.event.lock_price {
                    Outcome::Same
                } else if price > round.event.lock_price {
                    Outcome::Up
                } else {
                    Outcome::Down
                };
            }
        },
        None => {
            round.event.outcome = Outcome::Invalid;
        },
    }

    Ok(EventSettled {
        event_config: round.event.event_config,
        start_time: round.event.start_time,
        settle_price: round.event.settle_price,
        outcome: round.event.outcome,
    })
}

/// Why the expiry fallback is rejected, if it is: the outcome is already
/// drawn, or the expiry threshold — a full second waiting period past the
/// settle moment — has not passed yet.
pub open spec fn spec_expire_check(ev: Event, now: i64) -> Option<Error> {
    if ev.outcome != Outcome::Undrawn {
        Some(Error::EventSettled)
    } else if now < ev.lock_time + 2 * ev.wait_period {
        Some(Error::EventNotExpired)
    } else {
        None
    }
}

/// The fallback that unblocks a stuck round whose autonomous triggers never
/// fired: anyone may draw the terminal `Invalid` outcome once the expiry
/// threshold passes, after which every stake refunds.
pub fn settle_expired_event(round: &mut Round, now: i64) -> (r: Result<EventSettled, Error>)
    requires
        old(round).wf(),
    ensures
        final(round).wf(),
        match spec_expire_check(old(round).event, now) {
            Some(e) => r matches Err(e2) && e2 == e && *final(round) == *old(round),
            None => r matches Ok(rec) && rec == spec_settled_record(final(round).event)
                && *final(round) == (Round {
                event: (Event { outcome: Outcome::Invalid, ..old(round).event }),
                ..*old(round)
            }),
        },
{
    if round.event.outcome != Outcome::Undrawn {
        return Err(Error::EventSettled);
    }
    // Expired once a full second waiting period has passed beyond the settle
    // moment.
    if now < round.event.lock_time + 2 * (round.event.wait_period as i64) {
        return Err(Error::EventNotExpired);
    }

    round.event.outcome = Outcome::Invalid;

    Ok(EventSettled {
        event_config: round.event.event_config,
        start_time: round.event.start_time,
        settle_price: round.event.settle_price,
        outcome: round.event.outcome,
    })
}

/// Whether the round may release its escrow and be reclaimed: its outcome
/// is drawn, the settle moment has passed, and — for `Ok(true)` — every
/// stake record has been retired, so no live claim remains.
pub fn close_accounts(round: &Round, now: i64) -> (r: Result<bool, Error>)
    requires
        round.wf(),
    ensures
        (round.event.outcome == Outcome::Undrawn || round.event.lock_time
            + round.event.wait_period > now) ==> (r matches Err(e) && e == Error::EventNotSettled),
        (round.event.outcome != Outcome::Undrawn && round.event.lock_time
            + round.event.wait_period <= now) ==> (r matches Ok(done) && (done
            <==> round.event.orders_settled == round.event.up_count + round.event.down_count)),
        (r matches Ok(done) && done) ==> round.orders@.len() == 0,
{
    if round.event.outcome == Outcome::Undrawn {
        return Err(Error::EventNotSettled);
    }
    if round.event.lock_time + round.event.wait_period as i64 > now {
        return Err(Error::EventNotSettled);
    }
    Ok(round.event.up_count + round.event.down_count == round.event.orders_settled)
}

} // verus!
