//! Structured records the transitions hand back for external observers.
//!
//! The ledger substrate addresses a round deterministically by its
//! configuration and its start time, so each record carries that pair as the
//! round identifier, together with the totals and prices the transition
//! established.

use vstd::prelude::*;

use crate::outcome::Outcome;

verus! {

/// Emitted when a round is minted.
#[derive(Clone, Copy, Debug, PartialEq, Eq, Structural)]
pub struct EventCreated {
    pub event_config: u64,
    pub authority: u64,
    pub pyth_feed: u64,
    pub price_decimals: u8,
    pub fee_bps: u32,
    pub fee_account: u64,
    pub start_time: i64,
    pub lock_time: i64,
    pub wait_period: u32,
    pub currency_mint: u64,
    pub up_amount: u128,
    pub down_amount: u128,
}

/// Emitted when the lock transition ran: the captured lock price (zero when
/// the oracle was unusable) and the final pools.
#[derive(Clone, Copy, Debug, PartialEq, Eq, Structural)]
pub struct EventLocked {
    pub event_config: u64,
    pub start_time: i64,
    pub lock_price: u64,
    pub up_amount: u128,
    pub down_amount: u128,
    pub up_count: u32,
    pub down_count: u32,
}

/// Emitted when the round's outcome was drawn, by the settle transition or
/// by the expiry fallback.
#[derive(Clone, Copy, Debug, PartialEq, Eq, Structural)]
pub struct EventSettled {
    pub event_config: u64,
    pub start_time: i64,
    pub settle_price: u64,
    pub outcome: Outcome,
}

} // verus!
