use vstd::prelude::*;

use crate::outcome::Outcome;

verus! {

/// Schema version written into every persisted record.
pub const EVENT_CONFIG_VERSION: u8 = 1;

/// Schema version written into every persisted round.
pub const EVENT_VERSION: u8 = 1;

/// Schema version written into every persisted stake record.
pub const ORDER_VERSION: u8 = 1;

/// Largest number of price decimals a round will keep when it normalizes an
/// oracle price.
pub const MAX_PRICE_DECIMALS: u8 = 4;

/// Highest admissible fee rate: the whole amount, in basis points.
pub const MAX_FEE_BPS: u32 = 10000;

/// One oracle observation, as the oracle collaborator hands it in: a signed
/// price mantissa and its power-of-ten exponent.
#[derive(Clone, Copy, Debug, PartialEq, Eq, Structural)]
pub struct PriceReading {
    pub price: i64,
    pub expo: i32,
}

/// The recurring template that mints successive rounds on a fixed cadence.
///
/// External collaborators (the ledger substrate, the oracle, the currency)
/// are carried as opaque numeric identities: the library never looks inside
/// them, it only copies them into the rounds it mints.
#[derive(Clone, Copy, Debug, PartialEq, Eq, Structural)]
pub struct EventConfig {
    pub version: u8,
    /// Owner of the configuration; the only party allowed to reconfigure it.
    pub authority: u64,
    /// Identity of the oracle price feed rounds will read.
    pub pyth_feed: u64,
    /// Identity of the currency every stake of these rounds is held in.
    pub currency_mint: u64,
    /// Seconds between a round's start, its lock and its settle moment.
    pub interval_seconds: u32,
    /// Unix timestamp at which the next minted round starts.
    pub next_event_start: i64,
}

/// One round of the market: the append-only stake ledger between its Open,
/// Locked, Settled and Reclaimed moments.
#[derive(Clone, Copy, Debug, PartialEq, Eq, Structural)]
pub struct Event {
    pub version: u8,
    /// The configuration this round was minted from.
    pub event_config: u64,
    /// Identity of the armed trigger that will invoke the lock transition.
    pub lock_thread: u64,
    /// Identity of the armed trigger that will invoke the settle transition.
    pub settle_thread: u64,
    /// Identity of the account that receives the (unburned) fees.
    pub fee_account: u64,
    /// Fee rate in basis points, levied on earnings only.
    pub fee_bps: u32,
    /// Fraction of the fee, in basis points, destroyed instead of paid out.
    pub fee_burn_bps: u32,
    /// Timestamp at which the round opens to stakes.
    pub start_time: i64,
    /// Timestamp at which the round closes to stakes and the lock price is
    /// captured.
    pub lock_time: i64,
    /// Seconds between the lock moment and the settle moment.
    pub wait_period: u32,
    /// Oracle price captured at the lock moment; zero until then.
    pub lock_price: u64,
    /// Oracle price captured at the settle moment; zero until then.
    pub settle_price: u64,
    /// How the round resolved; `Undrawn` until the settle transition (or the
    /// expiry fallback) draws it, exactly once.
    pub outcome: Outcome,
    /// Number of decimals oracle prices are truncated to.
    pub price_decimals: u8,
    /// Total staked on Up, widened so that sums of many stakes cannot wrap.
    pub up_amount: u128,
    /// Total staked on Down.
    pub down_amount: u128,
    /// Number of stake records on Up.
    pub up_count: u32,
    /// Number of stake records on Down.
    pub down_count: u32,
    /// Number of stake records already retired by a settlement. The round
    /// may be reclaimed once this equals `up_count + down_count`.
    pub orders_settled: u32,
}

impl Event {
    /// Internal consistency of one round.
    ///
    /// The timing bound keeps every deadline the transitions compute
    /// (`lock_time + wait_period` and `lock_time + 2 * wait_period`)
    /// representable.
    pub open spec fn wf(self) -> bool {
        &&& self.fee_bps <= MAX_FEE_BPS
        &&& self.fee_burn_bps <= MAX_FEE_BPS
        &&& self.price_decimals <= MAX_PRICE_DECIMALS
        &&& self.lock_time + 2 * (self.wait_period as int) <= i64::MAX
        &&& (self.outcome == Outcome::Undrawn ==> self.settle_price == 0)
        &&& (self.settle_price != 0 ==> self.lock_price != 0)
    }
}

/// One participant's single stake on one side of one round.
#[derive(Clone, Copy, Debug, PartialEq, Eq, Structural)]
pub struct Order {
    pub version: u8,
    /// The participant: owner and sole beneficiary of this record.
    pub authority: u64,
    /// The side staked on: `Up` or `Down`, fixed at creation.
    pub outcome: Outcome,
    /// The staked value; always positive.
    pub amount: u64,
}

impl Order {
    pub open spec fn wf(self) -> bool {
        &&& self.outcome.is_side()
        &&& self.amount > 0
    }
}

/// A round together with its live stake records: the unit the lifecycle
/// transitions and the payout dispatch operate on.
///
/// A record is retired by removing it from `orders`, so a retired record can
/// never be settled again — idempotence rests on absence, not on a flag.
#[derive(Debug)]
pub struct Round {
    pub event: Event,
    pub orders: Vec<Order>,
}

impl Round {
    /// Whether some live record belongs to `authority`.
    pub open spec fn has_order(self, authority: u64) -> bool {
        exists|i: int| 0 <= i < self.orders@.len() && self.orders@[i].authority == authority
    }

    /// The index of `authority`'s live record.
    pub open spec fn order_index(self, authority: u64) -> int {
        choose|i: int| 0 <= i < self.orders@.len() && self.orders@[i].authority == authority
    }

    /// Internal consistency of a round and its records: every record is
    /// well formed, no participant holds two, and the counters account for
    /// exactly the live and the retired records.
    pub open spec fn wf(self) -> bool {
        &&& self.event.wf()
        &&& (forall|i: int| 0 <= i < self.orders@.len() ==> self.orders@[i].wf())
        &&& (forall|i: int, j: int|
            0 <= i < j < self.orders@.len()
                ==> self.orders@[i].authority != self.orders@[j].authority)
        &&& self.orders@.len() + self.event.orders_settled
            == self.event.up_count + self.event.down_count
        &&& self.event.up_count + self.event.down_count <= u32::MAX
    }

    /// The position of `authority`'s live record, if any.
    pub fn find_order(&self, authority: u64) -> (r: Option<usize>)
        ensures
            match r {
                Some(i) => {
                    &&& self.has_order(authority)
                    &&& i < self.orders@.len()
                    &&& self.orders@[i as int].authority == authority
                    &&& (self.wf() ==> i == self.order_index(authority))
                },
                None => !self.has_order(authority),
            },
    {
        let n = self.orders.len();
        let mut i: usize = 0;
        while i < n
            invariant
                i <= n,
                n == self.orders@.len(),
                forall|j: int| 0 <= j < i ==> self.orders@[j].authority != authority,
            decreases n - i,
        {
            if self.orders[i].authority == authority {
                proof {
                    assert(self.has_order(authority));
                    if self.wf() {
                        let c = self.order_index(authority);
                        if c < i {
                            assert(self.orders@[c].authority != self.orders@[i as int].authority);
                        } else if c > i {
                            assert(self.orders@[i as int].authority != self.orders@[c].authority);
                        }
                    }
                }
                return Some(i);
            }
            i = i + 1;
        }
        None
    }
}

} // verus!
