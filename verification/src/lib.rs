//! A pari-mutuel binary-outcome wagering market driven by an external price
//! oracle. Participants stake on "Up" or "Down" relative to a reference price
//! captured at a lock moment; after a waiting period the pool is split among
//! the winners in proportion to their stakes, net of fees and an optional
//! fee burn.
//!
//! The library holds the verified core: the round lifecycle state machine,
//! the settlement arithmetic, and the per-record payout dispatch. The ledger
//! substrate, fund transfers, the oracle transport and the autonomous
//! triggers are external collaborators; they hand plain values in and take
//! plain values back.

pub mod dispatch;
pub mod error;
pub mod events;
pub mod lifecycle;
pub mod outcome;
pub mod price;
pub mod settlement;
pub mod state;
