use vstd::prelude::*;

verus! {

/// Everything a transition can be rejected with. A failed call leaves all
/// state exactly as it was.
#[derive(Clone, Copy, Debug, PartialEq, Eq, Structural)]
pub enum Error {
    /// The round's outcome is already drawn, so the attempted transition or
    /// stake is no longer legal.
    EventSettled,
    /// The round's outcome is not drawn yet, so settlement work cannot start.
    EventNotSettled,
    /// A stake names a side other than `Up` or `Down`.
    InvalidOutcome,
    /// Value-bearing arithmetic would have wrapped.
    OverflowError,
    /// The derived lock moment lies in the past.
    InvalidLockTime,
    /// The round is closed to new stakes.
    EventLocked,
    /// The lock moment has not been reached yet.
    EventNotLocked,
    /// The lock price is already captured.
    LockPriceSet,
    /// The lock price was never captured, so the round cannot settle.
    LockPriceNotSet,
    /// The settle moment has not been reached yet.
    EventInWaitingPeriod,
    /// The expiry fallback was invoked before the expiry threshold.
    EventNotExpired,
    /// A fee rate lies outside [0, 10000] basis points.
    InvalidFee,
    /// A stake of zero value.
    InvalidAmount,
    /// The participant already holds a stake record in this round.
    DuplicateRecord,
    /// The referenced stake record does not exist (it was never created, or
    /// it was already retired by a settlement).
    ResourceNotFound,
}

} // verus!
