use vstd::prelude::*;

verus! {

/// How a round resolved, or `Undrawn` while it is still open.
///
/// `Invalid` and `Same` are terminal values under which every stake is
/// refunded in full: `Invalid` records an unusable oracle (missing or
/// negative price, or an expired round), `Same` a settle price equal to the
/// lock price.
#[derive(Clone, Copy, Debug, PartialEq, Eq, Structural)]
pub enum Outcome {
    Undrawn,
    Invalid,
    Up,
    Down,
    Same,
}

impl Outcome {
    /// A side a stake may be placed on: strictly `Up` or `Down`.
    pub open spec fn is_side(self) -> bool {
        self == Outcome::Up || self == Outcome::Down
    }
}

} // verus!
