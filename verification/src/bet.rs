//! The wager record: who is betting, and how much.

use vstd::prelude::*;

verus! {

/// One two-party wager. Both participants contribute exactly `amount`, so
/// the pooled value escrowed for the wager is `2 * amount`.
#[derive(Clone, Copy, Debug, PartialEq, Eq, Structural)]
pub struct Bet {
    /// The first staking party.
    pub player1: u64,
    /// The second staking party.
    pub player2: u64,
    /// The stake each party contributes, in the smallest transferable unit.
    pub amount: u64,
}

impl Bet {
    /// A well-formed wager: distinct participants, a non-zero stake, and a
    /// pooled value that a holding account can represent.
    pub open spec fn valid(self) -> bool {
        &&& self.player1 != self.player2
        &&& self.amount > 0
        &&& 2 * self.amount <= u64::MAX
    }
}

} // verus!
