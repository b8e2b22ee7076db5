//! The error kinds that opening and settling a wager can surface.

use vstd::prelude::*;

verus! {

/// Why an operation on a wager was refused.
#[derive(Clone, Copy, Debug, PartialEq, Eq, Structural)]
pub enum BetError {
    /// The two participants are not distinct from each other or from the
    /// escrow holding account.
    InvalidParticipants,
    /// The stake is zero: the wager would carry no economic meaning.
    ZeroStake,
    /// An underlying fund movement is impossible: a holding account is
    /// missing, a source balance is insufficient, or a destination balance
    /// would overflow.
    TransferFailure,
    /// A wager record cannot be created or destroyed: the identity is
    /// already taken, or no record exists under it.
    AllocationFailure,
}

} // verus!
