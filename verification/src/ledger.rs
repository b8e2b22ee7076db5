//! The record store for open wagers.
//!
//! A [`BetLedger`] holds one [`Bet`] record per wager identity and is the
//! source of truth for who staked what. Records are allocated when a wager
//! opens and destroyed when it settles; an identity can hold at most one
//! record, so a wager can never be settled twice. Every stored record is
//! well-formed ([`BetLedger::wf`]).

use std::collections::HashMap;
use vstd::prelude::*;

use crate::bet::Bet;
use crate::errors::BetError;

verus! {

/// The wager records, by wager identity.
pub struct BetLedger {
    bets: HashMap<u64, Bet>,
}

impl View for BetLedger {
    type V = Map<u64, Bet>;

    closed spec fn view(&self) -> Map<u64, Bet> {
        self.bets@
    }
}

impl BetLedger {
    /// Every stored wager record is well-formed.
    pub open spec fn wf(self) -> bool {
        forall|id: u64| #[trigger] self@.contains_key(id) ==> self@[id].valid()
    }

    /// A ledger with no records.
    pub fn new() -> (r: BetLedger)
        ensures
            r@ == Map::<u64, Bet>::empty(),
            r.wf(),
    {
        BetLedger { bets: HashMap::new() }
    }

    /// Allocates a record for a new wager. Fails with
    /// [`BetError::AllocationFailure`] — changing nothing — when the
    /// identity already holds a record.
    pub fn allocate(&mut self, bet_id: u64, bet: Bet) -> (r: Result<(), BetError>)
        requires
            old(self).wf(),
            bet.valid(),
        ensures
            final(self).wf(),
            r is Ok <==> !old(self)@.contains_key(bet_id),
            r is Ok ==> final(self)@ == old(self)@.insert(bet_id, bet),
            r is Err ==> final(self)@ == old(self)@ && r == Err::<(), BetError>(
                BetError::AllocationFailure,
            ),
    {
        if self.bets.contains_key(&bet_id) {
            Err(BetError::AllocationFailure)
        } else {
            self.bets.insert(bet_id, bet);
            proof {
                assert forall|id: u64| #[trigger] self@.contains_key(id) implies
                    self@[id].valid() by {
                    if id != bet_id {
                        assert(old(self)@.contains_key(id));
                    }
                }
            }
            Ok(())
        }
    }

    /// The record stored under the given wager identity, or `None` when the
    /// wager does not exist (never opened, or already settled and destroyed).
    pub fn lookup(&self, bet_id: u64) -> (r: Option<Bet>)
        ensures
            r == if self@.contains_key(bet_id) {
                Some(self@[bet_id])
            } else {
                None::<Bet>
            },
    {
        match self.bets.get(&bet_id) {
            Some(b) => Some(*b),
            None => None,
        }
    }

    /// Destroys the record under the given wager identity. Fails with
    /// [`BetError::AllocationFailure`] — changing nothing — when no such
    /// record exists.
    pub fn destroy(&mut self, bet_id: u64) -> (r: Result<(), BetError>)
        requires
            old(self).wf(),
        ensures
            final(self).wf(),
            r is Ok <==> old(self)@.contains_key(bet_id),
            r is Ok ==> final(self)@ == old(self)@.remove(bet_id),
            r is Err ==> final(self)@ == old(self)@ && r == Err::<(), BetError>(
                BetError::AllocationFailure,
            ),
    {
        match self.bets.remove(&bet_id) {
            Some(_) => {
                proof {
                    assert forall|id: u64| #[trigger] self@.contains_key(id) implies
                        self@[id].valid() by {
                        assert(old(self)@.contains_key(id));
                    }
                }
                Ok(())
            },
            None => {
                proof {
                    assert(self@ =~= old(self)@);
                }
                Err(BetError::AllocationFailure)
            },
        }
    }
}

} // verus!
