//! The holding accounts and the transfer primitive.
//!
//! A [`Bank`] maps each holding account's identifier to its balance. Its one
//! mutating primitive, [`Bank::transfer`], moves value atomically between two
//! accounts and fails — changing nothing — whenever the movement is
//! impossible. The spec functions [`can_transfer`] and [`transfer_applied`]
//! say exactly when a transfer succeeds and what it does to the balances;
//! every contract over balances in this crate is phrased through them.

use std::collections::HashMap;
use vstd::prelude::*;

use crate::errors::BetError;

verus! {

/// When a transfer of `amount` from `from` to `to` can succeed: both
/// accounts exist, the source covers the amount, and the destination's
/// balance does not overflow. A transfer from an account to itself moves
/// nothing, so it cannot overflow.
pub open spec fn can_transfer(m: Map<u64, u64>, from: u64, to: u64, amount: u64) -> bool {
    &&& m.contains_key(from)
    &&& m.contains_key(to)
    &&& m[from] >= amount
    &&& (from == to || m[to] + amount <= u64::MAX)
}

/// The balances after a successful transfer of `amount` from `from` to `to`.
/// Meaningful under [`can_transfer`]; a transfer to the same account leaves
/// every balance unchanged.
pub open spec fn transfer_applied(m: Map<u64, u64>, from: u64, to: u64, amount: u64) -> Map<
    u64,
    u64,
> {
    if from == to {
        m
    } else {
        m.insert(from, (m[from] - amount) as u64).insert(to, (m[to] + amount) as u64)
    }
}

/// A successful transfer can always be compensated: the reverse transfer is
/// possible and restores every balance.
pub proof fn lemma_transfer_rollback(m: Map<u64, u64>, from: u64, to: u64, amount: u64)
    requires
        can_transfer(m, from, to, amount),
    ensures
        can_transfer(transfer_applied(m, from, to, amount), to, from, amount),
        transfer_applied(transfer_applied(m, from, to, amount), to, from, amount) == m,
{
    assert(transfer_applied(transfer_applied(m, from, to, amount), to, from, amount) =~= m);
}

/// The holding accounts: a balance for each account identifier.
pub struct Bank {
    accounts: HashMap<u64, u64>,
}

impl View for Bank {
    type V = Map<u64, u64>;

    closed spec fn view(&self) -> Map<u64, u64> {
        self.accounts@
    }
}

impl Bank {
    /// A bank with no accounts.
    pub fn new() -> (r: Bank)
        ensures
            r@ == Map::<u64, u64>::empty(),
    {
        Bank { accounts: HashMap::new() }
    }

    /// Creates an account with the given opening balance. Refused when the
    /// identifier is already taken; nothing changes then.
    pub fn open_account(&mut self, id: u64, balance: u64) -> (r: bool)
        ensures
            r == !old(self)@.contains_key(id),
            r ==> final(self)@ == old(self)@.insert(id, balance),
            !r ==> final(self)@ == old(self)@,
    {
        if self.accounts.contains_key(&id) {
            false
        } else {
            self.accounts.insert(id, balance);
            true
        }
    }

    /// The balance of the given account, or `None` when no such account
    /// exists.
    pub fn balance_of(&self, id: u64) -> (r: Option<u64>)
        ensures
            r == if self@.contains_key(id) {
                Some(self@[id])
            } else {
                None::<u64>
            },
    {
        match self.accounts.get(&id) {
            Some(b) => Some(*b),
            None => None,
        }
    }

    /// Moves `amount` from `from` to `to`. Succeeds exactly when
    /// [`can_transfer`] allows it, and then changes the balances to
    /// [`transfer_applied`]; otherwise fails with
    /// [`BetError::TransferFailure`] and changes nothing.
    pub fn transfer(&mut self, from: u64, to: u64, amount: u64) -> (r: Result<(), BetError>)
        ensures
            r is Ok <==> can_transfer(old(self)@, from, to, amount),
            r is Ok ==> final(self)@ == transfer_applied(old(self)@, from, to, amount),
            r is Err ==> final(self)@ == old(self)@ && r == Err::<(), BetError>(
                BetError::TransferFailure,
            ),
    {
        let from_balance = match self.accounts.get(&from) {
            Some(b) => *b,
            None => {
                return Err(BetError::TransferFailure);
            },
        };
        let to_balance = match self.accounts.get(&to) {
            Some(b) => *b,
            None => {
                return Err(BetError::TransferFailure);
            },
        };
        if from_balance < amount {
            return Err(BetError::TransferFailure);
        }
        if from == to {
            return Ok(());
        }
        if to_balance > u64::MAX - amount {
            return Err(BetError::TransferFailure);
        }
        self.accounts.insert(from, from_balance - amount);
        self.accounts.insert(to, to_balance + amount);
        Ok(())
    }
}

} // verus!
