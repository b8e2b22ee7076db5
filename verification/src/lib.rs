//! A verified ledger for two-party wagers.
//!
//! Two participants escrow equal stakes; settlement later pays the pooled
//! stake to a winner minus a fixed ten-percent commission, then destroys the
//! wager record. The modules here model the holding accounts, the wager
//! records, and the settlement arithmetic; [`place_bet`] and [`settle_bet`]
//! are the two operations a host exposes, and their contracts pin down every
//! balance movement, every error, and the wager's one-way lifecycle.

use vstd::prelude::*;

pub mod bank;
pub mod bet;
pub mod errors;
pub mod ledger;
pub mod settlement;

verus! {

use crate::bank::{can_transfer, transfer_applied, lemma_transfer_rollback, Bank};
use crate::bet::Bet;
use crate::errors::BetError;
use crate::ledger::BetLedger;
use crate::settlement::{commission_share, compute_split, winner_share};

/// The holding accounts and record identity one [`place_bet`] call speaks
/// of: the two staking parties, the escrow account that holds the pooled
/// stake, and the identity under which the wager record is allocated.
#[derive(Clone, Copy, Debug, PartialEq, Eq, Structural)]
pub struct PlaceBet {
    /// The first staking party.
    pub player1: u64,
    /// The second staking party.
    pub player2: u64,
    /// The account that holds the pooled stake until settlement.
    pub escrow: u64,
    /// The identity of the wager record to allocate.
    pub bet: u64,
}

/// The holding accounts and record identity one [`settle_bet`] call speaks
/// of: the winner, the commission sink, the escrow account that funds both
/// payouts, and the identity of the wager record to settle.
#[derive(Clone, Copy, Debug, PartialEq, Eq, Structural)]
pub struct SettleBet {
    /// The party the pooled stake is paid out to, minus the commission.
    pub winner: u64,
    /// The account that receives the commission.
    pub commission: u64,
    /// The account the pooled stake is paid out of.
    pub escrow: u64,
    /// The identity of the wager record to settle and destroy.
    pub bet: u64,
}

/// The roles a [`place_bet`] call names are distinct: two different
/// participants, neither of them the escrow account.
pub open spec fn place_bet_roles_ok(accounts: PlaceBet) -> bool {
    &&& accounts.player1 != accounts.player2
    &&& accounts.player1 != accounts.escrow
    &&& accounts.player2 != accounts.escrow
}

/// Both escrow transfers of an open — first participant first, then the
/// second — can succeed in order.
pub open spec fn place_bet_funded(bank0: Map<u64, u64>, accounts: PlaceBet, amount: u64) -> bool {
    &&& can_transfer(bank0, accounts.player1, accounts.escrow, amount)
    &&& can_transfer(
        transfer_applied(bank0, accounts.player1, accounts.escrow, amount),
        accounts.player2,
        accounts.escrow,
        amount,
    )
}

/// The balances after both escrow transfers of an open.
pub open spec fn place_bet_applied(bank0: Map<u64, u64>, accounts: PlaceBet, amount: u64) -> Map<
    u64,
    u64,
> {
    transfer_applied(
        transfer_applied(bank0, accounts.player1, accounts.escrow, amount),
        accounts.player2,
        accounts.escrow,
        amount,
    )
}

/// When an open succeeds: distinct roles, a non-zero stake, a free record
/// identity, and both escrow transfers possible.
pub open spec fn place_bet_accepted(
    bank0: Map<u64, u64>,
    ledger0: Map<u64, Bet>,
    accounts: PlaceBet,
    amount: u64,
) -> bool {
    &&& place_bet_roles_ok(accounts)
    &&& amount > 0
    &&& !ledger0.contains_key(accounts.bet)
    &&& place_bet_funded(bank0, accounts, amount)
}

/// Opens a wager: validates the participants and the stake, allocates the
/// record, and escrows `amount` from each participant. On any failure
/// nothing changes: no record persists and no balance moves.
pub fn place_bet(ledger: &mut BetLedger, bank: &mut Bank, accounts: PlaceBet, amount: u64) -> (r:
    Result<(), BetError>)
    requires
        old(ledger).wf(),
    ensures
        final(ledger).wf(),
        r is Ok <==> place_bet_accepted(old(bank)@, old(ledger)@, accounts, amount),
        r is Ok ==> final(bank)@ == place_bet_applied(old(bank)@, accounts, amount)
            && final(ledger)@ == old(ledger)@.insert(
            accounts.bet,
            (Bet { player1: accounts.player1, player2: accounts.player2, amount }),
        ),
        r is Err ==> final(bank)@ == old(bank)@ && final(ledger)@ == old(ledger)@,
        r == Err::<(), BetError>(BetError::InvalidParticipants) <==> !place_bet_roles_ok(accounts),
        r == Err::<(), BetError>(BetError::ZeroStake) <==> place_bet_roles_ok(accounts) && amount
            == 0,
        r == Err::<(), BetError>(BetError::AllocationFailure) <==> place_bet_roles_ok(accounts)
            && amount > 0 && old(ledger)@.contains_key(accounts.bet),
        r == Err::<(), BetError>(BetError::TransferFailure) <==> place_bet_roles_ok(accounts)
            && amount > 0 && !old(ledger)@.contains_key(accounts.bet) && !place_bet_funded(
            old(bank)@,
            accounts,
            amount,
        ),
{
    if accounts.player1 == accounts.player2 || accounts.player1 == accounts.escrow
        || accounts.player2 == accounts.escrow {
        return Err(BetError::InvalidParticipants);
    }
    if amount == 0 {
        return Err(BetError::ZeroStake);
    }
    if ledger.lookup(accounts.bet).is_some() {
        return Err(BetError::AllocationFailure);
    }
    // Stage both escrow transfers: commit only once both are known to
    // succeed, so a failed open moves nothing.
    let player1_balance = match bank.balance_of(accounts.player1) {
        Some(b) => b,
        None => {
            return Err(BetError::TransferFailure);
        },
    };
    let player2_balance = match bank.balance_of(accounts.player2) {
        Some(b) => b,
        None => {
            return Err(BetError::TransferFailure);
        },
    };
    let escrow_balance = match bank.balance_of(accounts.escrow) {
        Some(b) => b,
        None => {
            return Err(BetError::TransferFailure);
        },
    };
    if player1_balance < amount || player2_balance < amount {
        return Err(BetError::TransferFailure);
    }
    if amount > u64::MAX - amount || escrow_balance > u64::MAX - (amount + amount) {
        return Err(BetError::TransferFailure);
    }
    let record = Bet { player1: accounts.player1, player2: accounts.player2, amount };
    match ledger.allocate(accounts.bet, record) {
        Ok(()) => {},
        Err(e) => {
            return Err(e);
        },
    }
    match bank.transfer(accounts.player1, accounts.escrow, amount) {
        Ok(()) => {},
        Err(e) => {
            return Err(e);
        },
    }
    match bank.transfer(accounts.player2, accounts.escrow, amount) {
        Ok(()) => {},
        Err(e) => {
            return Err(e);
        },
    }
    Ok(())
}

/// For every valid stake, a successful open moves exactly the stakes: the
/// escrow balance rises by exactly twice the stake, each participant's
/// balance falls by exactly the stake, and no other account changes.
pub proof fn lemma_place_bet_balances(bank0: Map<u64, u64>, accounts: PlaceBet, amount: u64)
    requires
        amount > 0,
        place_bet_roles_ok(accounts),
        place_bet_funded(bank0, accounts, amount),
    ensures
        ({
            let bank1 = place_bet_applied(bank0, accounts, amount);
            &&& bank1[accounts.escrow] == bank0[accounts.escrow] + 2 * amount
            &&& bank1[accounts.player1] == bank0[accounts.player1] - amount
            &&& bank1[accounts.player2] == bank0[accounts.player2] - amount
            &&& forall|id: u64| #![auto] bank1.contains_key(id) <==> bank0.contains_key(id)
            &&& forall|id: u64| #![auto]
                bank0.contains_key(id) && id != accounts.player1 && id != accounts.player2 && id
                    != accounts.escrow ==> bank1[id] == bank0[id]
        }),
{
}

/// A successful settlement moves exactly the computed split: the winner's
/// balance rises by the winner's share, the commission sink's by the
/// commission, the escrow balance falls by their sum, and no other account
/// changes.
pub proof fn lemma_settle_bet_balances(bank0: Map<u64, u64>, accounts: SettleBet, bet: Bet)
    requires
        bet.valid(),
        accounts.winner != accounts.escrow,
        accounts.commission != accounts.escrow,
        accounts.winner != accounts.commission,
        settle_bet_payable(bank0, accounts, bet),
    ensures
        ({
            let bank1 = settle_bet_applied(bank0, accounts, bet);
            &&& bank1[accounts.winner] == bank0[accounts.winner] + winner_share(bet.amount)
            &&& bank1[accounts.commission] == bank0[accounts.commission] + commission_share(
                bet.amount,
            )
            &&& bank1[accounts.escrow] == bank0[accounts.escrow] - winner_share(bet.amount)
                - commission_share(bet.amount)
            &&& forall|id: u64| #![auto] bank1.contains_key(id) <==> bank0.contains_key(id)
            &&& forall|id: u64| #![auto]
                bank0.contains_key(id) && id != accounts.winner && id != accounts.commission && id
                    != accounts.escrow ==> bank1[id] == bank0[id]
        }),
{
    crate::settlement::lemma_split_conservation(bet.amount);
}

/// Both payout transfers of a settlement — the winner's share first, then
/// the commission — can succeed in order.
pub open spec fn settle_bet_payable(bank0: Map<u64, u64>, accounts: SettleBet, bet: Bet) -> bool {
    &&& can_transfer(
        bank0,
        accounts.escrow,
        accounts.winner,
        winner_share(bet.amount) as u64,
    )
    &&& can_transfer(
        transfer_applied(
            bank0,
            accounts.escrow,
            accounts.winner,
            winner_share(bet.amount) as u64,
        ),
        accounts.escrow,
        accounts.commission,
        commission_share(bet.amount) as u64,
    )
}

/// The balances after both payout transfers of a settlement.
pub open spec fn settle_bet_applied(bank0: Map<u64, u64>, accounts: SettleBet, bet: Bet) -> Map<
    u64,
    u64,
> {
    transfer_applied(
        transfer_applied(
            bank0,
            accounts.escrow,
            accounts.winner,
            winner_share(bet.amount) as u64,
        ),
        accounts.escrow,
        accounts.commission,
        commission_share(bet.amount) as u64,
    )
}

/// Settles a wager: pays the winner 90% and the commission sink 10% of the
/// pooled stake out of escrow, both truncated, then destroys the record.
/// When the record does not exist (never opened, or already settled) nothing
/// moves; when a payout is impossible the wager stays open and fully funded,
/// safe to retry.
pub fn settle_bet(ledger: &mut BetLedger, bank: &mut Bank, accounts: SettleBet) -> (r: Result<
    (),
    BetError,
>)
    requires
        old(ledger).wf(),
    ensures
        final(ledger).wf(),
        r is Ok <==> old(ledger)@.contains_key(accounts.bet) && settle_bet_payable(
            old(bank)@,
            accounts,
            old(ledger)@[accounts.bet],
        ),
        r is Ok ==> final(bank)@ == settle_bet_applied(
            old(bank)@,
            accounts,
            old(ledger)@[accounts.bet],
        ) && final(ledger)@ == old(ledger)@.remove(accounts.bet),
        r is Ok ==> !final(ledger)@.contains_key(accounts.bet),
        r is Err ==> final(bank)@ == old(bank)@ && final(ledger)@ == old(ledger)@,
        r == Err::<(), BetError>(BetError::AllocationFailure) <==> !old(ledger)@.contains_key(
            accounts.bet,
        ),
        r == Err::<(), BetError>(BetError::TransferFailure) <==> old(ledger)@.contains_key(
            accounts.bet,
        ) && !settle_bet_payable(old(bank)@, accounts, old(ledger)@[accounts.bet]),
{
    let bet = match ledger.lookup(accounts.bet) {
        Some(b) => b,
        None => {
            return Err(BetError::AllocationFailure);
        },
    };
    let split = compute_split(bet.amount);
    match bank.transfer(accounts.escrow, accounts.winner, split.winner_amount) {
        Ok(()) => {},
        Err(e) => {
            return Err(e);
        },
    }
    match bank.transfer(accounts.escrow, accounts.commission, split.commission_amount) {
        Ok(()) => {},
        Err(e) => {
            // Compensate the winner payout already applied, so a failed
            // settlement leaves the escrow fully funded and retryable.
            proof {
                lemma_transfer_rollback(
                    old(bank)@,
                    accounts.escrow,
                    accounts.winner,
                    split.winner_amount,
                );
            }
            let rollback = bank.transfer(accounts.winner, accounts.escrow, split.winner_amount);
            proof {
                assert(rollback is Ok);
                assert(bank@ == old(bank)@);
            }
            return Err(e);
        },
    }
    match ledger.destroy(accounts.bet) {
        Ok(()) => {},
        Err(e) => {
            return Err(e);
        },
    }
    Ok(())
}

} // verus!
