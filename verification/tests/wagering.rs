use race_bet::bank::Bank;
use race_bet::bet::Bet;
use race_bet::errors::BetError;
use race_bet::ledger::BetLedger;
use race_bet::settlement::{compute_split, rounding_loss};
use race_bet::{place_bet, settle_bet, PlaceBet, SettleBet};

const PLAYER1: u64 = 1;
const PLAYER2: u64 = 2;
const ESCROW: u64 = 3;
const COMMISSION: u64 = 4;
const BET_ID: u64 = 7;

fn funded_world(balance: u64) -> (BetLedger, Bank) {
    let mut bank = Bank::new();
    assert!(bank.open_account(PLAYER1, balance));
    assert!(bank.open_account(PLAYER2, balance));
    assert!(bank.open_account(ESCROW, 0));
    assert!(bank.open_account(COMMISSION, 0));
    (BetLedger::new(), bank)
}

fn open_accounts() -> PlaceBet {
    PlaceBet { player1: PLAYER1, player2: PLAYER2, escrow: ESCROW, bet: BET_ID }
}

fn settle_accounts(winner: u64) -> SettleBet {
    SettleBet { winner, commission: COMMISSION, escrow: ESCROW, bet: BET_ID }
}

#[test]
fn open_moves_stakes_into_escrow() {
    let (mut ledger, mut bank) = funded_world(1000);
    let r = place_bet(&mut ledger, &mut bank, open_accounts(), 250);
    assert_eq!(r, Ok(()));
    assert_eq!(bank.balance_of(ESCROW), Some(500));
    assert_eq!(bank.balance_of(PLAYER1), Some(750));
    assert_eq!(bank.balance_of(PLAYER2), Some(750));
    assert_eq!(
        ledger.lookup(BET_ID),
        Some(Bet { player1: PLAYER1, player2: PLAYER2, amount: 250 })
    );
}

#[test]
fn split_exact_for_stake_fifteen() {
    let split = compute_split(15);
    assert_eq!(split.winner_amount, 27);
    assert_eq!(split.commission_amount, 3);
    assert_eq!(split.winner_amount + split.commission_amount, 30);
    assert_eq!(rounding_loss(15), 0);
}

#[test]
fn split_loses_one_unit_for_stake_seven() {
    let split = compute_split(7);
    assert_eq!(split.winner_amount, 12);
    assert_eq!(split.commission_amount, 1);
    assert_eq!(split.winner_amount + split.commission_amount, 13);
    assert_eq!(rounding_loss(7), 1);
}

#[test]
fn settled_wager_is_destroyed() {
    let (mut ledger, mut bank) = funded_world(1000);
    assert_eq!(place_bet(&mut ledger, &mut bank, open_accounts(), 100), Ok(()));
    assert_eq!(settle_bet(&mut ledger, &mut bank, settle_accounts(PLAYER1)), Ok(()));
    assert_eq!(ledger.lookup(BET_ID), None);
}

#[test]
fn settle_of_destroyed_wager_fails_without_transfers() {
    let (mut ledger, mut bank) = funded_world(1000);
    assert_eq!(place_bet(&mut ledger, &mut bank, open_accounts(), 100), Ok(()));
    assert_eq!(settle_bet(&mut ledger, &mut bank, settle_accounts(PLAYER1)), Ok(()));
    let balance_after = bank.balance_of(PLAYER1);
    let r = settle_bet(&mut ledger, &mut bank, settle_accounts(PLAYER1));
    assert_eq!(r, Err(BetError::AllocationFailure));
    assert_eq!(bank.balance_of(PLAYER1), balance_after);
    assert_eq!(bank.balance_of(ESCROW), Some(0));
    assert_eq!(bank.balance_of(COMMISSION), Some(20));
}

#[test]
fn equal_participants_rejected() {
    let (mut ledger, mut bank) = funded_world(1000);
    let accounts = PlaceBet { player1: PLAYER1, player2: PLAYER1, escrow: ESCROW, bet: BET_ID };
    let r = place_bet(&mut ledger, &mut bank, accounts, 100);
    assert_eq!(r, Err(BetError::InvalidParticipants));
    assert_eq!(ledger.lookup(BET_ID), None);
    assert_eq!(bank.balance_of(PLAYER1), Some(1000));
}

#[test]
fn participant_as_escrow_rejected() {
    let (mut ledger, mut bank) = funded_world(1000);
    let accounts = PlaceBet { player1: PLAYER1, player2: PLAYER2, escrow: PLAYER2, bet: BET_ID };
    let r = place_bet(&mut ledger, &mut bank, accounts, 100);
    assert_eq!(r, Err(BetError::InvalidParticipants));
}

#[test]
fn zero_stake_rejected() {
    let (mut ledger, mut bank) = funded_world(1000);
    let r = place_bet(&mut ledger, &mut bank, open_accounts(), 0);
    assert_eq!(r, Err(BetError::ZeroStake));
    assert_eq!(ledger.lookup(BET_ID), None);
}

#[test]
fn duplicate_wager_identity_rejected() {
    let (mut ledger, mut bank) = funded_world(1000);
    assert_eq!(place_bet(&mut ledger, &mut bank, open_accounts(), 100), Ok(()));
    let r = place_bet(&mut ledger, &mut bank, open_accounts(), 50);
    assert_eq!(r, Err(BetError::AllocationFailure));
    assert_eq!(bank.balance_of(PLAYER1), Some(900));
    assert_eq!(bank.balance_of(ESCROW), Some(200));
}

#[test]
fn underfunded_participant_fails_open_without_effect() {
    let (mut ledger, mut bank) = funded_world(99);
    let r = place_bet(&mut ledger, &mut bank, open_accounts(), 100);
    assert_eq!(r, Err(BetError::TransferFailure));
    assert_eq!(ledger.lookup(BET_ID), None);
    assert_eq!(bank.balance_of(PLAYER1), Some(99));
    assert_eq!(bank.balance_of(PLAYER2), Some(99));
    assert_eq!(bank.balance_of(ESCROW), Some(0));
}

#[test]
fn missing_account_fails_open() {
    let mut bank = Bank::new();
    assert!(bank.open_account(PLAYER1, 1000));
    assert!(bank.open_account(ESCROW, 0));
    let mut ledger = BetLedger::new();
    let r = place_bet(&mut ledger, &mut bank, open_accounts(), 100);
    assert_eq!(r, Err(BetError::TransferFailure));
    assert_eq!(ledger.lookup(BET_ID), None);
}

#[test]
fn failed_settlement_leaves_wager_open_and_retryable() {
    let (mut ledger, mut bank) = funded_world(1000);
    assert!(bank.open_account(9, 0));
    assert_eq!(place_bet(&mut ledger, &mut bank, open_accounts(), 100), Ok(()));
    // Drain the escrow so the winner's payout cannot be covered.
    assert_eq!(bank.transfer(ESCROW, 9, 150), Ok(()));
    let r = settle_bet(&mut ledger, &mut bank, settle_accounts(PLAYER1));
    assert_eq!(r, Err(BetError::TransferFailure));
    assert!(ledger.lookup(BET_ID).is_some());
    assert_eq!(bank.balance_of(ESCROW), Some(50));
    assert_eq!(bank.balance_of(PLAYER1), Some(900));
    // Refund the escrow: the same settlement now goes through.
    assert_eq!(bank.transfer(9, ESCROW, 150), Ok(()));
    assert_eq!(settle_bet(&mut ledger, &mut bank, settle_accounts(PLAYER1)), Ok(()));
    assert_eq!(bank.balance_of(PLAYER1), Some(1080));
}

#[test]
fn transfer_rejects_overflowing_destination() {
    let mut bank = Bank::new();
    assert!(bank.open_account(1, 10));
    assert!(bank.open_account(2, u64::MAX));
    assert_eq!(bank.transfer(1, 2, 1), Err(BetError::TransferFailure));
    assert_eq!(bank.balance_of(1), Some(10));
    assert_eq!(bank.balance_of(2), Some(u64::MAX));
}

#[test]
fn transfer_to_missing_account_fails() {
    let mut bank = Bank::new();
    assert!(bank.open_account(1, 10));
    assert_eq!(bank.transfer(1, 2, 1), Err(BetError::TransferFailure));
    assert_eq!(bank.transfer(2, 1, 1), Err(BetError::TransferFailure));
}

#[test]
fn duplicate_account_identity_refused() {
    let mut bank = Bank::new();
    assert!(bank.open_account(1, 10));
    assert!(!bank.open_account(1, 999));
    assert_eq!(bank.balance_of(1), Some(10));
}

#[test]
fn end_to_end_open_and_settle() {
    let (mut ledger, mut bank) = funded_world(1000);
    let r = place_bet(&mut ledger, &mut bank, open_accounts(), 100);
    assert_eq!(r, Ok(()));
    assert_eq!(bank.balance_of(ESCROW), Some(200));
    assert_eq!(bank.balance_of(PLAYER1), Some(900));
    assert_eq!(bank.balance_of(PLAYER2), Some(900));
    let r = settle_bet(&mut ledger, &mut bank, settle_accounts(PLAYER1));
    assert_eq!(r, Ok(()));
    assert_eq!(bank.balance_of(PLAYER1), Some(1080));
    assert_eq!(bank.balance_of(COMMISSION), Some(20));
    assert_eq!(bank.balance_of(ESCROW), Some(0));
    assert_eq!(ledger.lookup(BET_ID), None);
}
