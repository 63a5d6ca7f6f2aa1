//! Tests of the account ledger: supply, balances and the two transfer paths.

use keysafe::ledger::KeyLedger;
use keysafe::model::Error;

#[test]
fn total_supply_works() {
    let kl = KeyLedger::new(1, 30000);
    assert_eq!(kl.total_supply(), 30000);
}

#[test]
fn new_credits_creator() {
    let kl = KeyLedger::new(1, 30000);
    assert_eq!(kl.balance_of(1), 30000);
    assert_eq!(kl.balance_of(2), 0);
}

#[test]
fn transfer_moves_value() {
    let mut kl = KeyLedger::new(1, 100);
    let r = kl.transfer(1, 2, 40);
    assert_eq!(r, Ok(()));
    assert_eq!(kl.balance_of(1), 60);
    assert_eq!(kl.balance_of(2), 40);
}

#[test]
fn transfer_is_unchecked_and_saturates() {
    let mut kl = KeyLedger::new(1, 10);
    // The plain transfer performs no balance check: the debit saturates at
    // zero and the call still succeeds.
    let r = kl.transfer(1, 2, 25);
    assert_eq!(r, Ok(()));
    assert_eq!(kl.balance_of(1), 0);
    assert_eq!(kl.balance_of(2), 25);
}

#[test]
fn transfer_credit_saturates_at_max() {
    let mut kl = KeyLedger::new(1, u128::MAX);
    let r = kl.transfer(1, 2, u128::MAX);
    assert_eq!(r, Ok(()));
    assert_eq!(kl.balance_of(2), u128::MAX);
    // A further credit to an account already at the top of the range leaves
    // it there; the debit of the empty account saturates at zero.
    let r2 = kl.transfer(3, 2, 5);
    assert_eq!(r2, Ok(()));
    assert_eq!(kl.balance_of(3), 0);
    assert_eq!(kl.balance_of(2), u128::MAX);
}

#[test]
fn transfer_checked_insufficient_balance() {
    let mut kl = KeyLedger::new(1, 100);
    let r = kl.transfer_from_to(2, 3, 5);
    assert_eq!(r, Err(Error::InsufficientBalance));
    assert_eq!(kl.balance_of(1), 100);
    assert_eq!(kl.balance_of(2), 0);
    assert_eq!(kl.balance_of(3), 0);
}

#[test]
fn transfer_checked_moves_value() {
    let mut kl = KeyLedger::new(1, 100);
    let r = kl.transfer_from_to(1, 2, 30);
    assert_eq!(r, Ok(()));
    assert_eq!(kl.balance_of(1), 70);
    assert_eq!(kl.balance_of(2), 30);
}

#[test]
fn transfer_checked_to_self_keeps_balance() {
    let mut kl = KeyLedger::new(1, 100);
    let r = kl.transfer_from_to(1, 1, 30);
    assert_eq!(r, Ok(()));
    assert_eq!(kl.balance_of(1), 100);
}
