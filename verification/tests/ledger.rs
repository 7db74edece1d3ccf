use real_estate::{FreezeReason, Ledger, LedgerError, Preservation};

#[test]
fn new_ledger_is_empty() {
    let ledger = Ledger::new(5);
    assert_eq!(ledger.minimum_balance(), 5);
    assert_eq!(ledger.balance(1), 0);
    assert_eq!(ledger.balance_on_hold(FreezeReason::Offer(1), 1), 0);
}

#[test]
fn mint_adds_to_the_free_balance() {
    let mut ledger = Ledger::new(1);
    assert_eq!(ledger.mint_into(1, 1000), Ok(()));
    assert_eq!(ledger.balance(1), 1000);
    assert_eq!(ledger.mint_into(1, 234), Ok(()));
    assert_eq!(ledger.balance(1), 1234);
    assert_eq!(ledger.balance(2), 0);
}

#[test]
fn mint_refuses_to_overflow() {
    let mut ledger = Ledger::new(1);
    assert_eq!(ledger.mint_into(1, u128::MAX), Ok(()));
    assert_eq!(ledger.mint_into(1, 1), Err(LedgerError::Overflow));
    assert_eq!(ledger.balance(1), u128::MAX);
}

#[test]
fn hold_moves_funds_out_of_the_free_balance() {
    let mut ledger = Ledger::new(1);
    ledger.mint_into(1, 1000).unwrap();
    assert_eq!(ledger.place_hold(FreezeReason::Offer(7), 1, 900), Ok(()));
    assert_eq!(ledger.balance(1), 100);
    assert_eq!(ledger.balance_on_hold(FreezeReason::Offer(7), 1), 900);
    assert_eq!(ledger.balance_on_hold(FreezeReason::Offer(8), 1), 0);
    assert_eq!(ledger.balance_on_hold(FreezeReason::Offer(7), 2), 0);
}

#[test]
fn hold_adds_to_a_hold_with_the_same_tag() {
    let mut ledger = Ledger::new(1);
    ledger.mint_into(1, 1000).unwrap();
    ledger.place_hold(FreezeReason::Offer(7), 1, 300).unwrap();
    ledger.place_hold(FreezeReason::Offer(7), 1, 200).unwrap();
    assert_eq!(ledger.balance_on_hold(FreezeReason::Offer(7), 1), 500);
    assert_eq!(ledger.balance(1), 500);
}

#[test]
fn hold_needs_free_funds() {
    let mut ledger = Ledger::new(1);
    ledger.mint_into(1, 1000).unwrap();
    ledger.place_hold(FreezeReason::Offer(7), 1, 900).unwrap();
    assert_eq!(
        ledger.place_hold(FreezeReason::Offer(8), 1, 101),
        Err(LedgerError::FundsUnavailable)
    );
    assert_eq!(ledger.balance(1), 100);
    assert_eq!(ledger.balance_on_hold(FreezeReason::Offer(8), 1), 0);
    assert_eq!(ledger.place_hold(FreezeReason::Offer(8), 1, 100), Ok(()));
    assert_eq!(ledger.balance(1), 0);
}

#[test]
fn hold_refuses_to_overflow() {
    let mut ledger = Ledger::new(1);
    ledger.mint_into(1, u128::MAX).unwrap();
    ledger.place_hold(FreezeReason::Offer(7), 1, u128::MAX).unwrap();
    ledger.mint_into(1, 10).unwrap();
    assert_eq!(ledger.place_hold(FreezeReason::Offer(7), 1, 1), Err(LedgerError::Overflow));
    assert_eq!(ledger.balance(1), 10);
    assert_eq!(ledger.balance_on_hold(FreezeReason::Offer(7), 1), u128::MAX);
}

#[test]
fn release_gives_the_hold_back() {
    let mut ledger = Ledger::new(1);
    ledger.mint_into(1, 1000).unwrap();
    ledger.place_hold(FreezeReason::Offer(7), 1, 900).unwrap();
    ledger.place_hold(FreezeReason::Offer(8), 1, 50).unwrap();
    assert_eq!(ledger.release_hold(FreezeReason::Offer(7), 1), Ok(900));
    assert_eq!(ledger.balance(1), 950);
    assert_eq!(ledger.balance_on_hold(FreezeReason::Offer(7), 1), 0);
    assert_eq!(ledger.balance_on_hold(FreezeReason::Offer(8), 1), 50);
    // Releasing what is not there gives nothing back.
    assert_eq!(ledger.release_hold(FreezeReason::Offer(7), 1), Ok(0));
    assert_eq!(ledger.balance(1), 950);
}

#[test]
fn release_refuses_to_overflow() {
    let mut ledger = Ledger::new(1);
    ledger.mint_into(1, 100).unwrap();
    ledger.place_hold(FreezeReason::Offer(7), 1, 100).unwrap();
    ledger.mint_into(1, u128::MAX).unwrap();
    assert_eq!(ledger.release_hold(FreezeReason::Offer(7), 1), Err(LedgerError::Overflow));
    assert_eq!(ledger.balance(1), u128::MAX);
    assert_eq!(ledger.balance_on_hold(FreezeReason::Offer(7), 1), 100);
}

#[test]
fn transfer_moves_free_funds() {
    let mut ledger = Ledger::new(1);
    ledger.mint_into(1, 1000).unwrap();
    assert_eq!(ledger.transfer(1, 2, 400, Preservation::Preserve), Ok(()));
    assert_eq!(ledger.balance(1), 600);
    assert_eq!(ledger.balance(2), 400);
    assert_eq!(ledger.transfer(1, 2, 600, Preservation::Expendable), Ok(()));
    assert_eq!(ledger.balance(1), 0);
    assert_eq!(ledger.balance(2), 1000);
}

#[test]
fn transfer_cannot_spend_what_is_on_hold() {
    let mut ledger = Ledger::new(1);
    ledger.mint_into(1, 1000).unwrap();
    ledger.place_hold(FreezeReason::Offer(1), 1, 900).unwrap();
    assert_eq!(ledger.transfer(1, 2, 101, Preservation::Expendable), Err(LedgerError::Frozen));
    assert_eq!(ledger.balance(1), 100);
    assert_eq!(ledger.balance(2), 0);
    assert_eq!(ledger.transfer(1, 2, 100, Preservation::Expendable), Ok(()));
    assert_eq!(ledger.balance(2), 100);
}

#[test]
fn transfer_keeps_the_sender_alive() {
    let mut ledger = Ledger::new(10);
    ledger.mint_into(1, 1000).unwrap();
    assert_eq!(ledger.transfer(1, 2, 991, Preservation::Preserve), Err(LedgerError::NotExpendable));
    assert_eq!(ledger.transfer(1, 2, 991, Preservation::Protect), Err(LedgerError::NotExpendable));
    assert_eq!(ledger.balance(1), 1000);
    assert_eq!(ledger.balance(2), 0);
    assert_eq!(ledger.transfer(1, 2, 990, Preservation::Preserve), Ok(()));
    assert_eq!(ledger.balance(1), 10);
    assert_eq!(ledger.balance(2), 990);
    assert_eq!(ledger.transfer(1, 2, 10, Preservation::Expendable), Ok(()));
    assert_eq!(ledger.balance(1), 0);
    // Paying nothing takes nothing away, however little there is.
    assert_eq!(ledger.transfer(1, 2, 0, Preservation::Preserve), Ok(()));
    assert_eq!(ledger.transfer(3, 2, 0, Preservation::Protect), Ok(()));
    assert_eq!(ledger.balance(2), 1000);
}

#[test]
fn transfer_refuses_to_overflow() {
    let mut ledger = Ledger::new(1);
    ledger.mint_into(1, 1000).unwrap();
    ledger.mint_into(2, u128::MAX).unwrap();
    assert_eq!(ledger.transfer(1, 2, 1, Preservation::Expendable), Err(LedgerError::Overflow));
    assert_eq!(ledger.balance(1), 1000);
    assert_eq!(ledger.balance(2), u128::MAX);
}

#[test]
fn transfer_to_oneself_changes_nothing() {
    let mut ledger = Ledger::new(1);
    ledger.mint_into(1, 1000).unwrap();
    assert_eq!(ledger.transfer(1, 1, 400, Preservation::Preserve), Ok(()));
    assert_eq!(ledger.balance(1), 1000);
    assert_eq!(ledger.transfer(1, 1, 1001, Preservation::Preserve), Err(LedgerError::Frozen));
    assert_eq!(ledger.transfer(1, 1, 1000, Preservation::Preserve), Err(LedgerError::NotExpendable));
}

#[test]
fn settle_releases_and_pays() {
    let mut ledger = Ledger::new(1);
    ledger.mint_into(1, 1000).unwrap();
    ledger.place_hold(FreezeReason::Offer(1), 1, 900).unwrap();
    assert_eq!(ledger.settle(FreezeReason::Offer(1), 1, 2, 900), Ok(()));
    assert_eq!(ledger.balance(1), 100);
    assert_eq!(ledger.balance(2), 900);
    assert_eq!(ledger.balance_on_hold(FreezeReason::Offer(1), 1), 0);
}

#[test]
fn settle_puts_the_hold_back_when_the_payment_fails() {
    let mut ledger = Ledger::new(200);
    ledger.mint_into(1, 1000).unwrap();
    ledger.place_hold(FreezeReason::Offer(1), 1, 900).unwrap();
    // Paying 900 would leave 100, less than the minimum of 200.
    assert_eq!(ledger.settle(FreezeReason::Offer(1), 1, 2, 900), Err(LedgerError::NotExpendable));
    assert_eq!(ledger.balance(1), 100);
    assert_eq!(ledger.balance(2), 0);
    assert_eq!(ledger.balance_on_hold(FreezeReason::Offer(1), 1), 900);
    // Paying more than there is fails as well.
    assert_eq!(ledger.settle(FreezeReason::Offer(1), 1, 2, 1001), Err(LedgerError::Frozen));
    assert_eq!(ledger.balance(1), 100);
    assert_eq!(ledger.balance_on_hold(FreezeReason::Offer(1), 1), 900);
}
