use iou::events::Deposit;
use iou::events::Event;
use iou::events::IouContract;
use iou::events::Transfer;
use iou::ledger::Error;
use iou::ledger::IOU;

/// The default constructor does its job.
#[test]
fn new_works() {
    let ledger = IOU::new(10, 100, 1, 20);

    assert_eq!(ledger.amount(), 100);

    // Issuance emits the mint-style transfer and the issuance record.
    assert_eq!(ledger.events.len(), 2);
    assert_eq!(
        ledger.events[0],
        Event::Transfer(Transfer { from: None, to: Some(10), value: 100 })
    );
    assert_eq!(
        ledger.events[1],
        Event::IouContract(IouContract { issuer: 10, recipient: 1, amount_owed: 100 })
    );

    // The face value is minted into the issuer's balance.
    assert_eq!(ledger.public_account_balance(10), 100);
    assert_eq!(ledger.public_account_balance(1), 0);
    assert_eq!(ledger.total_minted, 100);
    assert!(!ledger.paid);
    assert_eq!(ledger.amount_paid, 0);
    assert_eq!(ledger.partial_payment_percentage, 20);
}

#[test]
fn new_with_zero_face_value_is_settled() {
    let ledger = IOU::new(10, 0, 1, 50);
    assert_eq!(ledger.amount(), 0);
    assert!(ledger.paid);
    assert_eq!(ledger.public_account_balance(10), 0);
}

/// Issuing 100 and repaying 30, 30, 40 settles the note exactly.
#[test]
fn repayments_settle_the_note() {
    let mut ledger = IOU::new(7, 100, 9, 20);

    assert!(ledger.pay_debt(7, 30).is_ok());
    assert_eq!(ledger.amount(), 70);
    assert_eq!(ledger.amount_paid, 30);
    assert!(!ledger.paid);

    assert!(ledger.pay_debt(7, 30).is_ok());
    assert_eq!(ledger.amount(), 40);
    assert_eq!(ledger.amount_paid, 60);
    assert!(!ledger.paid);

    assert!(ledger.pay_debt(7, 40).is_ok());
    assert_eq!(ledger.amount(), 0);
    assert_eq!(ledger.amount_paid, 100);
    assert!(ledger.paid);

    // The face value has moved, in full, from the debtor to the recipient.
    assert_eq!(ledger.public_account_balance(7), 0);
    assert_eq!(ledger.public_account_balance(9), 100);
    assert_eq!(ledger.total_minted, 100);
}

/// A repayment above the outstanding amount is rejected and changes nothing.
#[test]
fn pay_debt_rejects_excess_amount() {
    let mut ledger = IOU::new(7, 100, 9, 20);

    assert_eq!(ledger.pay_debt(7, 150), Err(Error::InsufficientDebtAmount));

    assert_eq!(ledger.amount(), 100);
    assert_eq!(ledger.amount_paid, 0);
    assert!(!ledger.paid);
    assert_eq!(ledger.public_account_balance(7), 100);
    assert_eq!(ledger.public_account_balance(9), 0);
    assert_eq!(ledger.events.len(), 2);
}

/// A repayment the debtor cannot cover fails without touching the debt
/// counters: the counter update and the transfer are one atomic step.
#[test]
fn pay_debt_rejects_uncovered_amount() {
    let mut ledger = IOU::new(7, 100, 9, 20);
    assert!(ledger.transfer_from_to(7, 3, 80).is_ok());
    assert_eq!(ledger.public_account_balance(7), 20);

    assert_eq!(ledger.pay_debt(7, 50), Err(Error::InsufficientBalance));

    assert_eq!(ledger.amount(), 100);
    assert_eq!(ledger.amount_paid, 0);
    assert_eq!(ledger.public_account_balance(7), 20);
    assert_eq!(ledger.public_account_balance(9), 0);
}

/// A successful transfer debits and credits by exactly the value and leaves
/// the total in circulation unchanged.
#[test]
fn transfer_moves_value_exactly() {
    let mut ledger = IOU::new(7, 100, 9, 20);

    assert!(ledger.transfer_from_to(7, 3, 40).is_ok());

    assert_eq!(ledger.public_account_balance(7), 60);
    assert_eq!(ledger.public_account_balance(3), 40);
    assert_eq!(ledger.public_account_balance(9), 0);
    assert_eq!(ledger.total_minted, 100);
    assert_eq!(
        ledger.events[2],
        Event::Transfer(Transfer { from: Some(7), to: Some(3), value: 40 })
    );

    // The allowance slot doubles as the payment audit record.
    assert_eq!(ledger.allowances.get(7, 3), 40);
}

/// A transfer above the payer's balance fails with `InsufficientBalance` and
/// leaves both balances unchanged.
#[test]
fn transfer_rejects_insufficient_balance() {
    let mut ledger = IOU::new(7, 100, 9, 20);

    assert_eq!(ledger.transfer_from_to(7, 3, 101), Err(Error::InsufficientBalance));

    assert_eq!(ledger.public_account_balance(7), 100);
    assert_eq!(ledger.public_account_balance(3), 0);
    assert_eq!(ledger.events.len(), 2);
}

#[test]
fn transfer_to_self_changes_nothing_but_the_record() {
    let mut ledger = IOU::new(7, 100, 9, 20);

    assert!(ledger.transfer_from_to(7, 7, 30).is_ok());

    assert_eq!(ledger.public_account_balance(7), 100);
    assert_eq!(ledger.total_minted, 100);
    assert_eq!(ledger.allowances.get(7, 7), 30);
}

/// A delegated transfer above the authorized amount fails with
/// `InsufficientAllowance`.
#[test]
fn delegated_transfer_rejects_excess_of_allowance() {
    let mut ledger = IOU::new(7, 100, 9, 20);
    ledger.allowances.set(7, 4, 25);

    assert_eq!(
        ledger.transfer_with_allowance(7, 3, 30, 4),
        Err(Error::InsufficientAllowance)
    );

    assert_eq!(ledger.public_account_balance(7), 100);
    assert_eq!(ledger.public_account_balance(3), 0);
    assert_eq!(ledger.allowances.get(7, 4), 25);
}

/// A successful delegated transfer decreases the pair's allowance by exactly
/// the value moved.
#[test]
fn delegated_transfer_decrements_allowance() {
    let mut ledger = IOU::new(7, 100, 9, 20);
    ledger.allowances.set(7, 4, 25);

    assert!(ledger.transfer_with_allowance(7, 3, 10, 4).is_ok());

    assert_eq!(ledger.public_account_balance(7), 90);
    assert_eq!(ledger.public_account_balance(3), 10);
    assert_eq!(ledger.allowances.get(7, 4), 15);
    // The core transfer's audit overwrite lands on the (payer, payee) slot.
    assert_eq!(ledger.allowances.get(7, 3), 10);
}

/// When the spender is the payee, the decrement supersedes the audit
/// overwrite, so delegated spending nets out correctly.
#[test]
fn delegated_transfer_to_spender_supersedes_audit_record() {
    let mut ledger = IOU::new(7, 100, 9, 20);
    ledger.allowances.set(7, 3, 25);

    assert!(ledger.transfer_with_allowance(7, 3, 10, 3).is_ok());

    assert_eq!(ledger.public_account_balance(3), 10);
    assert_eq!(ledger.allowances.get(7, 3), 15);
}

/// A delegated transfer that clears the allowance but not the balance check
/// fails with `InsufficientBalance` and leaves the allowance untouched.
#[test]
fn delegated_transfer_rejects_insufficient_balance() {
    let mut ledger = IOU::new(7, 100, 9, 20);
    ledger.allowances.set(7, 4, 500);

    assert_eq!(
        ledger.transfer_with_allowance(7, 3, 200, 4),
        Err(Error::InsufficientBalance)
    );

    assert_eq!(ledger.allowances.get(7, 4), 500);
    assert_eq!(ledger.public_account_balance(7), 100);
}

/// `deposit(a, 50)` raises `a`'s balance by exactly 50, emits exactly one
/// `Deposit` event for it, and touches no other account.
#[test]
fn deposit_credits_exactly_and_emits_once() {
    let mut ledger = IOU::new(7, 100, 9, 20);
    let events_before = ledger.events.len();

    ledger.deposit(3, 50);

    assert_eq!(ledger.public_account_balance(3), 50);
    assert_eq!(ledger.public_account_balance(7), 100);
    assert_eq!(ledger.public_account_balance(9), 0);
    assert_eq!(ledger.events.len(), events_before + 1);
    assert_eq!(
        ledger.events[events_before],
        Event::Deposit(Deposit { to: 3, value: 50 })
    );
    // Deposits are the supply-increase path: the minted total grows with them.
    assert_eq!(ledger.total_minted, 150);
}

#[test]
fn deposit_to_existing_account_accumulates() {
    let mut ledger = IOU::new(7, 100, 9, 20);
    ledger.deposit(7, 50);
    assert_eq!(ledger.public_account_balance(7), 150);
    assert_eq!(ledger.total_minted, 150);
}

/// Two independently issued records share no mutable state: operations on one
/// leave the other, and unrelated accounts inside each, exactly as they were.
#[test]
fn independent_records_do_not_interfere() {
    let mut first = IOU::new(7, 100, 9, 20);
    let second = IOU::new(7, 40, 8, 10);

    assert!(first.pay_debt(7, 60).is_ok());
    first.deposit(3, 5);

    // The second record saw none of it.
    assert_eq!(second.amount(), 40);
    assert_eq!(second.amount_paid, 0);
    assert_eq!(second.public_account_balance(7), 40);
    assert_eq!(second.public_account_balance(9), 0);
    assert_eq!(second.public_account_balance(3), 0);
    assert_eq!(second.events.len(), 2);

    // Inside the first record, accounts unrelated to the operations kept
    // their balances and allowances.
    assert_eq!(first.public_account_balance(8), 0);
    assert_eq!(first.allowances.get(9, 7), 0);
}

#[test]
fn reads_never_fail_and_unknown_accounts_hold_zero() {
    let ledger = IOU::new(7, 100, 9, 20);
    assert_eq!(ledger.balance_of_account(&12345), 0);
    assert_eq!(ledger.public_account_balance(0), 0);
    assert_eq!(ledger.allowances.get(1, 2), 0);
}

#[test]
fn zero_value_operations_succeed() {
    let mut ledger = IOU::new(7, 100, 9, 20);

    assert!(ledger.transfer_from_to(7, 3, 0).is_ok());
    assert_eq!(ledger.public_account_balance(3), 0);
    assert_eq!(ledger.public_account_balance(7), 100);

    assert!(ledger.pay_debt(7, 0).is_ok());
    assert_eq!(ledger.amount(), 100);
    assert_eq!(ledger.amount_paid, 0);
    assert!(!ledger.paid);
}
