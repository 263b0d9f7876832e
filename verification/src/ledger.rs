//! The ledger core: the transfer engine and the debt tracker.
//!
//! An `IOU` value owns the whole unit of consistency — balance store,
//! allowance store, debt record and event log — and every operation takes
//! exclusive access to it for its duration, so no caller ever observes a
//! partially applied effect. A rejected operation returns its error and leaves
//! every store exactly as it was.

use vstd::prelude::*;

use crate::AccountId;
use crate::Balance;
use crate::allowances::AllowanceStore;
use crate::allowances::allowance_in;
use crate::balances::BalanceStore;
use crate::balances::bal;
use crate::balances::lemma_bal_le_total;
use crate::balances::total;
use crate::events::Deposit;
use crate::events::Event;
use crate::events::IouContract;
use crate::events::Transfer;

verus! {

/// Why an operation was rejected. Every error leaves the ledger unchanged.
#[derive(Clone, Copy, Debug, PartialEq, Eq, Structural)]
pub enum Error {
    /// A transfer would drive the paying account's balance below zero.
    InsufficientBalance,
    /// A delegated transfer asks for more than the spender is authorized for.
    InsufficientAllowance,
    /// A repayment exceeds the amount still outstanding on the IOU.
    InsufficientDebtAmount,
}

/// One issued IOU: the debt record together with the balance and allowance
/// stores it moves value through, and the log of events its operations emit.
pub struct IOU {
    /// How much of the face value is still outstanding. Only successful
    /// repayments decrease it; it never goes below zero.
    pub amount_owed: Balance,
    /// The face value minted at issuance; constant afterwards.
    pub amount_issued: Balance,
    /// Cumulative amount repaid so far; never decreases.
    pub amount_paid: Balance,
    /// The account that issued the note and was credited its face value.
    pub issuer: AccountId,
    /// The account repayments flow to.
    pub recipient: AccountId,
    /// True exactly when nothing is outstanding any more; terminal.
    pub paid: bool,
    /// Configured threshold for accepted partial payments; informational.
    pub partial_payment_percentage: u128,
    /// The sum of all value ever minted by issuance and deposits. Transfers
    /// never change it, and it always equals the sum of all balances.
    pub total_minted: Balance,
    /// Per-account holdings of the fungible unit.
    pub balances: BalanceStore,
    /// Per-(owner, spender) delegated spending limits and payment records.
    pub allowances: AllowanceStore,
    /// Append-only log of the events successful operations emitted.
    pub events: Vec<Event>,
}

/// The debt record and configuration of `next` match `prev`: a transfer or a
/// deposit moves balances only, never the debt bookkeeping.
pub open spec fn same_debt_state(prev: IOU, next: IOU) -> bool {
    &&& next.amount_owed == prev.amount_owed
    &&& next.amount_issued == prev.amount_issued
    &&& next.amount_paid == prev.amount_paid
    &&& next.issuer == prev.issuer
    &&& next.recipient == prev.recipient
    &&& next.paid == prev.paid
    &&& next.partial_payment_percentage == prev.partial_payment_percentage
    &&& next.total_minted == prev.total_minted
}

impl IOU {
    /// The balance the ledger holds for account `a` (zero when unknown).
    pub open spec fn balance_of_spec(self, a: AccountId) -> Balance {
        bal(self.balances@, a)
    }

    /// What `spender` may still move out of `owner`'s balance (zero when
    /// unknown).
    pub open spec fn allowance_spec(self, owner: AccountId, spender: AccountId) -> Balance {
        allowance_in(self.allowances@, owner, spender)
    }

    /// The sum of every account's balance.
    pub open spec fn total_balance(self) -> int {
        total(self.balances@)
    }

    /// The ledger's invariant: repayments and the outstanding amount account
    /// exactly for the face value, `paid` flags exactly a settled note, and
    /// the balances in circulation sum to exactly what was ever minted.
    pub open spec fn wf(self) -> bool {
        &&& self.amount_paid + self.amount_owed == self.amount_issued
        &&& self.paid <==> self.amount_owed == 0
        &&& self.total_balance() == self.total_minted
    }

    /// Issues a new IOU: `caller` owes `recipient` the face value
    /// `amount_owed`, and the face value is minted into `caller`'s balance —
    /// the conservation law's base case. Emits a mint-style `Transfer` from
    /// no account, then the issuance record.
    pub fn new(
        caller: AccountId,
        amount_owed: Balance,
        recipient: AccountId,
        partial_payment_percentage: u128,
    ) -> (iou: IOU)
        ensures
            iou.wf(),
            iou.amount_owed == amount_owed,
            iou.amount_issued == amount_owed,
            iou.amount_paid == 0,
            iou.issuer == caller,
            iou.recipient == recipient,
            iou.paid <==> amount_owed == 0,
            iou.partial_payment_percentage == partial_payment_percentage,
            iou.total_minted == amount_owed,
            iou.balance_of_spec(caller) == amount_owed,
            forall|a: AccountId| a != caller ==> iou.balance_of_spec(a) == 0,
            forall|o: AccountId, p: AccountId| iou.allowance_spec(o, p) == 0,
            iou.events@ =~= seq![
                Event::Transfer(Transfer { from: None, to: Some(caller), value: amount_owed }),
                Event::IouContract(
                    IouContract { issuer: caller, recipient, amount_owed },
                ),
            ],
    {
        let mut balances = BalanceStore::new();
        balances.set(caller, amount_owed);
        let mut events: Vec<Event> = Vec::new();
        events.push(
            Event::Transfer(Transfer { from: None, to: Some(caller), value: amount_owed }),
        );
        events.push(Event::IouContract(IouContract { issuer: caller, recipient, amount_owed }));
        IOU {
            amount_owed,
            amount_issued: amount_owed,
            amount_paid: 0,
            issuer: caller,
            recipient,
            paid: amount_owed == 0,
            partial_payment_percentage,
            total_minted: amount_owed,
            balances,
            allowances: AllowanceStore::new(),
            events,
        }
    }

    /// The amount still outstanding on the IOU. A pure read; never fails.
    pub fn amount(&self) -> (r: Balance)
        ensures
            r == self.amount_owed,
    {
        self.amount_owed
    }

    /// The balance held by `owner`, zero for an account the ledger has never
    /// seen. A pure read; never fails.
    pub fn balance_of_account(&self, owner: &AccountId) -> (r: Balance)
        ensures
            r == self.balance_of_spec(*owner),
    {
        self.balances.get(*owner)
    }

    /// The balance held by the calling account. A pure read; never fails.
    pub fn public_account_balance(&self, caller: AccountId) -> (r: Balance)
        ensures
            r == self.balance_of_spec(caller),
    {
        self.balances.get(caller)
    }

    /// Credits `amount` of fresh value into `caller`'s balance — a pure mint,
    /// with no debit anywhere — and emits one `Deposit` event. No other
    /// account's balance, no allowance and no debt bookkeeping moves.
    ///
    /// The one precondition is the machine limit that the minted total still
    /// fits the balance type; `total_minted` is readable, so an unverified
    /// caller can test it first.
    pub fn deposit(&mut self, caller: AccountId, amount: Balance)
        requires
            old(self).wf(),
            old(self).total_minted + amount <= u128::MAX,
        ensures
            final(self).wf(),
            final(self).balance_of_spec(caller) == old(self).balance_of_spec(caller) + amount,
            forall|a: AccountId|
                a != caller ==> final(self).balance_of_spec(a) == old(self).balance_of_spec(a),
            final(self).total_minted == old(self).total_minted + amount,
            final(self).amount_owed == old(self).amount_owed,
            final(self).amount_issued == old(self).amount_issued,
            final(self).amount_paid == old(self).amount_paid,
            final(self).issuer == old(self).issuer,
            final(self).recipient == old(self).recipient,
            final(self).paid == old(self).paid,
            final(self).partial_payment_percentage == old(self).partial_payment_percentage,
            final(self).allowances == old(self).allowances,
            final(self).events@ =~= old(self).events@.push(
                Event::Deposit(Deposit { to: caller, value: amount }),
            ),
    {
        let to_balance = self.balances.get(caller);
        proof {
            lemma_bal_le_total(self.balances@, caller);
        }
        self.balances.set(caller, to_balance + amount);
        self.total_minted = self.total_minted + amount;
        self.events.push(Event::Deposit(Deposit { to: caller, value: amount }));
    }

    /// The transfer engine's single operation: moves `value` from `from` to
    /// `to` atomically. Succeeds exactly when `from` holds at least `value`;
    /// otherwise fails with `InsufficientBalance` and changes nothing. On
    /// success it also overwrites the allowance slot (`from`, `to`) with the
    /// value just moved — the slot doubles as a payment audit record — and
    /// emits one `Transfer` event. Value is moved, never created: the total
    /// in circulation is unchanged.
    pub fn transfer_from_to(
        &mut self,
        from: AccountId,
        to: AccountId,
        value: Balance,
    ) -> (r: Result<(), Error>)
        requires
            old(self).wf(),
        ensures
            final(self).wf(),
            r is Ok <==> value <= old(self).balance_of_spec(from),
            r is Err ==> r == Err::<(), Error>(Error::InsufficientBalance),
            r is Err ==> *final(self) == *old(self),
            r is Ok ==> same_debt_state(*old(self), *final(self)),
            r is Ok && from != to ==> final(self).balance_of_spec(from) == old(self).balance_of_spec(from) - value,
            r is Ok && from != to ==> final(self).balance_of_spec(to) == old(self).balance_of_spec(to) + value,
            r is Ok && from == to ==> final(self).balance_of_spec(from) == old(self).balance_of_spec(from),
            r is Ok ==> forall|a: AccountId|
                a != from && a != to ==> final(self).balance_of_spec(a) == old(self).balance_of_spec(a),
            r is Ok ==> final(self).total_balance() == old(self).total_balance(),
            r is Ok ==> final(self).allowance_spec(from, to) == value,
            r is Ok ==> forall|o: AccountId, p: AccountId|
                !(o == from && p == to) ==> final(self).allowance_spec(o, p) == old(self).allowance_spec(o, p),
            r is Ok ==> final(self).events@ =~= old(self).events@.push(
                Event::Transfer(Transfer { from: Some(from), to: Some(to), value }),
            ),
    {
        let from_balance = self.balances.get(from);
        if from_balance < value {
            return Err(Error::InsufficientBalance);
        }
        self.balances.set(from, from_balance - value);
        let to_balance = self.balances.get(to);
        proof {
            lemma_bal_le_total(self.balances@, to);
        }
        self.balances.set(to, to_balance + value);
        self.allowances.set(from, to, value);
        self.events.push(Event::Transfer(Transfer { from: Some(from), to: Some(to), value }));
        Ok(())
    }

    /// A delegated transfer: `spender` moves `value` out of `from`'s balance
    /// to `to`, against the allowance `from` granted `spender`. Fails with
    /// `InsufficientAllowance` when the allowance is too small, then with
    /// `InsufficientBalance` when the balance is; either failure changes
    /// nothing. On success the balances move as in `transfer_from_to` and the
    /// pair's allowance decreases by exactly `value` — the audit overwrite the
    /// core transfer makes on (`from`, `to`) is superseded for the spender's
    /// slot, which nets out to correct delegated-spend decrement semantics.
    pub fn transfer_with_allowance(
        &mut self,
        from: AccountId,
        to: AccountId,
        value: Balance,
        spender: AccountId,
    ) -> (r: Result<(), Error>)
        requires
            old(self).wf(),
        ensures
            final(self).wf(),
            r is Ok <==> value <= old(self).allowance_spec(from, spender) && value <= old(self).balance_of_spec(from),
            value > old(self).allowance_spec(from, spender) ==> r == Err::<(), Error>(
                Error::InsufficientAllowance,
            ),
            value <= old(self).allowance_spec(from, spender) && value > old(self).balance_of_spec(
                from,
            ) ==> r == Err::<(), Error>(Error::InsufficientBalance),
            r is Err ==> *final(self) == *old(self),
            r is Ok ==> same_debt_state(*old(self), *final(self)),
            r is Ok && from != to ==> final(self).balance_of_spec(from) == old(self).balance_of_spec(from) - value,
            r is Ok && from != to ==> final(self).balance_of_spec(to) == old(self).balance_of_spec(to) + value,
            r is Ok && from == to ==> final(self).balance_of_spec(from) == old(self).balance_of_spec(from),
            r is Ok ==> forall|a: AccountId|
                a != from && a != to ==> final(self).balance_of_spec(a) == old(self).balance_of_spec(a),
            r is Ok ==> final(self).total_balance() == old(self).total_balance(),
            r is Ok ==> final(self).allowance_spec(from, spender) == old(self).allowance_spec(
                from,
                spender,
            ) - value,
            r is Ok && spender != to ==> final(self).allowance_spec(from, to) == value,
            r is Ok ==> forall|o: AccountId, p: AccountId|
                !(o == from && p == to) && !(o == from && p == spender) ==> final(self).allowance_spec(o, p) == old(self).allowance_spec(o, p),
            r is Ok ==> final(self).events@ =~= old(self).events@.push(
                Event::Transfer(Transfer { from: Some(from), to: Some(to), value }),
            ),
    {
        let authorized = self.allowances.get(from, spender);
        if authorized < value {
            return Err(Error::InsufficientAllowance);
        }
        match self.transfer_from_to(from, to, value) {
            Err(e) => Err(e),
            Ok(()) => {
                self.allowances.set(from, spender, authorized - value);
                Ok(())
            },
        }
    }

    /// A repayment by the debtor: `caller` pays `amount` to the IOU's
    /// recipient. Fails with `InsufficientDebtAmount` when `amount` exceeds
    /// what is still outstanding, then with `InsufficientBalance` when the
    /// caller cannot cover it; either failure changes nothing — the debt
    /// counters and the balance movement are applied as one atomic step, both
    /// or neither. On success the outstanding amount decreases by `amount`,
    /// the cumulative repayment grows by `amount`, the note is marked paid
    /// exactly when nothing remains, and the value moves to the recipient as
    /// one core transfer (with its audit overwrite and `Transfer` event).
    pub fn pay_debt(&mut self, caller: AccountId, amount: Balance) -> (r: Result<(), Error>)
        requires
            old(self).wf(),
        ensures
            final(self).wf(),
            r is Ok <==> amount <= old(self).amount_owed && amount <= old(self).balance_of_spec(
                caller,
            ),
            amount > old(self).amount_owed ==> r == Err::<(), Error>(Error::InsufficientDebtAmount),
            amount <= old(self).amount_owed && amount > old(self).balance_of_spec(caller) ==> r
                == Err::<(), Error>(Error::InsufficientBalance),
            r is Err ==> *final(self) == *old(self),
            r is Ok ==> final(self).amount_owed == old(self).amount_owed - amount,
            r is Ok ==> final(self).amount_paid == old(self).amount_paid + amount,
            r is Ok ==> (final(self).paid <==> old(self).amount_owed == amount),
            r is Ok ==> final(self).amount_issued == old(self).amount_issued,
            r is Ok ==> final(self).issuer == old(self).issuer,
            r is Ok ==> final(self).recipient == old(self).recipient,
            r is Ok ==> final(self).partial_payment_percentage == old(self).partial_payment_percentage,
            r is Ok ==> final(self).total_minted == old(self).total_minted,
            r is Ok && caller != old(self).recipient ==> final(self).balance_of_spec(caller) == old(self).balance_of_spec(caller) - amount,
            r is Ok && caller != old(self).recipient ==> final(self).balance_of_spec(
                old(self).recipient,
            ) == old(self).balance_of_spec(old(self).recipient) + amount,
            r is Ok && caller == old(self).recipient ==> final(self).balance_of_spec(caller) == old(self).balance_of_spec(caller),
            r is Ok ==> forall|a: AccountId|
                a != caller && a != old(self).recipient ==> final(self).balance_of_spec(a) == old(self).balance_of_spec(a),
            r is Ok ==> final(self).total_balance() == old(self).total_balance(),
            r is Ok ==> final(self).allowance_spec(caller, old(self).recipient) == amount,
            r is Ok ==> forall|o: AccountId, p: AccountId|
                !(o == caller && p == old(self).recipient) ==> final(self).allowance_spec(o, p)
                    == old(self).allowance_spec(o, p),
            r is Ok ==> final(self).events@ =~= old(self).events@.push(
                Event::Transfer(
                    Transfer { from: Some(caller), to: Some(old(self).recipient), value: amount },
                ),
            ),
    {
        if amount > self.amount_owed {
            return Err(Error::InsufficientDebtAmount);
        }
        let to = self.recipient;
        match self.transfer_from_to(caller, to, amount) {
            Err(e) => Err(e),
            Ok(()) => {
                self.amount_owed = self.amount_owed - amount;
                self.amount_paid = self.amount_paid + amount;
                self.paid = self.amount_owed == 0;
                Ok(())
            },
        }
    }
}

/// Every account's balance is a non-negative quantity at all times, and no
/// single balance exceeds the total in circulation.
pub proof fn lemma_balance_nonnegative(l: IOU, a: AccountId)
    ensures
        l.balance_of_spec(a) >= 0,
        l.balance_of_spec(a) <= l.total_balance(),
{
    lemma_bal_le_total(l.balances@, a);
}

} // verus!
