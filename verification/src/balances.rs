//! The balance store: per-account balances of the fungible unit.
//!
//! The store is an association list from account to balance. An account with
//! no entry holds zero, so lookups never fail. Lookup takes the first entry
//! with the key, and `set` either updates that entry or appends a fresh one,
//! so the first entry for a key is always the authoritative one.

use vstd::prelude::*;

use crate::AccountId;
use crate::Balance;

verus! {

/// Holds one balance per account; absence of an entry means zero.
pub struct BalanceStore {
    pub entries: Vec<(AccountId, Balance)>,
}

/// The balance that `s` records for account `a`: the value of the first entry
/// keyed by `a`, or zero when there is none.
pub open spec fn bal(s: Seq<(AccountId, Balance)>, a: AccountId) -> Balance
    decreases s.len(),
{
    if s.len() == 0 {
        0
    } else if s[0].0 == a {
        s[0].1
    } else {
        bal(s.drop_first(), a)
    }
}

/// The sum of every recorded balance. Transfers must keep it constant;
/// issuance and deposits are the only operations allowed to raise it.
pub open spec fn total(s: Seq<(AccountId, Balance)>) -> int
    decreases s.len(),
{
    if s.len() == 0 {
        0
    } else {
        s[0].1 + total(s.drop_first())
    }
}

/// When the first `i` entries miss `s[i]`'s key, `s[i]` is the authoritative
/// entry for that key.
proof fn lemma_bal_first_match(s: Seq<(AccountId, Balance)>, i: int)
    requires
        0 <= i < s.len(),
        forall|j: int| 0 <= j < i ==> s[j].0 != s[i].0,
    ensures
        bal(s, s[i].0) == s[i].1,
    decreases i,
{
    if i > 0 {
        assert(s.drop_first()[i - 1] == s[i]);
        lemma_bal_first_match(s.drop_first(), i - 1);
    }
}

/// A key that occurs nowhere in `s` holds balance zero.
proof fn lemma_bal_no_match(s: Seq<(AccountId, Balance)>, a: AccountId)
    requires
        forall|j: int| 0 <= j < s.len() ==> s[j].0 != a,
    ensures
        bal(s, a) == 0,
    decreases s.len(),
{
    if s.len() > 0 {
        lemma_bal_no_match(s.drop_first(), a);
    }
}

/// No single balance exceeds the sum of all of them, and the sum is
/// non-negative.
pub proof fn lemma_bal_le_total(s: Seq<(AccountId, Balance)>, a: AccountId)
    ensures
        0 <= bal(s, a),
        bal(s, a) <= total(s),
    decreases s.len(),
{
    if s.len() > 0 {
        lemma_bal_le_total(s.drop_first(), a);
        if s[0].0 != a {
            lemma_bal_le_total(s.drop_first(), s[0].0);
        }
    }
}

/// Overwriting the authoritative entry for a key changes that key's balance,
/// no other, and moves the sum by exactly the difference.
proof fn lemma_bal_update(s: Seq<(AccountId, Balance)>, i: int, v: Balance)
    requires
        0 <= i < s.len(),
        forall|j: int| 0 <= j < i ==> s[j].0 != s[i].0,
    ensures
        bal(s.update(i, (s[i].0, v)), s[i].0) == v,
        forall|b: AccountId|
            b != s[i].0 ==> bal(s.update(i, (s[i].0, v)), b) == bal(s, b),
        total(s.update(i, (s[i].0, v))) == total(s) - s[i].1 + v,
    decreases i,
{
    let t = s.update(i, (s[i].0, v));
    if i == 0 {
        assert(t.drop_first() =~= s.drop_first());
        assert forall|b: AccountId| b != s[i].0 implies bal(t, b) == bal(s, b) by {
            assert(bal(t, b) == bal(t.drop_first(), b));
            assert(bal(s, b) == bal(s.drop_first(), b));
        }
    } else {
        assert(t.drop_first() =~= s.drop_first().update(i - 1, (s[i].0, v)));
        assert(s.drop_first()[i - 1] == s[i]);
        lemma_bal_update(s.drop_first(), i - 1, v);
        assert(bal(t, s[i].0) == bal(t.drop_first(), s[i].0));
        assert forall|b: AccountId| b != s[i].0 implies bal(t, b) == bal(s, b) by {
            if s[0].0 == b {
                assert(bal(t, b) == t[0].1);
                assert(bal(s, b) == s[0].1);
            } else {
                assert(bal(t, b) == bal(t.drop_first(), b));
                assert(bal(s, b) == bal(s.drop_first(), b));
                assert(bal(t.drop_first(), b) == bal(s.drop_first(), b));
            }
        }
    }
}

/// Appending an entry for a key that occurs nowhere in `s` gives that key the
/// appended balance, leaves every other key as it was, and adds the appended
/// balance to the sum.
proof fn lemma_bal_push(s: Seq<(AccountId, Balance)>, a: AccountId, v: Balance)
    requires
        forall|j: int| 0 <= j < s.len() ==> s[j].0 != a,
    ensures
        bal(s.push((a, v)), a) == v,
        forall|b: AccountId| b != a ==> bal(s.push((a, v)), b) == bal(s, b),
        total(s.push((a, v))) == total(s) + v,
    decreases s.len(),
{
    let t = s.push((a, v));
    if s.len() == 0 {
        assert(t.drop_first() =~= Seq::<(AccountId, Balance)>::empty());
        assert(total(t) == t[0].1 + total(t.drop_first()));
        assert forall|b: AccountId| b != a implies bal(t, b) == bal(s, b) by {
            assert(bal(t, b) == bal(t.drop_first(), b));
        }
    } else {
        assert(t.drop_first() =~= s.drop_first().push((a, v)));
        lemma_bal_push(s.drop_first(), a, v);
        assert(bal(t, a) == bal(t.drop_first(), a));
        assert(total(t) == t[0].1 + total(t.drop_first()));
        assert forall|b: AccountId| b != a implies bal(t, b) == bal(s, b) by {
            if s[0].0 == b {
                assert(bal(t, b) == t[0].1);
                assert(bal(s, b) == s[0].1);
            } else {
                assert(bal(t, b) == bal(t.drop_first(), b));
                assert(bal(s, b) == bal(s.drop_first(), b));
                assert(bal(t.drop_first(), b) == bal(s.drop_first(), b));
            }
        }
    }
}

impl View for BalanceStore {
    type V = Seq<(AccountId, Balance)>;

    open spec fn view(&self) -> Seq<(AccountId, Balance)> {
        self.entries@
    }
}

impl BalanceStore {
    /// An empty store: every account holds zero.
    pub fn new() -> (s: BalanceStore)
        ensures
            s@ =~= Seq::<(AccountId, Balance)>::empty(),
            forall|a: AccountId| bal(s@, a) == 0,
            total(s@) == 0,
    {
        BalanceStore { entries: Vec::new() }
    }

    /// The index of the authoritative entry for `a`, if `a` has one.
    fn find(&self, a: AccountId) -> (r: Option<usize>)
        ensures
            match r {
                Some(i) => 0 <= i < self@.len() && self@[i as int].0 == a
                    && (forall|j: int| 0 <= j < i ==> self@[j].0 != a),
                None => forall|j: int| 0 <= j < self@.len() ==> self@[j].0 != a,
            },
    {
        let mut i: usize = 0;
        while i < self.entries.len()
            invariant
                i <= self.entries.len(),
                forall|j: int| 0 <= j < i ==> self.entries@[j].0 != a,
            decreases self.entries.len() - i,
        {
            if self.entries[i].0 == a {
                return Some(i);
            }
            i = i + 1;
        }
        None
    }

    /// The balance held by `a`; zero for an account the store has never seen.
    /// Never fails.
    pub fn get(&self, a: AccountId) -> (r: Balance)
        ensures
            r == bal(self@, a),
    {
        match self.find(a) {
            Some(i) => {
                proof {
                    lemma_bal_first_match(self@, i as int);
                }
                self.entries[i].1
            },
            None => {
                proof {
                    lemma_bal_no_match(self@, a);
                }
                0
            },
        }
    }

    /// Replaces the balance held by `a` with `v`. No other account's balance
    /// moves, and the sum of all balances moves by exactly the difference.
    pub fn set(&mut self, a: AccountId, v: Balance)
        ensures
            bal(final(self)@, a) == v,
            forall|b: AccountId| b != a ==> bal(final(self)@, b) == bal(old(self)@, b),
            total(final(self)@) == total(old(self)@) - bal(old(self)@, a) + v,
    {
        match self.find(a) {
            Some(i) => {
                proof {
                    lemma_bal_first_match(self@, i as int);
                    lemma_bal_update(self@, i as int, v);
                }
                self.entries.set(i, (a, v));
            },
            None => {
                proof {
                    lemma_bal_no_match(self@, a);
                    lemma_bal_push(self@, a, v);
                }
                self.entries.push((a, v));
            },
        }
    }
}

} // verus!
