//! The allowance store: per-(owner, spender) delegated spending limits.
//!
//! An association list keyed by the ordered pair (owner, spender); a pair with
//! no entry is allowed zero. The slot serves two write paths: the classic
//! spend authorization an owner grants before a spender acts, and the
//! debt-audit record that a successful transfer overwrites with the value just
//! moved. No decrement-only rule holds at this layer; the transfer engine does
//! the arithmetic before writing.

use vstd::prelude::*;

use crate::AccountId;
use crate::Balance;

verus! {

/// Holds one limit per ordered (owner, spender) pair; absence means zero.
pub struct AllowanceStore {
    pub entries: Vec<(AccountId, AccountId, Balance)>,
}

/// The allowance that `s` records for the pair (`owner`, `spender`): the value
/// of the first entry keyed by that pair, or zero when there is none.
pub open spec fn allowance_in(
    s: Seq<(AccountId, AccountId, Balance)>,
    owner: AccountId,
    spender: AccountId,
) -> Balance
    decreases s.len(),
{
    if s.len() == 0 {
        0
    } else if s[0].0 == owner && s[0].1 == spender {
        s[0].2
    } else {
        allowance_in(s.drop_first(), owner, spender)
    }
}

/// When the first `i` entries miss `s[i]`'s pair, `s[i]` is the authoritative
/// entry for that pair.
proof fn lemma_allowance_first_match(s: Seq<(AccountId, AccountId, Balance)>, i: int)
    requires
        0 <= i < s.len(),
        forall|j: int| 0 <= j < i ==> !(s[j].0 == s[i].0 && s[j].1 == s[i].1),
    ensures
        allowance_in(s, s[i].0, s[i].1) == s[i].2,
    decreases i,
{
    if i > 0 {
        assert(s.drop_first()[i - 1] == s[i]);
        lemma_allowance_first_match(s.drop_first(), i - 1);
    }
}

/// A pair that occurs nowhere in `s` is allowed zero.
proof fn lemma_allowance_no_match(
    s: Seq<(AccountId, AccountId, Balance)>,
    owner: AccountId,
    spender: AccountId,
)
    requires
        forall|j: int| 0 <= j < s.len() ==> !(s[j].0 == owner && s[j].1 == spender),
    ensures
        allowance_in(s, owner, spender) == 0,
    decreases s.len(),
{
    if s.len() > 0 {
        lemma_allowance_no_match(s.drop_first(), owner, spender);
    }
}

/// Overwriting the authoritative entry for a pair changes that pair's
/// allowance and no other.
proof fn lemma_allowance_update(s: Seq<(AccountId, AccountId, Balance)>, i: int, v: Balance)
    requires
        0 <= i < s.len(),
        forall|j: int| 0 <= j < i ==> !(s[j].0 == s[i].0 && s[j].1 == s[i].1),
    ensures
        allowance_in(s.update(i, (s[i].0, s[i].1, v)), s[i].0, s[i].1) == v,
        forall|o: AccountId, p: AccountId|
            !(o == s[i].0 && p == s[i].1) ==> allowance_in(
                s.update(i, (s[i].0, s[i].1, v)),
                o,
                p,
            ) == allowance_in(s, o, p),
    decreases i,
{
    let t = s.update(i, (s[i].0, s[i].1, v));
    if i == 0 {
        assert(t.drop_first() =~= s.drop_first());
        assert forall|o: AccountId, p: AccountId| !(o == s[i].0 && p == s[i].1) implies
            allowance_in(t, o, p) == allowance_in(s, o, p) by {
            assert(allowance_in(t, o, p) == allowance_in(t.drop_first(), o, p));
            assert(allowance_in(s, o, p) == allowance_in(s.drop_first(), o, p));
        }
    } else {
        assert(t.drop_first() =~= s.drop_first().update(i - 1, (s[i].0, s[i].1, v)));
        assert(s.drop_first()[i - 1] == s[i]);
        lemma_allowance_update(s.drop_first(), i - 1, v);
        assert(allowance_in(t, s[i].0, s[i].1) == allowance_in(t.drop_first(), s[i].0, s[i].1));
        assert forall|o: AccountId, p: AccountId| !(o == s[i].0 && p == s[i].1) implies
            allowance_in(t, o, p) == allowance_in(s, o, p) by {
            if s[0].0 == o && s[0].1 == p {
                assert(allowance_in(t, o, p) == t[0].2);
                assert(allowance_in(s, o, p) == s[0].2);
            } else {
                assert(allowance_in(t, o, p) == allowance_in(t.drop_first(), o, p));
                assert(allowance_in(s, o, p) == allowance_in(s.drop_first(), o, p));
                assert(allowance_in(t.drop_first(), o, p) == allowance_in(s.drop_first(), o, p));
            }
        }
    }
}

/// Appending an entry for a pair that occurs nowhere in `s` gives that pair
/// the appended allowance and leaves every other pair as it was.
proof fn lemma_allowance_push(
    s: Seq<(AccountId, AccountId, Balance)>,
    owner: AccountId,
    spender: AccountId,
    v: Balance,
)
    requires
        forall|j: int| 0 <= j < s.len() ==> !(s[j].0 == owner && s[j].1 == spender),
    ensures
        allowance_in(s.push((owner, spender, v)), owner, spender) == v,
        forall|o: AccountId, p: AccountId|
            !(o == owner && p == spender) ==> allowance_in(
                s.push((owner, spender, v)),
                o,
                p,
            ) == allowance_in(s, o, p),
    decreases s.len(),
{
    let t = s.push((owner, spender, v));
    if s.len() == 0 {
        assert(t.drop_first() =~= Seq::<(AccountId, AccountId, Balance)>::empty());
        assert forall|o: AccountId, p: AccountId| !(o == owner && p == spender) implies
            allowance_in(t, o, p) == allowance_in(s, o, p) by {
            assert(allowance_in(t, o, p) == allowance_in(t.drop_first(), o, p));
        }
    } else {
        assert(t.drop_first() =~= s.drop_first().push((owner, spender, v)));
        lemma_allowance_push(s.drop_first(), owner, spender, v);
        assert(allowance_in(t, owner, spender) == allowance_in(t.drop_first(), owner, spender));
        assert forall|o: AccountId, p: AccountId| !(o == owner && p == spender) implies
            allowance_in(t, o, p) == allowance_in(s, o, p) by {
            if s[0].0 == o && s[0].1 == p {
                assert(allowance_in(t, o, p) == t[0].2);
                assert(allowance_in(s, o, p) == s[0].2);
            } else {
                assert(allowance_in(t, o, p) == allowance_in(t.drop_first(), o, p));
                assert(allowance_in(s, o, p) == allowance_in(s.drop_first(), o, p));
                assert(allowance_in(t.drop_first(), o, p) == allowance_in(s.drop_first(), o, p));
            }
        }
    }
}

impl View for AllowanceStore {
    type V = Seq<(AccountId, AccountId, Balance)>;

    open spec fn view(&self) -> Seq<(AccountId, AccountId, Balance)> {
        self.entries@
    }
}

impl AllowanceStore {
    /// An empty store: every pair is allowed zero.
    pub fn new() -> (s: AllowanceStore)
        ensures
            s@ =~= Seq::<(AccountId, AccountId, Balance)>::empty(),
            forall|o: AccountId, p: AccountId| allowance_in(s@, o, p) == 0,
    {
        AllowanceStore { entries: Vec::new() }
    }

    /// The index of the authoritative entry for the pair, if it has one.
    fn find(&self, owner: AccountId, spender: AccountId) -> (r: Option<usize>)
        ensures
            match r {
                Some(i) => 0 <= i < self@.len() && self@[i as int].0 == owner
                    && self@[i as int].1 == spender
                    && (forall|j: int|
                        0 <= j < i ==> !(self@[j].0 == owner && self@[j].1 == spender)),
                None => forall|j: int|
                    0 <= j < self@.len() ==> !(self@[j].0 == owner && self@[j].1 == spender),
            },
    {
        let mut i: usize = 0;
        while i < self.entries.len()
            invariant
                i <= self.entries.len(),
                forall|j: int|
                    0 <= j < i ==> !(self.entries@[j].0 == owner && self.entries@[j].1 == spender),
            decreases self.entries.len() - i,
        {
            if self.entries[i].0 == owner && self.entries[i].1 == spender {
                return Some(i);
            }
            i = i + 1;
        }
        None
    }

    /// The amount `spender` may still move out of `owner`'s balance; zero for
    /// a pair the store has never seen. Never fails.
    pub fn get(&self, owner: AccountId, spender: AccountId) -> (r: Balance)
        ensures
            r == allowance_in(self@, owner, spender),
    {
        match self.find(owner, spender) {
            Some(i) => {
                proof {
                    lemma_allowance_first_match(self@, i as int);
                }
                self.entries[i].2
            },
            None => {
                proof {
                    lemma_allowance_no_match(self@, owner, spender);
                }
                0
            },
        }
    }

    /// Replaces the allowance of the pair with `v`; no other pair's allowance
    /// moves.
    pub fn set(&mut self, owner: AccountId, spender: AccountId, v: Balance)
        ensures
            allowance_in(final(self)@, owner, spender) == v,
            forall|o: AccountId, p: AccountId|
                !(o == owner && p == spender) ==> allowance_in(final(self)@, o, p)
                    == allowance_in(old(self)@, o, p),
    {
        match self.find(owner, spender) {
            Some(i) => {
                proof {
                    lemma_allowance_first_match(self@, i as int);
                    lemma_allowance_update(self@, i as int, v);
                }
                self.entries.set(i, (owner, spender, v));
            },
            None => {
                proof {
                    lemma_allowance_no_match(self@, owner, spender);
                    lemma_allowance_push(self@, owner, spender, v);
                }
                self.entries.push((owner, spender, v));
            },
        }
    }
}

} // verus!
