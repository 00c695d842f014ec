//! The value ledger: every principal's balance, and the atomic transfer
//! capability that purchase settlement and configuration close-out use.
//! A transfer either fully moves the amount or fails with no effect.

use vstd::prelude::*;

use crate::errors::ErrorCode;
use crate::state::PrincipalId;

verus! {

/// One principal's balance.
#[derive(Clone, Copy, Debug, PartialEq, Eq, Structural)]
pub struct Account {
    /// The principal whose balance this is.
    pub owner: PrincipalId,
    /// The value the principal holds.
    pub balance: u64,
}

/// The balance a sequence of accounts gives a principal: the balance of the
/// first account owned by the principal, or zero when the principal owns no
/// account.
pub open spec fn bal_in(s: Seq<Account>, p: PrincipalId) -> int
    decreases s.len(),
{
    if s.len() == 0 {
        0
    } else if s[0].owner == p {
        s[0].balance as int
    } else {
        bal_in(s.drop_first(), p)
    }
}

/// No two accounts share an owner.
pub open spec fn owners_unique(s: Seq<Account>) -> bool {
    forall|i: int, j: int| 0 <= i < j < s.len() ==> s[i].owner != s[j].owner
}

/// The ledger: a balance per principal.  A principal without an account has
/// balance zero; crediting such a principal opens an account for it.
#[derive(Clone, Debug, PartialEq, Eq)]
pub struct Ledger {
    accounts: Vec<Account>,
}

/// With unique owners, the balance of the owner of the account at index `i`
/// is that account's balance.
proof fn lemma_bal_at_index(s: Seq<Account>, i: int)
    requires
        owners_unique(s),
        0 <= i < s.len(),
    ensures
        bal_in(s, s[i].owner) == s[i].balance as int,
    decreases s.len(),
{
    if i > 0 {
        assert(s[0].owner != s[i].owner);
        assert(owners_unique(s.drop_first()));
        lemma_bal_at_index(s.drop_first(), i - 1);
    }
}

/// A principal that owns no account in the sequence has balance zero.
proof fn lemma_bal_absent(s: Seq<Account>, p: PrincipalId)
    requires
        forall|i: int| 0 <= i < s.len() ==> s[i].owner != p,
    ensures
        bal_in(s, p) == 0,
    decreases s.len(),
{
    if s.len() > 0 {
        lemma_bal_absent(s.drop_first(), p);
    }
}

/// Overwriting the balance of the account at index `i` changes only its
/// owner's balance, and keeps owners unique.
proof fn lemma_bal_update(s: Seq<Account>, i: int, b: u64, q: PrincipalId)
    requires
        owners_unique(s),
        0 <= i < s.len(),
    ensures
        owners_unique(s.update(i, Account { owner: s[i].owner, balance: b })),
        bal_in(s.update(i, Account { owner: s[i].owner, balance: b }), q) == if q == s[i].owner {
            b as int
        } else {
            bal_in(s, q)
        },
    decreases s.len(),
{
    let t = s.update(i, Account { owner: s[i].owner, balance: b });
    assert(owners_unique(t)) by {
        assert forall|m: int, n: int| 0 <= m < n < t.len() implies t[m].owner != t[n].owner by {
            assert(t[m].owner == s[m].owner && t[n].owner == s[n].owner);
        }
    }
    if i == 0 {
        assert(t.drop_first() =~= s.drop_first());
        if q != s[0].owner {
            assert(bal_in(t, q) == bal_in(s.drop_first(), q));
        }
    } else {
        assert(t.drop_first() =~= s.drop_first().update(i - 1, Account { owner: s[i].owner, balance: b }));
        assert(owners_unique(s.drop_first()));
        lemma_bal_update(s.drop_first(), i - 1, b, q);
        if q == s[i].owner {
            assert(s[0].owner != s[i].owner);
        }
    }
}

/// Appending an account for a principal that owns none changes only that
/// principal's balance, and keeps owners unique.
proof fn lemma_bal_push(s: Seq<Account>, p: PrincipalId, b: u64, q: PrincipalId)
    requires
        owners_unique(s),
        forall|i: int| 0 <= i < s.len() ==> s[i].owner != p,
    ensures
        owners_unique(s.push(Account { owner: p, balance: b })),
        bal_in(s.push(Account { owner: p, balance: b }), q) == if q == p {
            b as int
        } else {
            bal_in(s, q)
        },
    decreases s.len(),
{
    let t = s.push(Account { owner: p, balance: b });
    assert(owners_unique(t)) by {
        assert forall|m: int, n: int| 0 <= m < n < t.len() implies t[m].owner != t[n].owner by {
            if n < s.len() {
                assert(t[m].owner == s[m].owner && t[n].owner == s[n].owner);
            } else {
                assert(t[m].owner == s[m].owner && t[n].owner == p);
            }
        }
    }
    if s.len() == 0 {
        assert(t.len() == 1);
        assert(t[0] == Account { owner: p, balance: b });
        assert(bal_in(t.drop_first(), q) == 0);
        assert(bal_in(s, q) == 0);
    } else {
        assert(t.drop_first() =~= s.drop_first().push(Account { owner: p, balance: b }));
        assert(owners_unique(s.drop_first()));
        lemma_bal_push(s.drop_first(), p, b, q);
    }
}

impl Ledger {
    /// Owners are unique, so each principal has one well-defined balance.
    pub closed spec fn wf(self) -> bool {
        owners_unique(self.accounts@)
    }

    /// The balance of a principal; zero for one that holds no account.
    pub closed spec fn bal(self, p: PrincipalId) -> int {
        bal_in(self.accounts@, p)
    }

    /// An empty ledger: every principal's balance is zero.
    pub fn new() -> (r: Ledger)
        ensures
            r.wf(),
            forall|p: PrincipalId| r.bal(p) == 0,
    {
        let r = Ledger { accounts: Vec::new() };
        proof {
            assert forall|p: PrincipalId| r.bal(p) == 0 by {
                assert(r.accounts@.len() == 0);
            }
        }
        r
    }

    /// The index of the principal's account, if it has one; relates the
    /// answer to the principal's balance either way.
    fn find(&self, p: PrincipalId) -> (r: Option<usize>)
        requires
            self.wf(),
        ensures
            match r {
                Some(i) => i < self.accounts@.len() && self.accounts@[i as int].owner == p
                    && self.bal(p) == self.accounts@[i as int].balance as int,
                None => {
                    &&& self.bal(p) == 0
                    &&& forall|i: int|
                        0 <= i < self.accounts@.len() ==> self.accounts@[i].owner != p
                },
            },
    {
        let n = self.accounts.len();
        let mut idx: usize = 0;
        while idx < n
            invariant
                n == self.accounts@.len(),
                idx <= n,
                self.wf(),
                forall|j: int| 0 <= j < idx ==> self.accounts@[j].owner != p,
            decreases n - idx,
        {
            if self.accounts[idx].owner == p {
                proof {
                    lemma_bal_at_index(self.accounts@, idx as int);
                }
                return Some(idx);
            }
            idx = idx + 1;
        }
        proof {
            lemma_bal_absent(self.accounts@, p);
        }
        None
    }

    /// The balance of a principal; zero for one that holds no account.
    pub fn balance_of(&self, p: PrincipalId) -> (r: u64)
        requires
            self.wf(),
        ensures
            r as int == self.bal(p),
    {
        match self.find(p) {
            Some(i) => self.accounts[i].balance,
            None => 0,
        }
    }

    /// Sets the principal's balance, changing no other.
    fn set_balance(&mut self, p: PrincipalId, b: u64)
        requires
            old(self).wf(),
        ensures
            final(self).wf(),
            forall|q: PrincipalId|
                final(self).bal(q) == if q == p {
                    b as int
                } else {
                    old(self).bal(q)
                },
    {
        match self.find(p) {
            Some(i) => {
                let ghost s0 = self.accounts@;
                self.accounts[i] = Account { owner: p, balance: b };
                proof {
                    assert forall|q: PrincipalId|
                        self.bal(q) == if q == p {
                            b as int
                        } else {
                            bal_in(s0, q)
                        } by {
                        lemma_bal_update(s0, i as int, b, q);
                    }
                }
            },
            None => {
                let ghost s0 = self.accounts@;
                self.accounts.push(Account { owner: p, balance: b });
                proof {
                    assert forall|q: PrincipalId|
                        self.bal(q) == if q == p {
                            b as int
                        } else {
                            bal_in(s0, q)
                        } by {
                        lemma_bal_push(s0, p, b, q);
                    }
                }
            },
        }
    }

    /// Adds `amount` to the principal's balance, or fails with
    /// `ArithmeticError` and no effect when the new balance would not fit.
    pub fn credit(&mut self, p: PrincipalId, amount: u64) -> (r: Result<(), ErrorCode>)
        requires
            old(self).wf(),
        ensures
            final(self).wf(),
            match r {
                Ok(()) => {
                    &&& old(self).bal(p) + amount <= u64::MAX
                    &&& forall|q: PrincipalId|
                        final(self).bal(q) == old(self).bal(q) + if q == p {
                            amount as int
                        } else {
                            0
                        }
                },
                Err(e) => {
                    &&& old(self).bal(p) + amount > u64::MAX
                    &&& e == ErrorCode::ArithmeticError
                    &&& *final(self) == *old(self)
                },
            },
    {
        let b = self.balance_of(p);
        if b > u64::MAX - amount {
            return Err(ErrorCode::ArithmeticError);
        }
        self.set_balance(p, b + amount);
        Ok(())
    }

    /// Moves `amount` from one principal's balance to another's, atomically:
    /// either both balances change, or the call fails with no effect.
    /// Fails with `InsufficientFunds` when the source balance is below the
    /// amount, and with `ArithmeticError` when the destination balance would
    /// not fit; a transfer from a principal to itself only needs the source
    /// balance to cover the amount, and changes nothing.
    pub fn transfer(&mut self, from: PrincipalId, to: PrincipalId, amount: u64) -> (r: Result<
        (),
        ErrorCode,
    >)
        requires
            old(self).wf(),
        ensures
            final(self).wf(),
            match r {
                Ok(()) => {
                    &&& old(self).bal(from) >= amount
                    &&& from != to ==> old(self).bal(to) + amount <= u64::MAX
                    &&& forall|q: PrincipalId|
                        final(self).bal(q) == old(self).bal(q) + (if q == to {
                            amount as int
                        } else {
                            0
                        }) - (if q == from {
                            amount as int
                        } else {
                            0
                        })
                },
                Err(e) => {
                    &&& *final(self) == *old(self)
                    &&& if old(self).bal(from) < amount {
                        e == ErrorCode::InsufficientFunds
                    } else {
                        from != to && old(self).bal(to) + amount > u64::MAX
                            && e == ErrorCode::ArithmeticError
                    }
                },
            },
    {
        let bf = self.balance_of(from);
        if bf < amount {
            return Err(ErrorCode::InsufficientFunds);
        }
        if from == to {
            return Ok(());
        }
        let bt = self.balance_of(to);
        if bt > u64::MAX - amount {
            return Err(ErrorCode::ArithmeticError);
        }
        self.set_balance(from, bf - amount);
        self.set_balance(to, bt + amount);
        Ok(())
    }
}

} // verus!
