//! The value ledger: balances of a small, fixed number of holders, with
//! minting by the admin and transfers between holders.
use vstd::prelude::*;
use crate::identity::{Identity, zero_bytes};

verus! {

/// Most distinct holders the ledger keeps.
pub const ACCOUNT_CAPACITY: usize = 5;

/// Failures of the value ledger; the call changes nothing.
#[derive(Clone, Copy, Debug, PartialEq, Eq, Structural)]
pub enum LedgerError {
    Unauthorized,
    /// The zero identity cannot hold value.
    InvalidAccount,
    /// A new holder would exceed the capacity.
    NoFreeSlot,
    /// The sender holds no account.
    NoAccount,
    InsufficientBalance,
    Overflow,
    MalformedCommand,
}

/// One holder and its balance.
#[derive(Clone, Copy, Debug)]
pub struct Account {
    pub holder: Identity,
    pub balance: u128,
}

/// Sum of all balances in `s`.
pub open spec fn sum_balances(s: Seq<Account>) -> nat
    decreases s.len(),
{
    if s.len() == 0 {
        0
    } else {
        sum_balances(s.drop_last()) + s.last().balance as nat
    }
}

/// What `who` holds in `s`: the sum of the balances filed under `who`.
pub open spec fn holding(s: Seq<Account>, who: Seq<u8>) -> nat
    decreases s.len(),
{
    if s.len() == 0 {
        0
    } else {
        holding(s.drop_last(), who) + (if s.last().holder@ == who {
            s.last().balance as nat
        } else {
            0nat
        })
    }
}

/// No two accounts of `s` share a holder.
pub open spec fn holders_unique(s: Seq<Account>) -> bool {
    forall|i: int, j: int|
        0 <= i < s.len() && 0 <= j < s.len() && i != j ==> s[i].holder@ != s[j].holder@
}

proof fn lemma_push(s: Seq<Account>, a: Account, who: Seq<u8>)
    ensures
        sum_balances(s.push(a)) == sum_balances(s) + a.balance,
        holding(s.push(a), who) == holding(s, who) + if a.holder@ == who {
            a.balance as nat
        } else {
            0
        },
{
    assert(s.push(a).drop_last() =~= s);
}

proof fn lemma_update(s: Seq<Account>, i: int, a: Account, who: Seq<u8>)
    requires
        0 <= i < s.len(),
    ensures
        sum_balances(s.update(i, a)) + s[i].balance == sum_balances(s) + a.balance,
        holding(s.update(i, a), who) + (if s[i].holder@ == who {
            s[i].balance as nat
        } else {
            0
        }) == holding(s, who) + if a.holder@ == who {
            a.balance as nat
        } else {
            0
        },
    decreases s.len(),
{
    let t = s.update(i, a);
    if i == s.len() - 1 {
        assert(t.drop_last() =~= s.drop_last());
    } else {
        assert(t.drop_last() =~= s.drop_last().update(i, a));
        lemma_update(s.drop_last(), i, a, who);
    }
}

proof fn lemma_holding_at(s: Seq<Account>, i: int)
    requires
        0 <= i < s.len(),
        holders_unique(s),
    ensures
        holding(s, s[i].holder@) == s[i].balance,
    decreases s.len(),
{
    let who = s[i].holder@;
    if i == s.len() - 1 {
        lemma_holding_absent(s.drop_last(), who);
    } else {
        lemma_holding_at(s.drop_last(), i);
    }
}

proof fn lemma_holding_absent(s: Seq<Account>, who: Seq<u8>)
    requires
        forall|k: int| 0 <= k < s.len() ==> s[k].holder@ != who,
    ensures
        holding(s, who) == 0,
    decreases s.len(),
{
    if s.len() > 0 {
        lemma_holding_absent(s.drop_last(), who);
    }
}

/// Two different holders together hold at most the supply.
proof fn lemma_two_within_sum(s: Seq<Account>, a: Seq<u8>, b: Seq<u8>)
    requires
        a != b,
    ensures
        holding(s, a) + holding(s, b) <= sum_balances(s),
    decreases s.len(),
{
    if s.len() > 0 {
        lemma_two_within_sum(s.drop_last(), a, b);
    }
}

/// The ledger's state.
#[derive(Clone, Debug)]
pub struct ValueLedger {
    pub admin: Identity,
    pub total_supply: u128,
    pub accounts: Vec<Account>,
}

impl ValueLedger {
    /// The ledger's invariant: at most `ACCOUNT_CAPACITY` accounts, one per
    /// non-zero holder, and the supply is the sum of the balances.
    pub open spec fn wf(self) -> bool {
        &&& self.accounts@.len() <= ACCOUNT_CAPACITY
        &&& holders_unique(self.accounts@)
        &&& forall|k: int| 0 <= k < self.accounts@.len() ==> self.accounts@[k].holder@ != zero_bytes()
        &&& self.total_supply == sum_balances(self.accounts@)
    }

    /// What `who` holds.
    pub open spec fn balance(self, who: Seq<u8>) -> nat {
        holding(self.accounts@, who)
    }

    /// Whether `who` has an account.
    pub open spec fn has_account(self, who: Seq<u8>) -> bool {
        exists|k: int| 0 <= k < self.accounts@.len() && self.accounts@[k].holder@ == who
    }

    /// Whether a new holder can be added.
    pub open spec fn has_room(self) -> bool {
        self.accounts@.len() < ACCOUNT_CAPACITY
    }

    /// An empty ledger administered by `admin`.
    pub fn new(admin: Identity) -> (r: ValueLedger)
        ensures
            r.wf(),
            r.admin == admin,
            r.total_supply == 0,
            r.accounts@.len() == 0,
            forall|w: Seq<u8>| !r.has_account(w) && r.balance(w) == 0,
    {
        ValueLedger { admin, total_supply: 0, accounts: Vec::new() }
    }

    /// The position of `who`'s account, if it has one.
    fn find(&self, who: &Identity) -> (r: Option<usize>)
        ensures
            r matches Some(i) ==> i < self.accounts@.len() && self.accounts@[i as int].holder@
                == who@,
            r is None ==> forall|k: int|
                0 <= k < self.accounts@.len() ==> self.accounts@[k].holder@ != who@,
    {
        let mut i: usize = 0;
        while i < self.accounts.len()
            invariant
                i <= self.accounts@.len(),
                forall|k: int| 0 <= k < i ==> self.accounts@[k].holder@ != who@,
            decreases self.accounts@.len() - i,
        {
            if self.accounts[i].holder.same_as(who) {
                return Some(i);
            }
            i = i + 1;
        }
        None
    }

    /// What `who` holds; zero without an account.
    pub fn balance_of(&self, who: &Identity) -> (r: u128)
        requires
            self.wf(),
        ensures
            r == self.balance(who@),
    {
        match self.find(who) {
            Some(i) => {
                proof {
                    lemma_holding_at(self.accounts@, i as int);
                }
                self.accounts[i].balance
            },
            None => {
                proof {
                    lemma_holding_absent(self.accounts@, who@);
                }
                0
            },
        }
    }

    /// The ledger after `amount` reached `to`: it gains the amount and an
    /// account if it had none.
    pub open spec fn credited(self, next: ValueLedger, to: Seq<u8>, amount: u128) -> bool {
        &&& next.admin == self.admin
        &&& forall|w: Seq<u8>| #[trigger]
            next.balance(w) == self.balance(w) + if w == to {
                amount as nat
            } else {
                0
            }
        &&& forall|w: Seq<u8>| self.has_account(w) ==> #[trigger] next.has_account(w)
        &&& next.has_account(to)
        &&& next.accounts@.len() == self.accounts@.len() + if self.has_account(to) {
            0int
        } else {
            1int
        }
    }

    /// `next` is this ledger after minting `amount` for `to`.
    pub open spec fn minted(self, next: ValueLedger, to: Seq<u8>, amount: u128) -> bool {
        &&& self.credited(next, to, amount)
        &&& next.total_supply == self.total_supply + amount
    }

    /// `next` is this ledger after `caller` moved `amount` to `to`.
    pub open spec fn transferred(self, next: ValueLedger, caller: Seq<u8>, to: Seq<u8>, amount: u128) -> bool {
        &&& next.total_supply == self.total_supply
        &&& next.admin == self.admin
        &&& forall|w: Seq<u8>| #[trigger]
            next.balance(w) == if caller == to {
                self.balance(w) as int
            } else if w == caller {
                self.balance(w) - amount
            } else if w == to {
                self.balance(w) + amount
            } else {
                self.balance(w) as int
            }
        &&& forall|w: Seq<u8>| self.has_account(w) ==> #[trigger] next.has_account(w)
        &&& next.has_account(to)
    }

    /// The outcome of `mint`.
    pub open spec fn mint_result(self, caller: Seq<u8>, to: Seq<u8>, amount: u128) -> Result<(), LedgerError> {
        if caller != self.admin@ {
            Err(LedgerError::Unauthorized)
        } else if to == zero_bytes() {
            Err(LedgerError::InvalidAccount)
        } else if !self.has_account(to) && !self.has_room() {
            Err(LedgerError::NoFreeSlot)
        } else if self.total_supply + amount > u128::MAX {
            Err(LedgerError::Overflow)
        } else {
            Ok(())
        }
    }

    /// Creates `amount` new value for `to`; admin only.
    pub fn mint(&mut self, caller: &Identity, to: &Identity, amount: u128) -> (r: Result<(), LedgerError>)
        requires
            old(self).wf(),
        ensures
            r == old(self).mint_result(caller@, to@, amount),
            r is Ok ==> old(self).minted(*final(self), to@, amount),
            r is Err ==> *final(self) == *old(self),
            final(self).wf(),
    {
        if !caller.same_as(&self.admin) {
            return Err(LedgerError::Unauthorized);
        }
        if to.is_zero() {
            return Err(LedgerError::InvalidAccount);
        }
        let found = self.find(to);
        if found.is_none() && self.accounts.len() >= ACCOUNT_CAPACITY {
            return Err(LedgerError::NoFreeSlot);
        }
        let supply = match self.total_supply.checked_add(amount) {
            Some(x) => x,
            None => return Err(LedgerError::Overflow),
        };
        self.total_supply = supply;
        self.credit(to, found, amount);
        Ok(())
    }

    /// Adds `amount` to `to`'s account at `found`, or opens one.
    fn credit(&mut self, to: &Identity, found: Option<usize>, amount: u128)
        requires
            to@ != zero_bytes(),
            holders_unique(old(self).accounts@),
            forall|k: int|
                0 <= k < old(self).accounts@.len() ==> old(self).accounts@[k].holder@ != zero_bytes(),
            sum_balances(old(self).accounts@) + amount <= u128::MAX,
            found matches Some(i) ==> i < old(self).accounts@.len() && old(self).accounts@[i as int].holder@
                == to@,
            found is None ==> old(self).accounts@.len() < ACCOUNT_CAPACITY && forall|k: int|
                0 <= k < old(self).accounts@.len() ==> old(self).accounts@[k].holder@ != to@,
        ensures
            old(self).credited(*final(self), to@, amount),
            final(self).total_supply == old(self).total_supply,
            final(self).admin == old(self).admin,
            holders_unique(final(self).accounts@),
            forall|k: int|
                0 <= k < final(self).accounts@.len() ==> final(self).accounts@[k].holder@ != zero_bytes(),
            sum_balances(final(self).accounts@) == sum_balances(old(self).accounts@) + amount,
            final(self).accounts@.len() <= ACCOUNT_CAPACITY || final(self).accounts@.len()
                == old(self).accounts@.len(),
    {
        let ghost s = self.accounts@;
        match found {
            Some(i) => {
                let a = self.accounts[i];
                proof {
                    lemma_holding_at(s, i as int);
                    lemma_two_within_sum(s, to@, zero_bytes());
                }
                let b = Account { holder: a.holder, balance: a.balance + amount };
                self.accounts.set(i, b);
                proof {
                    assert forall|w: Seq<u8>| #[trigger]
                        holding(self.accounts@, w) == holding(s, w) + if w == to@ {
                            amount as nat
                        } else {
                            0
                        } by {
                        lemma_update(s, i as int, b, w);
                    }
                    lemma_update(s, i as int, b, to@);
                    assert(self.accounts@[i as int].holder@ == to@);
                    assert forall|w: Seq<u8>|
                        old(self).has_account(w) implies #[trigger] self.has_account(w) by {
                        let k = choose|k: int| 0 <= k < s.len() && s[k].holder@ == w;
                        assert(self.accounts@[k].holder@ == w);
                    }
                    assert(old(self).has_account(to@));
                }
            },
            None => {
                let b = Account { holder: *to, balance: amount };
                self.accounts.push(b);
                proof {
                    assert(self.accounts@ == s.push(b));
                    assert forall|w: Seq<u8>| #[trigger]
                        holding(self.accounts@, w) == holding(s, w) + if w == to@ {
                            amount as nat
                        } else {
                            0
                        } by {
                        lemma_push(s, b, w);
                    }
                    lemma_push(s, b, to@);
                    assert(self.accounts@[s.len() as int].holder@ == to@);
                    assert forall|w: Seq<u8>|
                        old(self).has_account(w) implies #[trigger] self.has_account(w) by {
                        let k = choose|k: int| 0 <= k < s.len() && s[k].holder@ == w;
                        assert(self.accounts@[k].holder@ == w);
                    }
                    assert(!old(self).has_account(to@));
                }
            },
        }
    }

    /// The outcome of `transfer`.
    pub open spec fn transfer_result(self, caller: Seq<u8>, to: Seq<u8>, amount: u128) -> Result<(), LedgerError> {
        if !self.has_account(caller) {
            Err(LedgerError::NoAccount)
        } else if self.balance(caller) < amount {
            Err(LedgerError::InsufficientBalance)
        } else if to == zero_bytes() {
            Err(LedgerError::InvalidAccount)
        } else if caller != to && !self.has_account(to) && !self.has_room() {
            Err(LedgerError::NoFreeSlot)
        } else {
            Ok(())
        }
    }

    /// Moves `amount` from the caller's account to `to`, opening an account
    /// for `to` if it has none. A transfer to oneself changes nothing.
    pub fn transfer(&mut self, caller: &Identity, to: &Identity, amount: u128) -> (r: Result<(), LedgerError>)
        requires
            old(self).wf(),
        ensures
            r == old(self).transfer_result(caller@, to@, amount),
            r is Ok ==> old(self).transferred(*final(self), caller@, to@, amount),
            r is Err ==> *final(self) == *old(self),
            final(self).wf(),
    {
        let i = match self.find(caller) {
            Some(i) => i,
            None => return Err(LedgerError::NoAccount),
        };
        let a = self.accounts[i];
        proof {
            lemma_holding_at(self.accounts@, i as int);
        }
        if a.balance < amount {
            return Err(LedgerError::InsufficientBalance);
        }
        if to.is_zero() {
            return Err(LedgerError::InvalidAccount);
        }
        if to.same_as(caller) {
            return Ok(());
        }
        let found = self.find(to);
        if found.is_none() && self.accounts.len() >= ACCOUNT_CAPACITY {
            return Err(LedgerError::NoFreeSlot);
        }
        let ghost s = self.accounts@;
        let ghost before = *self;
        let b = Account { holder: a.holder, balance: a.balance - amount };
        self.accounts.set(i, b);
        proof {
            assert(self.accounts@ == s.update(i as int, b));
            lemma_update(s, i as int, b, caller@);
            assert forall|w: Seq<u8>| #[trigger]
                holding(self.accounts@, w) == if w == caller@ {
                    (holding(s, w) - amount) as nat
                } else {
                    holding(s, w)
                } by {
                lemma_update(s, i as int, b, w);
            }
            assert forall|k: int| 0 <= k < s.len() implies #[trigger] self.accounts@[k].holder@
                == s[k].holder@ by {}
            assert forall|w: Seq<u8>|
                before.has_account(w) implies #[trigger] self.has_account(w) by {
                let k = choose|k: int| 0 <= k < s.len() && s[k].holder@ == w;
                assert(self.accounts@[k].holder@ == w);
            }
        }
        self.credit(to, found, amount);
        Ok(())
    }
}

} // verus!
