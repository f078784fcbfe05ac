//! A model of the external account-balance ledger.
//!
//! The transfer engine consumes the ledger as an external service with a
//! single primitive: move N units from one account to another, authorized by
//! the source account's owner, failing on an unknown account, an
//! authorization mismatch or an insufficient balance. This module gives that
//! service a concrete, verified model so the engine can be proved against it
//! and exercised by callers.

use vstd::prelude::*;
use crate::config::AccountId;

verus! {

/// The ways a single ledger move can fail.
#[derive(Clone, Copy, PartialEq, Eq, Structural, Debug)]
pub enum LedgerError {
    /// The source or destination account does not exist.
    UnknownAccount,
    /// The authorizer is not the owner of the source account.
    AuthorizationMismatch,
    /// The source account holds less than the requested amount.
    InsufficientBalance,
    /// The destination balance cannot represent the credited amount.
    BalanceOverflow,
}

/// One account: its key, its controlling owner and its balance.
#[derive(Clone, Copy, PartialEq, Eq, Structural, Debug)]
pub struct AccountEntry {
    pub id: AccountId,
    pub owner: AccountId,
    pub balance: u64,
}

/// The ledger's ids are pairwise distinct.
pub open spec fn unique_ids(s: Seq<AccountEntry>) -> bool {
    forall|i: int, j: int| 0 <= i < j < s.len() ==> s[i].id != s[j].id
}

/// The keyed view of a sequence of accounts.
pub open spec fn entries_as_map(s: Seq<AccountEntry>) -> Map<AccountId, AccountEntry> {
    Map::new(
        |id: AccountId| exists|i: int| 0 <= i < s.len() && s[i].id == id,
        |id: AccountId| s[choose|i: int| 0 <= i < s.len() && s[i].id == id],
    )
}

/// What one ledger move does: the successor map on success, or the exact
/// error on failure. Moving an account onto itself leaves the map unchanged.
pub open spec fn spec_move(
    m: Map<AccountId, AccountEntry>,
    from: AccountId,
    to: AccountId,
    amount: u64,
    authorizer: AccountId,
) -> Result<Map<AccountId, AccountEntry>, LedgerError> {
    if !m.contains_key(from) || !m.contains_key(to) {
        Err(LedgerError::UnknownAccount)
    } else if m[from].owner != authorizer {
        Err(LedgerError::AuthorizationMismatch)
    } else if m[from].balance < amount {
        Err(LedgerError::InsufficientBalance)
    } else if from == to {
        Ok(m)
    } else if m[to].balance + amount > u64::MAX {
        Err(LedgerError::BalanceOverflow)
    } else {
        Ok(
            m.insert(
                from,
                AccountEntry { balance: (m[from].balance - amount) as u64, ..m[from] },
            ).insert(to, AccountEntry { balance: (m[to].balance + amount) as u64, ..m[to] }),
        )
    }
}

/// A keyed store of accounts with a single move primitive.
pub struct Ledger {
    accounts: Vec<AccountEntry>,
}

impl Ledger {
    /// The internal invariant: account ids are pairwise distinct.
    pub closed spec fn wf(&self) -> bool {
        unique_ids(self.accounts@)
    }

    /// The ledger as a map from account id to account.
    pub closed spec fn view(&self) -> Map<AccountId, AccountEntry> {
        entries_as_map(self.accounts@)
    }

    /// An empty ledger.
    pub fn new() -> (l: Ledger)
        ensures
            l.wf(),
            l@ == Map::<AccountId, AccountEntry>::empty(),
    {
        let l = Ledger { accounts: Vec::new() };
        proof {
            assert(l@ =~= Map::<AccountId, AccountEntry>::empty());
        }
        l
    }

    /// A copy of the ledger, used by the transfer engine as the scratch
    /// state of its all-or-nothing commit.
    pub(crate) fn duplicate(&self) -> (r: Ledger)
        ensures
            r@ == self@,
            r.wf() == self.wf(),
    {
        let mut accounts: Vec<AccountEntry> = Vec::new();
        let mut i: usize = 0;
        while i < self.accounts.len()
            invariant
                i <= self.accounts@.len(),
                accounts@ == self.accounts@.take(i as int),
            decreases self.accounts@.len() - i,
        {
            accounts.push(self.accounts[i]);
            proof {
                assert(accounts@ =~= self.accounts@.take(i + 1));
            }
            i = i + 1;
        }
        proof {
            assert(accounts@ =~= self.accounts@);
        }
        Ledger { accounts }
    }

    /// The position of the account with the given id, if any.
    fn find_index(&self, id: AccountId) -> (r: Option<usize>)
        ensures
            match r {
                Some(i) => i < self.accounts@.len() && self.accounts@[i as int].id == id,
                None => forall|i: int|
                    0 <= i < self.accounts@.len() ==> self.accounts@[i].id != id,
            },
    {
        let mut i: usize = 0;
        while i < self.accounts.len()
            invariant
                i <= self.accounts@.len(),
                forall|j: int| 0 <= j < i ==> self.accounts@[j].id != id,
            decreases self.accounts@.len() - i,
        {
            if self.accounts[i].id == id {
                return Some(i);
            }
            i = i + 1;
        }
        None
    }

    /// Whether an account with this id exists.
    pub fn has_account(&self, id: AccountId) -> (b: bool)
        ensures
            b == self@.contains_key(id),
    {
        self.find_index(id).is_some()
    }

    /// The balance of the given account, if it exists.
    pub fn balance_of(&self, id: AccountId) -> (r: Option<u64>)
        requires
            self.wf(),
        ensures
            match r {
                Some(b) => self@.contains_key(id) && b == self@[id].balance,
                None => !self@.contains_key(id),
            },
    {
        match self.find_index(id) {
            Some(i) => {
                proof {
                    lemma_entry_at_index(self.accounts@, i as int);
                }
                Some(self.accounts[i].balance)
            },
            None => None,
        }
    }

    /// Creates an account with the given owner and opening balance. The id
    /// must not be in use yet.
    pub fn open_account(&mut self, id: AccountId, owner: AccountId, balance: u64)
        requires
            old(self).wf(),
            !old(self)@.contains_key(id),
        ensures
            final(self).wf(),
            final(self)@ == old(self)@.insert(id, AccountEntry { id, owner, balance }),
    {
        let ghost s0 = self.accounts@;
        self.accounts.push(AccountEntry { id, owner, balance });
        proof {
            lemma_push_fresh(s0, AccountEntry { id, owner, balance });
        }
    }

    /// Moves `amount` units from one account to another, authorized by the
    /// source account's owner; exactly the behaviour of [`spec_move`], and
    /// on failure the ledger is untouched.
    pub fn move_units(
        &mut self,
        from: AccountId,
        to: AccountId,
        amount: u64,
        authorizer: AccountId,
    ) -> (r: Result<(), LedgerError>)
        requires
            old(self).wf(),
        ensures
            final(self).wf(),
            match r {
                Ok(()) => spec_move(old(self)@, from, to, amount, authorizer) == Ok::<
                    _,
                    LedgerError,
                >(final(self)@),
                Err(e) => spec_move(old(self)@, from, to, amount, authorizer) == Err::<
                    Map<AccountId, AccountEntry>,
                    _,
                >(e) && *final(self) == *old(self),
            },
    {
        let from_idx = match self.find_index(from) {
            Some(i) => i,
            None => {
                return Err(LedgerError::UnknownAccount);
            },
        };
        let to_idx = match self.find_index(to) {
            Some(i) => i,
            None => {
                return Err(LedgerError::UnknownAccount);
            },
        };
        proof {
            lemma_entry_at_index(self.accounts@, from_idx as int);
            lemma_entry_at_index(self.accounts@, to_idx as int);
        }
        let from_entry = self.accounts[from_idx];
        if from_entry.owner != authorizer {
            return Err(LedgerError::AuthorizationMismatch);
        }
        if from_entry.balance < amount {
            return Err(LedgerError::InsufficientBalance);
        }
        if from_idx == to_idx {
            return Ok(());
        }
        let to_entry = self.accounts[to_idx];
        proof {
            // distinct indices carry distinct ids, so this is a cross-account move
            assert(from != to);
        }
        if to_entry.balance > u64::MAX - amount {
            return Err(LedgerError::BalanceOverflow);
        }
        let ghost s0 = self.accounts@;
        self.accounts[from_idx] = AccountEntry { balance: from_entry.balance - amount, ..from_entry };
        proof {
            lemma_update_same_id(s0, from_idx as int, self.accounts@[from_idx as int]);
        }
        let ghost s1 = self.accounts@;
        self.accounts[to_idx] = AccountEntry { balance: to_entry.balance + amount, ..to_entry };
        proof {
            lemma_update_same_id(s1, to_idx as int, self.accounts@[to_idx as int]);
        }
        Ok(())
    }
}

/// With distinct ids, the keyed view maps the id at a position to exactly
/// the entry at that position.
proof fn lemma_entry_at_index(s: Seq<AccountEntry>, i: int)
    requires
        unique_ids(s),
        0 <= i < s.len(),
    ensures
        entries_as_map(s).contains_key(s[i].id),
        entries_as_map(s)[s[i].id] == s[i],
{
    let id = s[i].id;
    assert(exists|j: int| 0 <= j < s.len() && s[j].id == id);
    let j = choose|j: int| 0 <= j < s.len() && s[j].id == id;
    assert(j == i);
}

/// Pushing an entry with a fresh id inserts it into the keyed view.
proof fn lemma_push_fresh(s: Seq<AccountEntry>, e: AccountEntry)
    requires
        unique_ids(s),
        !entries_as_map(s).contains_key(e.id),
    ensures
        unique_ids(s.push(e)),
        entries_as_map(s.push(e)) == entries_as_map(s).insert(e.id, e),
{
    let s2 = s.push(e);
    assert forall|i: int, j: int| 0 <= i < j < s2.len() implies s2[i].id != s2[j].id by {
        if j < s.len() {
            assert(s2[i] == s[i] && s2[j] == s[j]);
        } else {
            assert(s2[j] == e);
            assert(s2[i] == s[i]);
            if s[i].id == e.id {
                assert(entries_as_map(s).contains_key(e.id));
            }
        }
    }
    assert forall|id: AccountId| #[trigger] entries_as_map(s2).contains_key(id) implies
        entries_as_map(s).insert(e.id, e).contains_key(id) && entries_as_map(s2)[id]
        == entries_as_map(s).insert(e.id, e)[id] by {
        if id == e.id {
            lemma_entry_at_index(s2, s.len() as int);
        } else {
            let j = choose|j: int| 0 <= j < s2.len() && s2[j].id == id;
            assert(j < s.len());
            assert(s[j] == s2[j]);
            lemma_entry_at_index(s, j);
            lemma_entry_at_index(s2, j);
        }
    }
    assert forall|id: AccountId| #[trigger] entries_as_map(s).insert(e.id, e).contains_key(id)
        implies entries_as_map(s2).contains_key(id) by {
        if id == e.id {
            lemma_entry_at_index(s2, s.len() as int);
        } else {
            let j = choose|j: int| 0 <= j < s.len() && s[j].id == id;
            assert(s2[j] == s[j]);
            lemma_entry_at_index(s2, j);
        }
    }
    assert(entries_as_map(s2) =~= entries_as_map(s).insert(e.id, e));
}

/// Replacing the entry at a position, keeping its id, updates the keyed view
/// at exactly that id.
proof fn lemma_update_same_id(s: Seq<AccountEntry>, i: int, e: AccountEntry)
    requires
        unique_ids(s),
        0 <= i < s.len(),
        e.id == s[i].id,
    ensures
        unique_ids(s.update(i, e)),
        entries_as_map(s.update(i, e)) == entries_as_map(s).insert(e.id, e),
{
    let s2 = s.update(i, e);
    assert forall|p: int, q: int| 0 <= p < q < s2.len() implies s2[p].id != s2[q].id by {
        assert(s2[p].id == s[p].id && s2[q].id == s[q].id);
    }
    assert forall|id: AccountId| #[trigger] entries_as_map(s2).contains_key(id) implies
        entries_as_map(s).insert(e.id, e).contains_key(id) && entries_as_map(s2)[id]
        == entries_as_map(s).insert(e.id, e)[id] by {
        if id == e.id {
            lemma_entry_at_index(s2, i);
        } else {
            let j = choose|j: int| 0 <= j < s2.len() && s2[j].id == id;
            assert(j != i);
            assert(s[j] == s2[j]);
            lemma_entry_at_index(s, j);
            lemma_entry_at_index(s2, j);
        }
    }
    assert forall|id: AccountId| #[trigger] entries_as_map(s).insert(e.id, e).contains_key(id)
        implies entries_as_map(s2).contains_key(id) by {
        if id == e.id {
            lemma_entry_at_index(s2, i);
        } else {
            let j = choose|j: int| 0 <= j < s.len() && s[j].id == id;
            assert(j != i);
            assert(s2[j] == s[j]);
            lemma_entry_at_index(s2, j);
        }
    }
    assert(entries_as_map(s2) =~= entries_as_map(s).insert(e.id, e));
}

} // verus!
