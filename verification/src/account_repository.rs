use vstd::prelude::*;

use std::collections::HashMap;

use vstd::std_specs::iter::IteratorSpec;

use crate::account::{Account, AccountId};

verus! {

broadcast use vstd::std_specs::hash::group_hash_axioms;

/// Key-value store from account identifier to the account's current
/// snapshot. Storing is an unconditional upsert keyed by the account's own
/// identifier; nothing is ever deleted.
pub struct AccountRepository {
    pub accounts: HashMap<AccountId, Account>,
}

impl View for AccountRepository {
    type V = Map<AccountId, Account>;

    open spec fn view(&self) -> Map<AccountId, Account> {
        self.accounts@
    }
}

impl AccountRepository {
    /// Every stored account sits under its own identifier.
    pub open spec fn wf(&self) -> bool {
        forall|k: AccountId| self@.contains_key(k) ==> (#[trigger] self@[k]).spec_id() == k
    }

    /// An empty store.
    pub fn new() -> (r: AccountRepository)
        ensures
            r@ == Map::<AccountId, Account>::empty(),
            r.wf(),
    {
        AccountRepository { accounts: HashMap::new() }
    }

    /// The current snapshot stored under `account_id`, if any.
    pub fn find(&self, account_id: AccountId) -> (r: Option<&Account>)
        ensures
            match r {
                Some(account) => self@.contains_key(account_id) && *account == self@[account_id],
                None => !self@.contains_key(account_id),
            },
    {
        self.accounts.get(&account_id)
    }

    /// Upsert the account under its own identifier.
    pub fn store(&mut self, account: Account)
        ensures
            final(self)@ == old(self)@.insert(account.spec_id(), account),
            old(self).wf() ==> final(self).wf(),
    {
        let id = account.id();
        self.accounts.insert(id, account);
        proof {
            if old(self).wf() {
                assert forall|k: AccountId| self@.contains_key(k) implies (
                #[trigger] self@[k]).spec_id() == k by {
                    if k != account.spec_id() {
                        assert(old(self)@.contains_key(k));
                    }
                }
            }
        }
    }

    /// A snapshot of all current accounts, in no particular order: one entry
    /// per stored account, each equal to the stored snapshot.
    pub fn all(&self) -> (r: Vec<Account>)
        requires
            self.wf(),
        ensures
            r@.len() == self@.dom().len(),
            forall|i: int|
                0 <= i < r@.len() ==> self@.contains_key((#[trigger] r@[i]).spec_id())
                    && self@[r@[i].spec_id()] == r@[i],
            forall|i: int, j: int|
                0 <= i < j < r@.len() ==> r@[i].spec_id() != r@[j].spec_id(),
            forall|k: AccountId| #[trigger]
                self@.contains_key(k) ==> r@.contains(self@[k]),
    {
        let ghost gs: Seq<(&AccountId, &Account)> = vstd::std_specs::hash::spec_hash_map_iter(
            &self.accounts,
        ).remaining();
        let mut r: Vec<Account> = Vec::new();
        for pair in it: self.accounts.iter()
            invariant
                it.seq() == gs,
                gs.no_duplicates(),
                gs.len() == self@.dom().len(),
                forall|i: int|
                    0 <= i < gs.len() ==> self@.contains_key(*(#[trigger] gs[i]).0)
                        && self@[*gs[i].0] == *gs[i].1,
                forall|k: AccountId| #[trigger]
                    self@.contains_key(k) ==> gs.contains((&k, &self@[k])),
                self.wf(),
                r@.len() == it.index(),
                forall|i: int| 0 <= i < it.index() ==> r@[i] == *(#[trigger] gs[i]).1,
        {
            r.push(*pair.1);
        }
        proof {
            assert(r@.len() == gs.len());
            assert forall|i: int|
                0 <= i < r@.len() implies self@.contains_key((#[trigger] r@[i]).spec_id())
                && self@[r@[i].spec_id()] == r@[i] by {
                assert(r@[i] == *gs[i].1);
                assert(self@.contains_key(*gs[i].0));
                assert(self@[*gs[i].0] == *gs[i].1);
            }
            assert forall|i: int, j: int|
                0 <= i < j < r@.len() implies r@[i].spec_id() != r@[j].spec_id() by {
                assert(r@[i] == *gs[i].1);
                assert(r@[j] == *gs[j].1);
                if r@[i].spec_id() == r@[j].spec_id() {
                    assert(*gs[i].0 == r@[i].spec_id());
                    assert(*gs[j].0 == r@[j].spec_id());
                    assert(gs[i] == gs[j]);
                }
            }
            assert forall|k: AccountId| #[trigger]
                self@.contains_key(k) implies r@.contains(self@[k]) by {
                assert(gs.contains((&k, &self@[k])));
                let i = choose|i: int| 0 <= i < gs.len() && gs[i] == (&k, &self@[k]);
                assert(r@[i] == self@[k]);
            }
        }
        r
    }
}

} // verus!
