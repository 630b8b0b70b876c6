use vstd::prelude::*;

use std::collections::HashMap;

use crate::transaction::{Transaction, TransactionId};

verus! {

broadcast use vstd::std_specs::hash::group_hash_axioms;

/// Key-value store from transaction identifier to the transaction's current
/// lifecycle snapshot. Storing is an unconditional upsert keyed by the
/// transaction's own identifier; nothing is ever deleted.
pub struct TransactionRepository {
    pub transactions: HashMap<TransactionId, Transaction>,
}

impl View for TransactionRepository {
    type V = Map<TransactionId, Transaction>;

    open spec fn view(&self) -> Map<TransactionId, Transaction> {
        self.transactions@
    }
}

impl TransactionRepository {
    /// Every stored transaction sits under its own identifier.
    pub open spec fn wf(&self) -> bool {
        forall|k: TransactionId| self@.contains_key(k) ==> (#[trigger] self@[k]).spec_id() == k
    }

    /// An empty store.
    pub fn new() -> (r: TransactionRepository)
        ensures
            r@ == Map::<TransactionId, Transaction>::empty(),
            r.wf(),
    {
        TransactionRepository { transactions: HashMap::new() }
    }

    /// The current snapshot stored under `transaction_id`, if any.
    pub fn find(&self, transaction_id: TransactionId) -> (r: Option<&Transaction>)
        ensures
            match r {
                Some(transaction) => self@.contains_key(transaction_id) && *transaction
                    == self@[transaction_id],
                None => !self@.contains_key(transaction_id),
            },
    {
        self.transactions.get(&transaction_id)
    }

    /// Upsert the transaction under its own identifier.
    pub fn store(&mut self, transaction: Transaction)
        ensures
            final(self)@ == old(self)@.insert(transaction.spec_id(), transaction),
            old(self).wf() ==> final(self).wf(),
    {
        let id = transaction.id();
        self.transactions.insert(id, transaction);
        proof {
            if old(self).wf() {
                assert forall|k: TransactionId| self@.contains_key(k) implies (
                #[trigger] self@[k]).spec_id() == k by {
                    if k != transaction.spec_id() {
                        assert(old(self)@.contains_key(k));
                    }
                }
            }
        }
    }
}

} // verus!
