use vstd::prelude::*;

use crate::amount::{in_amount_range, Amount};
use crate::transaction::{DepositTransaction, WithdrawalTransaction};

verus! {

/// Identifier of a client account, externally supplied and stable for the
/// life of the account.
pub type AccountId = u16;

/// A client account, variant over its lifecycle: an `Active` account accepts
/// deposits, withdrawals and disputes; a `Frozen` account is terminal and
/// rejects every further mutating operation. `Active` becomes `Frozen` only
/// through a chargeback and nothing reverses it.
#[derive(Clone, Copy, Debug, PartialEq, Eq, Structural)]
pub enum Account {
    Active(ActiveAccount),
    Frozen(FrozenAccount),
}

impl Account {
    /// The account's identifier, whichever lifecycle state it is in.
    pub open spec fn spec_id(&self) -> AccountId {
        match self {
            Account::Active(active_account) => active_account.id,
            Account::Frozen(frozen_account) => frozen_account.id,
        }
    }

    /// Funds immediately eligible for withdrawal, as a count of 1/10000 units.
    pub open spec fn spec_available(&self) -> int {
        match self {
            Account::Active(active_account) => active_account.available_amount@,
            Account::Frozen(frozen_account) => frozen_account.available_amount@,
        }
    }

    /// Funds earmarked by open disputes, as a count of 1/10000 units.
    pub open spec fn spec_held(&self) -> int {
        match self {
            Account::Active(active_account) => active_account.held_amount@,
            Account::Frozen(frozen_account) => frozen_account.held_amount@,
        }
    }

    /// Total funds: the total amount of an account is always the sum of its
    /// available and held amounts.
    pub open spec fn spec_total(&self) -> int {
        self.spec_available() + self.spec_held()
    }

    #[verifier::when_used_as_spec(spec_id)]
    pub fn id(&self) -> (r: AccountId)
        ensures
            r == self.spec_id(),
    {
        match self {
            Account::Active(active_account) => active_account.id,
            Account::Frozen(frozen_account) => frozen_account.id,
        }
    }

    pub fn available_amount(&self) -> (r: Amount)
        ensures
            r@ == self.spec_available(),
    {
        match self {
            Account::Active(active_account) => active_account.available_amount,
            Account::Frozen(frozen_account) => frozen_account.available_amount,
        }
    }

    pub fn held_amount(&self) -> (r: Amount)
        ensures
            r@ == self.spec_held(),
    {
        match self {
            Account::Active(active_account) => active_account.held_amount,
            Account::Frozen(frozen_account) => frozen_account.held_amount,
        }
    }

    /// The observable total. For every account, at every observation point,
    /// the total equals available plus held.
    pub fn total_amount(&self) -> (r: Amount)
        requires
            in_amount_range(self.spec_total()),
        ensures
            r@ == self.spec_available() + self.spec_held(),
    {
        match self {
            Account::Active(active_account) => active_account.total_amount(),
            Account::Frozen(frozen_account) => frozen_account.total_amount(),
        }
    }

    /// Whether the account is in the terminal `Frozen` state.
    pub fn is_locked(&self) -> (r: bool)
        ensures
            r == (*self is Frozen),
    {
        match self {
            Account::Active(_) => false,
            Account::Frozen(_) => true,
        }
    }
}

/// An account eligible for deposits, withdrawals and disputes.
#[derive(Clone, Copy, Debug, PartialEq, Eq, Structural)]
pub struct ActiveAccount {
    pub id: AccountId,
    pub available_amount: Amount,
    pub held_amount: Amount,
}

impl ActiveAccount {
    /// A fresh account with zero balances, materialized lazily the first time
    /// a request durably references an unknown identifier.
    pub fn new(account_id: AccountId) -> (r: ActiveAccount)
        ensures
            r.id == account_id,
            r.available_amount@ == 0,
            r.held_amount@ == 0,
    {
        ActiveAccount { id: account_id, available_amount: Amount::zero(), held_amount: Amount::zero() }
    }

    pub fn id(&self) -> (r: AccountId)
        ensures
            r == self.id,
    {
        self.id
    }

    pub fn total_amount(&self) -> (r: Amount)
        requires
            in_amount_range(self.available_amount@ + self.held_amount@),
        ensures
            r@ == self.available_amount@ + self.held_amount@,
    {
        self.available_amount.plus(&self.held_amount)
    }

    /// Credit the deposited amount to the available funds.
    pub fn deposit(&self, transaction: &DepositTransaction) -> (r: ActiveAccount)
        requires
            in_amount_range(self.available_amount@ + transaction.amount@),
        ensures
            r.id == self.id,
            r.available_amount@ == self.available_amount@ + transaction.amount@,
            r.held_amount == self.held_amount,
    {
        ActiveAccount {
            id: self.id,
            available_amount: self.available_amount.plus(&transaction.amount()),
            held_amount: self.held_amount,
        }
    }

    /// Debit the withdrawn amount from the available funds, unless that would
    /// leave them negative; in that case the account is handed back unchanged
    /// in the `Err` arm and nothing else happens.
    pub fn withdraw(&self, transaction: &WithdrawalTransaction) -> (r: Result<
        ActiveAccount,
        ActiveAccount,
    >)
        requires
            in_amount_range(self.available_amount@ - transaction.amount@),
        ensures
            self.available_amount@ - transaction.amount@ < 0 ==> r == Result::<
                ActiveAccount,
                ActiveAccount,
            >::Err(*self),
            self.available_amount@ - transaction.amount@ >= 0 ==> (r matches Ok(a)
                && a.id == self.id
                && a.available_amount@ == self.available_amount@ - transaction.amount@
                && a.held_amount == self.held_amount),
    {
        let amount_after_withdraw = self.available_amount.minus(&transaction.amount());
        if amount_after_withdraw.is_sign_negative() {
            Err(*self)
        } else {
            Ok(
                ActiveAccount {
                    id: self.id,
                    available_amount: amount_after_withdraw,
                    held_amount: self.held_amount,
                },
            )
        }
    }

    /// Earmark a disputed deposit's amount: moved from available to held with
    /// no lower-bound check, so available may go negative by design.
    pub fn hold_amount(&self, amount: Amount) -> (r: ActiveAccount)
        requires
            in_amount_range(self.available_amount@ - amount@),
            in_amount_range(self.held_amount@ + amount@),
        ensures
            r.id == self.id,
            r.available_amount@ == self.available_amount@ - amount@,
            r.held_amount@ == self.held_amount@ + amount@,
    {
        ActiveAccount {
            id: self.id,
            available_amount: self.available_amount.minus(&amount),
            held_amount: self.held_amount.plus(&amount),
        }
    }

    /// Release a resolved dispute's hold, returning the funds to available.
    pub fn release_held_amount(&self, amount: Amount) -> (r: ActiveAccount)
        requires
            in_amount_range(self.available_amount@ + amount@),
            in_amount_range(self.held_amount@ - amount@),
        ensures
            r.id == self.id,
            r.available_amount@ == self.available_amount@ + amount@,
            r.held_amount@ == self.held_amount@ - amount@,
    {
        ActiveAccount {
            id: self.id,
            available_amount: self.available_amount.plus(&amount),
            held_amount: self.held_amount.minus(&amount),
        }
    }

    /// Reverse a disputed deposit's hold and freeze the account for good.
    pub fn charge_back_amount(&self, amount: Amount) -> (r: FrozenAccount)
        requires
            in_amount_range(self.held_amount@ - amount@),
        ensures
            r.id == self.id,
            r.available_amount == self.available_amount,
            r.held_amount@ == self.held_amount@ - amount@,
    {
        FrozenAccount {
            id: self.id,
            available_amount: self.available_amount,
            held_amount: self.held_amount.minus(&amount),
        }
    }
}

/// A terminally locked account; no further mutating operation succeeds on it.
#[derive(Clone, Copy, Debug, PartialEq, Eq, Structural)]
pub struct FrozenAccount {
    pub id: AccountId,
    pub available_amount: Amount,
    pub held_amount: Amount,
}

impl FrozenAccount {
    pub fn total_amount(&self) -> (r: Amount)
        requires
            in_amount_range(self.available_amount@ + self.held_amount@),
        ensures
            r@ == self.available_amount@ + self.held_amount@,
    {
        self.available_amount.plus(&self.held_amount)
    }
}

} // verus!
