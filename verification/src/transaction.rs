use vstd::prelude::*;

use crate::account::AccountId;
use crate::amount::Amount;

verus! {

/// Identifier of a transaction, globally unique across all transaction kinds
/// over a whole run; once assigned it is never reassigned, even as the
/// transaction moves through its lifecycle.
pub type TransactionId = u32;

/// A recorded monetary transaction, variant over its lifecycle. A
/// `Withdrawal` is terminal on creation. A `Deposit` may move to
/// `DisputedDeposit` when a dispute opens; a `DisputedDeposit` moves back to
/// `Deposit` on resolve or forward to the terminal `ChargedBackDeposit` on
/// chargeback.
#[derive(Clone, Copy, Debug, PartialEq, Eq, Structural)]
pub enum Transaction {
    Deposit(DepositTransaction),
    DisputedDeposit(DisputedDepositTransaction),
    ChargedBackDeposit(ChargedBackDepositTransaction),
    Withdrawal(WithdrawalTransaction),
}

impl Transaction {
    /// The transaction's identifier, whichever lifecycle state it is in.
    pub open spec fn spec_id(&self) -> TransactionId {
        match self {
            Transaction::Deposit(deposit_transaction) => deposit_transaction.id,
            Transaction::DisputedDeposit(disputed_deposit_transaction) => disputed_deposit_transaction.id,
            Transaction::ChargedBackDeposit(charged_back_transaction) => charged_back_transaction.id,
            Transaction::Withdrawal(withdrawal_transaction) => withdrawal_transaction.id,
        }
    }

    #[verifier::when_used_as_spec(spec_id)]
    pub fn id(&self) -> (r: TransactionId)
        ensures
            r == self.spec_id(),
    {
        match self {
            Transaction::Deposit(deposit_transaction) => deposit_transaction.id,
            Transaction::DisputedDeposit(disputed_deposit_transaction) => disputed_deposit_transaction.id,
            Transaction::ChargedBackDeposit(charged_back_transaction) => charged_back_transaction.id,
            Transaction::Withdrawal(withdrawal_transaction) => withdrawal_transaction.id,
        }
    }
}

/// A deposit with no dispute currently open against it.
#[derive(Clone, Copy, Debug, PartialEq, Eq, Structural)]
pub struct DepositTransaction {
    pub id: TransactionId,
    pub to_account_id: AccountId,
    pub amount: Amount,
}

impl DepositTransaction {
    pub fn new(id: TransactionId, to_account_id: AccountId, amount: Amount) -> (r:
        DepositTransaction)
        ensures
            r == (DepositTransaction { id, to_account_id, amount }),
    {
        DepositTransaction { id, to_account_id, amount }
    }

    pub fn amount(&self) -> (r: Amount)
        ensures
            r == self.amount,
    {
        self.amount
    }

    pub fn to_account_id(&self) -> (r: AccountId)
        ensures
            r == self.to_account_id,
    {
        self.to_account_id
    }

    /// Open a dispute: the same transaction, now in the disputed state.
    pub fn open_dispute(&self) -> (r: DisputedDepositTransaction)
        ensures
            r.id == self.id,
            r.to_account_id == self.to_account_id,
            r.amount == self.amount,
    {
        DisputedDepositTransaction {
            id: self.id,
            to_account_id: self.to_account_id,
            amount: self.amount,
        }
    }
}

/// A deposit with an open dispute pending resolution.
#[derive(Clone, Copy, Debug, PartialEq, Eq, Structural)]
pub struct DisputedDepositTransaction {
    pub id: TransactionId,
    pub to_account_id: AccountId,
    pub amount: Amount,
}

impl DisputedDepositTransaction {
    pub fn amount(&self) -> (r: Amount)
        ensures
            r == self.amount,
    {
        self.amount
    }

    pub fn to_account_id(&self) -> (r: AccountId)
        ensures
            r == self.to_account_id,
    {
        self.to_account_id
    }

    /// Resolve the dispute: the same transaction, back in the plain deposit
    /// state.
    pub fn resolve_dispute(&self) -> (r: DepositTransaction)
        ensures
            r.id == self.id,
            r.to_account_id == self.to_account_id,
            r.amount == self.amount,
    {
        DepositTransaction { id: self.id, to_account_id: self.to_account_id, amount: self.amount }
    }

    /// Charge the deposit back: the same transaction, in its terminal state.
    pub fn charge_back(&self) -> (r: ChargedBackDepositTransaction)
        ensures
            r.id == self.id,
            r.to_account_id == self.to_account_id,
            r.amount == self.amount,
    {
        ChargedBackDepositTransaction {
            id: self.id,
            to_account_id: self.to_account_id,
            amount: self.amount,
        }
    }
}

/// A deposit that was charged back; terminal.
#[derive(Clone, Copy, Debug, PartialEq, Eq, Structural)]
pub struct ChargedBackDepositTransaction {
    pub id: TransactionId,
    pub to_account_id: AccountId,
    pub amount: Amount,
}

/// A completed withdrawal; terminal on creation.
#[derive(Clone, Copy, Debug, PartialEq, Eq, Structural)]
pub struct WithdrawalTransaction {
    pub id: TransactionId,
    pub from_account_id: AccountId,
    pub amount: Amount,
}

impl WithdrawalTransaction {
    pub fn new(id: TransactionId, from_account_id: AccountId, amount: Amount) -> (r:
        WithdrawalTransaction)
        ensures
            r == (WithdrawalTransaction { id, from_account_id, amount }),
    {
        WithdrawalTransaction { id, from_account_id, amount }
    }

    pub fn amount(&self) -> (r: Amount)
        ensures
            r == self.amount,
    {
        self.amount
    }
}

} // verus!
