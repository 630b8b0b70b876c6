use vstd::prelude::*;

use crate::account::{Account, ActiveAccount};
use crate::amount::Amount;
use crate::transaction::{DepositTransaction, DisputedDepositTransaction, Transaction, TransactionId};
use crate::transaction_repository::TransactionRepository;

verus! {

broadcast use vstd::string::group_string_axioms;

/// The closed set of reasons for which a request can be rejected. A rejected
/// request leaves every store exactly as it was.
#[derive(Clone, Copy, Debug, PartialEq, Eq, Structural)]
pub enum OperationValidationError {
    AccountNotFound,
    AccountFrozen,
    NegativeAmount,
    DuplicateTransactionId,
    TransactionNotFound,
    TransactionNotInDepositState,
    TransactionNotInDisputedState,
}

impl OperationValidationError {
    /// The reason's name, character for character.
    pub open spec fn spec_text(&self) -> Seq<char> {
        match self {
            OperationValidationError::AccountNotFound => "AccountNotFound"@,
            OperationValidationError::AccountFrozen => "AccountFrozen"@,
            OperationValidationError::NegativeAmount => "NegativeAmount"@,
            OperationValidationError::DuplicateTransactionId => "DuplicateTransactionId"@,
            OperationValidationError::TransactionNotFound => "TransactionNotFound"@,
            OperationValidationError::TransactionNotInDepositState => "TransactionNotInDepositState"@,
            OperationValidationError::TransactionNotInDisputedState => "TransactionNotInDisputedState"@,
        }
    }

    /// The reason's name, for diagnostic reports.
    pub fn as_text(&self) -> (s: String)
        ensures
            s@ == self.spec_text(),
    {
        match self {
            OperationValidationError::AccountNotFound => "AccountNotFound".to_string(),
            OperationValidationError::AccountFrozen => "AccountFrozen".to_string(),
            OperationValidationError::NegativeAmount => "NegativeAmount".to_string(),
            OperationValidationError::DuplicateTransactionId => "DuplicateTransactionId".to_string(),
            OperationValidationError::TransactionNotFound => "TransactionNotFound".to_string(),
            OperationValidationError::TransactionNotInDepositState => "TransactionNotInDepositState".to_string(),
            OperationValidationError::TransactionNotInDisputedState => "TransactionNotInDisputedState".to_string(),
        }
    }
}

/// The referenced account must exist and be active: an absent account is
/// `AccountNotFound`, a frozen one `AccountFrozen`.
pub fn validate_existing_and_active_account(maybe_account: Option<&Account>) -> (r: Result<
    &ActiveAccount,
    OperationValidationError,
>)
    ensures
        match maybe_account {
            None => r == Result::<&ActiveAccount, OperationValidationError>::Err(
                OperationValidationError::AccountNotFound,
            ),
            Some(account) => match *account {
                Account::Active(active_account) => r matches Ok(x) && *x == active_account,
                Account::Frozen(_) => r == Result::<&ActiveAccount, OperationValidationError>::Err(
                    OperationValidationError::AccountFrozen,
                ),
            },
        },
{
    if let Some(account) = maybe_account {
        match account {
            Account::Active(active_account) => Ok(active_account),
            Account::Frozen(_) => Err(OperationValidationError::AccountFrozen),
        }
    } else {
        Err(OperationValidationError::AccountNotFound)
    }
}

/// The amount of a deposit or withdrawal must not be negative.
pub fn validate_positive_amount(amount: Amount) -> (r: Result<Amount, OperationValidationError>)
    ensures
        amount@ < 0 ==> r == Result::<Amount, OperationValidationError>::Err(
            OperationValidationError::NegativeAmount,
        ),
        amount@ >= 0 ==> r == Result::<Amount, OperationValidationError>::Ok(amount),
{
    if amount.is_sign_negative() {
        Err(OperationValidationError::NegativeAmount)
    } else {
        Ok(amount)
    }
}

/// The identifier of a new transaction must not already be stored in any
/// lifecycle state.
pub fn validate_unique_transaction_id(
    transaction_id: TransactionId,
    transaction_repository: &TransactionRepository,
) -> (r: Result<TransactionId, OperationValidationError>)
    ensures
        transaction_repository@.contains_key(transaction_id) ==> r == Result::<
            TransactionId,
            OperationValidationError,
        >::Err(OperationValidationError::DuplicateTransactionId),
        !transaction_repository@.contains_key(transaction_id) ==> r == Result::<
            TransactionId,
            OperationValidationError,
        >::Ok(transaction_id),
{
    if transaction_repository.find(transaction_id).is_some() {
        Err(OperationValidationError::DuplicateTransactionId)
    } else {
        Ok(transaction_id)
    }
}

/// The referenced transaction must exist in the store.
pub fn validate_existing_transaction(
    transaction_id: TransactionId,
    transaction_repository: &TransactionRepository,
) -> (r: Result<&Transaction, OperationValidationError>)
    ensures
        match r {
            Ok(transaction) => transaction_repository@.contains_key(transaction_id) && *transaction
                == transaction_repository@[transaction_id],
            Err(e) => !transaction_repository@.contains_key(transaction_id) && e
                == OperationValidationError::TransactionNotFound,
        },
{
    if let Some(transaction) = transaction_repository.find(transaction_id) {
        Ok(transaction)
    } else {
        Err(OperationValidationError::TransactionNotFound)
    }
}

/// Only a transaction currently in the plain deposit state can be disputed.
pub fn validate_transaction_is_deposit(transaction: &Transaction) -> (r: Result<
    &DepositTransaction,
    OperationValidationError,
>)
    ensures
        *transaction matches Transaction::Deposit(deposit_transaction) ==> r matches Ok(x) && *x
            == deposit_transaction,
        !(*transaction is Deposit) ==> r == Result::<
            &DepositTransaction,
            OperationValidationError,
        >::Err(OperationValidationError::TransactionNotInDepositState),
{
    match transaction {
        Transaction::Deposit(deposit_transaction) => Ok(deposit_transaction),
        _ => Err(OperationValidationError::TransactionNotInDepositState),
    }
}

/// Only a transaction currently in the disputed deposit state can be resolved
/// or charged back.
pub fn validate_transaction_is_disputed_deposit(transaction: &Transaction) -> (r: Result<
    &DisputedDepositTransaction,
    OperationValidationError,
>)
    ensures
        *transaction matches Transaction::DisputedDeposit(disputed_deposit_transaction)
            ==> r matches Ok(x) && *x == disputed_deposit_transaction,
        !(*transaction is DisputedDeposit) ==> r == Result::<
            &DisputedDepositTransaction,
            OperationValidationError,
        >::Err(OperationValidationError::TransactionNotInDisputedState),
{
    match transaction {
        Transaction::DisputedDeposit(disputed_deposit_transaction) => Ok(
            disputed_deposit_transaction,
        ),
        _ => Err(OperationValidationError::TransactionNotInDisputedState),
    }
}

} // verus!
