use vstd::prelude::*;

use crate::account::{Account, ActiveAccount};
use crate::account_repository::AccountRepository;
use crate::model::{
    build_result_matches, spec_build_chargeback, spec_build_deposit, spec_build_dispute,
    spec_build_resolve, spec_build_withdrawal, stores_view,
};
use crate::operation_request::{
    ChargebackOperationRequest, DepositOperationRequest, DisputeOperationRequest,
    ResolveOperationRequest, WithdrawalOperationRequest,
};
use crate::transaction::DepositTransaction;
use crate::transaction::WithdrawalTransaction;
use crate::transaction_repository::TransactionRepository;
use crate::valid_operation_request::ValidOperationRequest;
use crate::validator::{
    validate_existing_and_active_account, validate_existing_transaction, validate_positive_amount,
    validate_transaction_is_deposit, validate_transaction_is_disputed_deposit,
    validate_unique_transaction_id, OperationValidationError,
};

verus! {

/// Validate a deposit request: the three independent checks are all
/// evaluated and every violated one is collected.
pub fn build_deposit(
    deposit_operation_request: &DepositOperationRequest,
    account_repository: &AccountRepository,
    transaction_repository: &TransactionRepository,
) -> (r: Result<ValidOperationRequest, Vec<OperationValidationError>>)
    ensures
        build_result_matches(
            r,
            spec_build_deposit(
                stores_view(account_repository, transaction_repository),
                *deposit_operation_request,
            ),
        ),
{
    let mut errors: Vec<OperationValidationError> = Vec::new();

    let default_new_account = Account::Active(
        ActiveAccount::new(deposit_operation_request.account_id),
    );
    let account = match account_repository.find(deposit_operation_request.account_id) {
        Some(found_account) => found_account,
        None => &default_new_account,
    };

    let validated_account_result = validate_existing_and_active_account(Some(account));
    let validated_amount_result = validate_positive_amount(deposit_operation_request.amount);
    let validated_transaction_id = validate_unique_transaction_id(
        deposit_operation_request.transaction_id,
        transaction_repository,
    );

    if let Err(error) = validated_account_result {
        errors.push(error);
    }
    if let Err(error) = validated_amount_result {
        errors.push(error);
    }
    if let Err(error) = validated_transaction_id {
        errors.push(error);
    }

    match (validated_account_result, validated_amount_result, validated_transaction_id) {
        (Ok(account), Ok(amount), Ok(transaction_id)) => {
            let new_transaction = DepositTransaction::new(transaction_id, account.id(), amount);
            Ok(ValidOperationRequest::Deposit { new_transaction, to_account: *account })
        },
        _ => {
            proof {
                let s = stores_view(account_repository, transaction_repository);
                let spec_r = spec_build_deposit(s, *deposit_operation_request);
                assert(errors@ =~= spec_r->Err_0);
            }
            Err(errors)
        },
    }
}

/// Validate a withdrawal request: same independent collection as a deposit,
/// but an unknown account is reported rather than materialized.
pub fn build_withdrawal(
    withdrawal_operation_request: &WithdrawalOperationRequest,
    account_repository: &AccountRepository,
    transaction_repository: &TransactionRepository,
) -> (r: Result<ValidOperationRequest, Vec<OperationValidationError>>)
    ensures
        build_result_matches(
            r,
            spec_build_withdrawal(
                stores_view(account_repository, transaction_repository),
                *withdrawal_operation_request,
            ),
        ),
{
    let mut errors: Vec<OperationValidationError> = Vec::new();

    let maybe_account = account_repository.find(withdrawal_operation_request.account_id);

    let validated_account_result = validate_existing_and_active_account(maybe_account);
    let validated_amount_result = validate_positive_amount(withdrawal_operation_request.amount);
    let validated_transaction_id = validate_unique_transaction_id(
        withdrawal_operation_request.transaction_id,
        transaction_repository,
    );

    if let Err(error) = validated_account_result {
        errors.push(error);
    }
    if let Err(error) = validated_amount_result {
        errors.push(error);
    }
    if let Err(error) = validated_transaction_id {
        errors.push(error);
    }

    match (validated_account_result, validated_amount_result, validated_transaction_id) {
        (Ok(account), Ok(amount), Ok(transaction_id)) => {
            let new_transaction = WithdrawalTransaction::new(transaction_id, account.id(), amount);
            Ok(ValidOperationRequest::Withdrawal { new_transaction, from_account: *account })
        },
        _ => {
            proof {
                let s = stores_view(account_repository, transaction_repository);
                let spec_r = spec_build_withdrawal(s, *withdrawal_operation_request);
                assert(errors@ =~= spec_r->Err_0);
            }
            Err(errors)
        },
    }
}

/// Validate a dispute request: the chained checks stop at the first
/// violated rule, which is the only one reported.
pub fn build_dispute(
    dispute_operation_request: &DisputeOperationRequest,
    account_repository: &AccountRepository,
    transaction_repository: &TransactionRepository,
) -> (r: Result<ValidOperationRequest, Vec<OperationValidationError>>)
    ensures
        build_result_matches(
            r,
            spec_build_dispute(
                stores_view(account_repository, transaction_repository),
                *dispute_operation_request,
            ),
        ),
{
    let chained_result = match validate_existing_transaction(
        dispute_operation_request.transaction_id,
        transaction_repository,
    ) {
        Ok(transaction) => match validate_transaction_is_deposit(transaction) {
            Ok(deposit_transaction) => {
                let maybe_account = account_repository.find(deposit_transaction.to_account_id());
                match validate_existing_and_active_account(maybe_account) {
                    Ok(active_account) => Ok((deposit_transaction, active_account)),
                    Err(error) => Err(error),
                }
            },
            Err(error) => Err(error),
        },
        Err(error) => Err(error),
    };

    match chained_result {
        Ok((deposit_transaction, active_account)) => Ok(
            ValidOperationRequest::OpenDispute {
                on_transaction: *deposit_transaction,
                account: *active_account,
            },
        ),
        Err(error) => {
            let mut errors: Vec<OperationValidationError> = Vec::new();
            errors.push(error);
            proof {
                let s = stores_view(account_repository, transaction_repository);
                let spec_r = spec_build_dispute(s, *dispute_operation_request);
                assert(errors@ =~= spec_r->Err_0);
            }
            Err(errors)
        },
    }
}

/// Validate a resolve request: chained like a dispute, against the disputed
/// deposit state.
pub fn build_resolve(
    resolve_operation_request: &ResolveOperationRequest,
    account_repository: &AccountRepository,
    transaction_repository: &TransactionRepository,
) -> (r: Result<ValidOperationRequest, Vec<OperationValidationError>>)
    ensures
        build_result_matches(
            r,
            spec_build_resolve(
                stores_view(account_repository, transaction_repository),
                *resolve_operation_request,
            ),
        ),
{
    let chained_result = match validate_existing_transaction(
        resolve_operation_request.transaction_id,
        transaction_repository,
    ) {
        Ok(transaction) => match validate_transaction_is_disputed_deposit(transaction) {
            Ok(disputed_deposit_transaction) => {
                let maybe_account = account_repository.find(
                    disputed_deposit_transaction.to_account_id(),
                );
                match validate_existing_and_active_account(maybe_account) {
                    Ok(active_account) => Ok((disputed_deposit_transaction, active_account)),
                    Err(error) => Err(error),
                }
            },
            Err(error) => Err(error),
        },
        Err(error) => Err(error),
    };

    match chained_result {
        Ok((disputed_deposit_transaction, active_account)) => Ok(
            ValidOperationRequest::ResolveDispute {
                on_transaction: *disputed_deposit_transaction,
                account: *active_account,
            },
        ),
        Err(error) => {
            let mut errors: Vec<OperationValidationError> = Vec::new();
            errors.push(error);
            proof {
                let s = stores_view(account_repository, transaction_repository);
                let spec_r = spec_build_resolve(s, *resolve_operation_request);
                assert(errors@ =~= spec_r->Err_0);
            }
            Err(errors)
        },
    }
}

/// Validate a chargeback request: the same shape as a resolve.
pub fn build_chargeback(
    chargeback_operation_request: &ChargebackOperationRequest,
    account_repository: &AccountRepository,
    transaction_repository: &TransactionRepository,
) -> (r: Result<ValidOperationRequest, Vec<OperationValidationError>>)
    ensures
        build_result_matches(
            r,
            spec_build_chargeback(
                stores_view(account_repository, transaction_repository),
                *chargeback_operation_request,
            ),
        ),
{
    let chained_result = match validate_existing_transaction(
        chargeback_operation_request.transaction_id,
        transaction_repository,
    ) {
        Ok(transaction) => match validate_transaction_is_disputed_deposit(transaction) {
            Ok(disputed_deposit_transaction) => {
                let maybe_account = account_repository.find(
                    disputed_deposit_transaction.to_account_id(),
                );
                match validate_existing_and_active_account(maybe_account) {
                    Ok(active_account) => Ok((disputed_deposit_transaction, active_account)),
                    Err(error) => Err(error),
                }
            },
            Err(error) => Err(error),
        },
        Err(error) => Err(error),
    };

    match chained_result {
        Ok((disputed_deposit_transaction, active_account)) => Ok(
            ValidOperationRequest::ChargeBack {
                on_transaction: *disputed_deposit_transaction,
                account: *active_account,
            },
        ),
        Err(error) => {
            let mut errors: Vec<OperationValidationError> = Vec::new();
            errors.push(error);
            proof {
                let s = stores_view(account_repository, transaction_repository);
                let spec_r = spec_build_chargeback(s, *chargeback_operation_request);
                assert(errors@ =~= spec_r->Err_0);
            }
            Err(errors)
        },
    }
}

} // verus!
