use vstd::prelude::*;

use crate::account::ActiveAccount;
use crate::account_repository::AccountRepository;
use crate::builder::{
    build_chargeback, build_deposit, build_dispute, build_resolve, build_withdrawal,
};
use crate::model::{build_result_matches, spec_validate, stores_view};
use crate::operation_request::OperationRequest;
use crate::transaction::{DepositTransaction, DisputedDepositTransaction, WithdrawalTransaction};
use crate::transaction_repository::TransactionRepository;
use crate::validator::OperationValidationError;

verus! {

/// A validated operation, owning everything its execution needs: the request
/// has been parsed against the current stores, so downstream code is
/// logically incapable of business failure.
#[derive(Clone, Copy, Debug)]
#[allow(inconsistent_fields)]
pub enum ValidOperationRequest {
    Deposit { new_transaction: DepositTransaction, to_account: ActiveAccount },
    Withdrawal { new_transaction: WithdrawalTransaction, from_account: ActiveAccount },
    OpenDispute { on_transaction: DepositTransaction, account: ActiveAccount },
    ResolveDispute { on_transaction: DisputedDepositTransaction, account: ActiveAccount },
    ChargeBack { on_transaction: DisputedDepositTransaction, account: ActiveAccount },
}

impl ValidOperationRequest {
    /// Validate a raw request against the current stores: either a fully
    /// resolved command, or the non-empty list of rejection reasons that
    /// `spec_validate` prescribes.
    pub fn new(
        operation_request: &OperationRequest,
        account_repository: &AccountRepository,
        transaction_repository: &TransactionRepository,
    ) -> (r: Result<Self, Vec<OperationValidationError>>)
        ensures
            build_result_matches(
                r,
                spec_validate(
                    stores_view(account_repository, transaction_repository),
                    *operation_request,
                ),
            ),
    {
        match operation_request {
            OperationRequest::Deposit(deposit_operation_request) => build_deposit(
                deposit_operation_request,
                account_repository,
                transaction_repository,
            ),
            OperationRequest::Withdrawal(withdrawal_operation_request) => build_withdrawal(
                withdrawal_operation_request,
                account_repository,
                transaction_repository,
            ),
            OperationRequest::Dispute(dispute_operation_request) => build_dispute(
                dispute_operation_request,
                account_repository,
                transaction_repository,
            ),
            OperationRequest::Resolve(resolve_operation_request) => build_resolve(
                resolve_operation_request,
                account_repository,
                transaction_repository,
            ),
            OperationRequest::Chargeback(chargeback_operation_request) => build_chargeback(
                chargeback_operation_request,
                account_repository,
                transaction_repository,
            ),
        }
    }
}

} // verus!
