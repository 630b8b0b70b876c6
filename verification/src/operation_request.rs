use vstd::prelude::*;

use crate::account::AccountId;
use crate::amount::Amount;
use crate::transaction::TransactionId;

verus! {

broadcast use vstd::string::group_string_axioms;

/// The closed set of operation tags an input record may carry.
#[derive(Clone, Copy, Debug, PartialEq, Eq, Structural)]
pub enum CsvOperationType {
    Deposit,
    Withdrawal,
    Dispute,
    Resolve,
    Chargeback,
}

/// One input record, already reduced to plain values: a type tag, a client
/// identifier, a transaction identifier, and an amount that input parsing
/// supplies only for deposits and withdrawals, truncated to four decimal
/// places before it reaches the core.
#[derive(Clone, Copy, Debug)]
pub struct OperationCsvRow {
    pub operation_type: CsvOperationType,
    pub client: AccountId,
    pub tx: TransactionId,
    pub amount: Option<Amount>,
}

/// A raw request, one per input record, before any validation against the
/// stores.
#[derive(Clone, Copy, Debug)]
pub enum OperationRequest {
    Deposit(DepositOperationRequest),
    Withdrawal(WithdrawalOperationRequest),
    Dispute(DisputeOperationRequest),
    Resolve(ResolveOperationRequest),
    Chargeback(ChargebackOperationRequest),
}

impl OperationRequest {
    /// Turn one input record into a raw request. A deposit or withdrawal
    /// record without an amount is malformed and is refused here, before the
    /// engine ever sees it.
    pub fn new_from_csv(operation_csv_row: OperationCsvRow) -> (r: Result<OperationRequest, String>)
        ensures
            match operation_csv_row.operation_type {
                CsvOperationType::Deposit => match operation_csv_row.amount {
                    Some(amount) => r == Result::<OperationRequest, String>::Ok(
                        OperationRequest::Deposit(
                            DepositOperationRequest {
                                account_id: operation_csv_row.client,
                                transaction_id: operation_csv_row.tx,
                                amount,
                            },
                        ),
                    ),
                    None => r matches Err(m) && m@ == "Amount not found for Deposit request"@,
                },
                CsvOperationType::Withdrawal => match operation_csv_row.amount {
                    Some(amount) => r == Result::<OperationRequest, String>::Ok(
                        OperationRequest::Withdrawal(
                            WithdrawalOperationRequest {
                                account_id: operation_csv_row.client,
                                transaction_id: operation_csv_row.tx,
                                amount,
                            },
                        ),
                    ),
                    None => r matches Err(m) && m@ == "Amount not found for Withdrawal request"@,
                },
                CsvOperationType::Dispute => r == Result::<OperationRequest, String>::Ok(
                    OperationRequest::Dispute(
                        DisputeOperationRequest { transaction_id: operation_csv_row.tx },
                    ),
                ),
                CsvOperationType::Resolve => r == Result::<OperationRequest, String>::Ok(
                    OperationRequest::Resolve(
                        ResolveOperationRequest { transaction_id: operation_csv_row.tx },
                    ),
                ),
                CsvOperationType::Chargeback => r == Result::<OperationRequest, String>::Ok(
                    OperationRequest::Chargeback(
                        ChargebackOperationRequest { transaction_id: operation_csv_row.tx },
                    ),
                ),
            },
    {
        match operation_csv_row.operation_type {
            CsvOperationType::Deposit => {
                if let Some(amount) = operation_csv_row.amount {
                    Ok(
                        OperationRequest::Deposit(
                            DepositOperationRequest {
                                account_id: operation_csv_row.client,
                                transaction_id: operation_csv_row.tx,
                                amount,
                            },
                        ),
                    )
                } else {
                    Err("Amount not found for Deposit request".to_string())
                }
            },
            CsvOperationType::Withdrawal => {
                if let Some(amount) = operation_csv_row.amount {
                    Ok(
                        OperationRequest::Withdrawal(
                            WithdrawalOperationRequest {
                                account_id: operation_csv_row.client,
                                transaction_id: operation_csv_row.tx,
                                amount,
                            },
                        ),
                    )
                } else {
                    Err("Amount not found for Withdrawal request".to_string())
                }
            },
            CsvOperationType::Dispute => Ok(
                OperationRequest::Dispute(
                    DisputeOperationRequest { transaction_id: operation_csv_row.tx },
                ),
            ),
            CsvOperationType::Resolve => Ok(
                OperationRequest::Resolve(
                    ResolveOperationRequest { transaction_id: operation_csv_row.tx },
                ),
            ),
            CsvOperationType::Chargeback => Ok(
                OperationRequest::Chargeback(
                    ChargebackOperationRequest { transaction_id: operation_csv_row.tx },
                ),
            ),
        }
    }
}

/// Request to credit `amount` to the account, recording a new transaction.
#[derive(Clone, Copy, Debug)]
pub struct DepositOperationRequest {
    pub account_id: AccountId,
    pub transaction_id: TransactionId,
    pub amount: Amount,
}

/// Request to debit `amount` from the account, recording a new transaction.
#[derive(Clone, Copy, Debug)]
pub struct WithdrawalOperationRequest {
    pub account_id: AccountId,
    pub transaction_id: TransactionId,
    pub amount: Amount,
}

/// Request to open a dispute against the referenced deposit.
#[derive(Clone, Copy, Debug)]
pub struct DisputeOperationRequest {
    pub transaction_id: TransactionId,
}

/// Request to resolve the open dispute on the referenced deposit.
#[derive(Clone, Copy, Debug)]
pub struct ResolveOperationRequest {
    pub transaction_id: TransactionId,
}

/// Request to charge the disputed deposit back and freeze its account.
#[derive(Clone, Copy, Debug)]
pub struct ChargebackOperationRequest {
    pub transaction_id: TransactionId,
}

} // verus!
