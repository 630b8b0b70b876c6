use vstd::prelude::*;

use crate::account::{Account, AccountId, ActiveAccount, FrozenAccount};
use crate::account_repository::AccountRepository;
use crate::amount::{in_amount_range, Amount};
use crate::operation_request::{
    ChargebackOperationRequest, DepositOperationRequest, DisputeOperationRequest, OperationRequest,
    ResolveOperationRequest, WithdrawalOperationRequest,
};
use crate::transaction::{
    ChargedBackDepositTransaction, DepositTransaction, DisputedDepositTransaction, Transaction,
    TransactionId, WithdrawalTransaction,
};
use crate::transaction_repository::TransactionRepository;
use crate::valid_operation_request::ValidOperationRequest;
use crate::validator::OperationValidationError;

verus! {

/// The engine's state as mathematics: the two stores as maps from identifier
/// to current snapshot. All contracts of the engine are phrased as functions
/// of this view.
pub struct EngineView {
    pub accounts: Map<AccountId, Account>,
    pub transactions: Map<TransactionId, Transaction>,
}

/// The view of a pair of concrete stores.
pub open spec fn stores_view(
    account_repository: &AccountRepository,
    transaction_repository: &TransactionRepository,
) -> EngineView {
    EngineView { accounts: account_repository@, transactions: transaction_repository@ }
}

/// A well-formed state: every stored entity sits under its own identifier.
/// The empty state is well formed and every step preserves this.
pub open spec fn state_wf(s: EngineView) -> bool {
    &&& forall|k: AccountId|
        s.accounts.contains_key(k) ==> (#[trigger] s.accounts[k]).spec_id() == k
    &&& forall|t: TransactionId|
        s.transactions.contains_key(t) ==> (#[trigger] s.transactions[t]).spec_id() == t
}

/// The amount standing for the mathematical value `v`; exact whenever `v`
/// fits the machine range of `Amount`.
pub open spec fn amount_of(v: int) -> Amount {
    Amount { units: v as i128 }
}

/// The account stored under `id`, if any.
pub open spec fn spec_found_account(s: EngineView, id: AccountId) -> Option<Account> {
    if s.accounts.contains_key(id) {
        Some(s.accounts[id])
    } else {
        None
    }
}

/// The account a deposit validates against: the stored one, or a transient
/// default active account with zero balances for an unknown identifier. The
/// default is never persisted unless the whole command succeeds.
pub open spec fn spec_deposit_lookup(s: EngineView, id: AccountId) -> Option<Account> {
    match spec_found_account(s, id) {
        None => Some(
            Account::Active(
                ActiveAccount {
                    id,
                    available_amount: Amount { units: 0 },
                    held_amount: Amount { units: 0 },
                },
            ),
        ),
        Some(account) => Some(account),
    }
}

/// What checking an account for existence and activity yields.
pub open spec fn spec_account_check(found: Option<Account>) -> Result<
    ActiveAccount,
    OperationValidationError,
> {
    match found {
        None => Err(OperationValidationError::AccountNotFound),
        Some(Account::Active(active_account)) => Ok(active_account),
        Some(Account::Frozen(_)) => Err(OperationValidationError::AccountFrozen),
    }
}

/// The rejection reasons one check contributes: none on success, its single
/// reason on failure.
pub open spec fn error_of<T>(r: Result<T, OperationValidationError>) -> Seq<
    OperationValidationError,
> {
    match r {
        Ok(_) => Seq::empty(),
        Err(e) => seq![e],
    }
}

/// Validation of a deposit request. The three checks — account active or
/// absent, amount non-negative, transaction identifier unused — are
/// independent, and every violated one is collected, in this order.
pub open spec fn spec_build_deposit(s: EngineView, r: DepositOperationRequest) -> Result<
    ValidOperationRequest,
    Seq<OperationValidationError>,
> {
    let account_result = spec_account_check(spec_deposit_lookup(s, r.account_id));
    let amount_result: Result<Amount, OperationValidationError> = if r.amount@ < 0 {
        Err(OperationValidationError::NegativeAmount)
    } else {
        Ok(r.amount)
    };
    let id_result: Result<TransactionId, OperationValidationError> = if s.transactions.contains_key(
        r.transaction_id,
    ) {
        Err(OperationValidationError::DuplicateTransactionId)
    } else {
        Ok(r.transaction_id)
    };
    match (account_result, amount_result, id_result) {
        (Ok(account), Ok(amount), Ok(transaction_id)) => Ok(
            ValidOperationRequest::Deposit {
                new_transaction: DepositTransaction {
                    id: transaction_id,
                    to_account_id: account.id,
                    amount,
                },
                to_account: account,
            },
        ),
        _ => Err(error_of(account_result) + error_of(amount_result) + error_of(id_result)),
    }
}

/// Validation of a withdrawal request. Same independent collection as for a
/// deposit, but an unknown account is not materialized: it is
/// `AccountNotFound`.
pub open spec fn spec_build_withdrawal(s: EngineView, r: WithdrawalOperationRequest) -> Result<
    ValidOperationRequest,
    Seq<OperationValidationError>,
> {
    let account_result = spec_account_check(spec_found_account(s, r.account_id));
    let amount_result: Result<Amount, OperationValidationError> = if r.amount@ < 0 {
        Err(OperationValidationError::NegativeAmount)
    } else {
        Ok(r.amount)
    };
    let id_result: Result<TransactionId, OperationValidationError> = if s.transactions.contains_key(
        r.transaction_id,
    ) {
        Err(OperationValidationError::DuplicateTransactionId)
    } else {
        Ok(r.transaction_id)
    };
    match (account_result, amount_result, id_result) {
        (Ok(account), Ok(amount), Ok(transaction_id)) => Ok(
            ValidOperationRequest::Withdrawal {
                new_transaction: WithdrawalTransaction {
                    id: transaction_id,
                    from_account_id: account.id,
                    amount,
                },
                from_account: account,
            },
        ),
        _ => Err(error_of(account_result) + error_of(amount_result) + error_of(id_result)),
    }
}

/// Validation of a dispute request. The checks are chained — the transaction
/// must exist, must currently be a plain deposit, and its owning account must
/// exist and be active — so only the first violated rule is reported.
pub open spec fn spec_build_dispute(s: EngineView, r: DisputeOperationRequest) -> Result<
    ValidOperationRequest,
    Seq<OperationValidationError>,
> {
    if !s.transactions.contains_key(r.transaction_id) {
        Err(seq![OperationValidationError::TransactionNotFound])
    } else {
        match s.transactions[r.transaction_id] {
            Transaction::Deposit(deposit_transaction) => {
                match spec_account_check(
                    spec_found_account(s, deposit_transaction.to_account_id),
                ) {
                    Ok(account) => Ok(
                        ValidOperationRequest::OpenDispute {
                            on_transaction: deposit_transaction,
                            account,
                        },
                    ),
                    Err(e) => Err(seq![e]),
                }
            },
            _ => Err(seq![OperationValidationError::TransactionNotInDepositState]),
        }
    }
}

/// Validation of a resolve request: chained like a dispute, but the
/// transaction must currently be a disputed deposit.
pub open spec fn spec_build_resolve(s: EngineView, r: ResolveOperationRequest) -> Result<
    ValidOperationRequest,
    Seq<OperationValidationError>,
> {
    if !s.transactions.contains_key(r.transaction_id) {
        Err(seq![OperationValidationError::TransactionNotFound])
    } else {
        match s.transactions[r.transaction_id] {
            Transaction::DisputedDeposit(disputed_deposit_transaction) => {
                match spec_account_check(
                    spec_found_account(s, disputed_deposit_transaction.to_account_id),
                ) {
                    Ok(account) => Ok(
                        ValidOperationRequest::ResolveDispute {
                            on_transaction: disputed_deposit_transaction,
                            account,
                        },
                    ),
                    Err(e) => Err(seq![e]),
                }
            },
            _ => Err(seq![OperationValidationError::TransactionNotInDisputedState]),
        }
    }
}

/// Validation of a chargeback request: the same shape as a resolve.
pub open spec fn spec_build_chargeback(s: EngineView, r: ChargebackOperationRequest) -> Result<
    ValidOperationRequest,
    Seq<OperationValidationError>,
> {
    if !s.transactions.contains_key(r.transaction_id) {
        Err(seq![OperationValidationError::TransactionNotFound])
    } else {
        match s.transactions[r.transaction_id] {
            Transaction::DisputedDeposit(disputed_deposit_transaction) => {
                match spec_account_check(
                    spec_found_account(s, disputed_deposit_transaction.to_account_id),
                ) {
                    Ok(account) => Ok(
                        ValidOperationRequest::ChargeBack {
                            on_transaction: disputed_deposit_transaction,
                            account,
                        },
                    ),
                    Err(e) => Err(seq![e]),
                }
            },
            _ => Err(seq![OperationValidationError::TransactionNotInDisputedState]),
        }
    }
}

/// Validation of any raw request against the current state: either a fully
/// resolved command that owns everything execution needs, or a non-empty
/// list of rejection reasons.
pub open spec fn spec_validate(s: EngineView, r: OperationRequest) -> Result<
    ValidOperationRequest,
    Seq<OperationValidationError>,
> {
    match r {
        OperationRequest::Deposit(deposit_operation_request) => spec_build_deposit(
            s,
            deposit_operation_request,
        ),
        OperationRequest::Withdrawal(withdrawal_operation_request) => spec_build_withdrawal(
            s,
            withdrawal_operation_request,
        ),
        OperationRequest::Dispute(dispute_operation_request) => spec_build_dispute(
            s,
            dispute_operation_request,
        ),
        OperationRequest::Resolve(resolve_operation_request) => spec_build_resolve(
            s,
            resolve_operation_request,
        ),
        OperationRequest::Chargeback(chargeback_operation_request) => spec_build_chargeback(
            s,
            chargeback_operation_request,
        ),
    }
}

/// Whether an executable validation result agrees with the corresponding
/// spec-level one: the same resolved command, or exactly the same rejection
/// reasons in the same order.
pub open spec fn build_result_matches(
    r: Result<ValidOperationRequest, Vec<OperationValidationError>>,
    s: Result<ValidOperationRequest, Seq<OperationValidationError>>,
) -> bool {
    match r {
        Ok(v) => s matches Ok(sv) && sv == v,
        Err(errors) => s matches Err(es) && errors@ == es,
    }
}

/// Whether executing the resolved command stays inside the machine range of
/// `Amount`. Validation itself does no arithmetic, so this is the only bound
/// the engine needs.
pub open spec fn spec_execute_fits(v: ValidOperationRequest) -> bool {
    match v {
        ValidOperationRequest::Deposit { new_transaction, to_account } => in_amount_range(
            to_account.available_amount@ + new_transaction.amount@,
        ),
        ValidOperationRequest::Withdrawal { new_transaction, from_account } => in_amount_range(
            from_account.available_amount@ - new_transaction.amount@,
        ),
        ValidOperationRequest::OpenDispute { on_transaction, account } => in_amount_range(
            account.available_amount@ - on_transaction.amount@,
        ) && in_amount_range(account.held_amount@ + on_transaction.amount@),
        ValidOperationRequest::ResolveDispute { on_transaction, account } => in_amount_range(
            account.available_amount@ + on_transaction.amount@,
        ) && in_amount_range(account.held_amount@ - on_transaction.amount@),
        ValidOperationRequest::ChargeBack { on_transaction, account } => in_amount_range(
            account.held_amount@ - on_transaction.amount@,
        ),
    }
}

/// Whether processing the raw request in state `s` stays inside the machine
/// range of `Amount`: trivially true for a rejected request.
pub open spec fn spec_request_fits(s: EngineView, r: OperationRequest) -> bool {
    match spec_validate(s, r) {
        Ok(v) => spec_execute_fits(v),
        Err(_) => true,
    }
}

/// Execution of a resolved command: the new state after the per-kind
/// transition, with exactly one updated account and zero or one updated
/// transaction written back.
pub open spec fn spec_execute(s: EngineView, v: ValidOperationRequest) -> EngineView {
    match v {
        ValidOperationRequest::Deposit { new_transaction, to_account } => EngineView {
            accounts: s.accounts.insert(
                to_account.id,
                Account::Active(
                    ActiveAccount {
                        id: to_account.id,
                        available_amount: amount_of(
                            to_account.available_amount@ + new_transaction.amount@,
                        ),
                        held_amount: to_account.held_amount,
                    },
                ),
            ),
            transactions: s.transactions.insert(
                new_transaction.id,
                Transaction::Deposit(new_transaction),
            ),
        },
        ValidOperationRequest::Withdrawal { new_transaction, from_account } => {
            if from_account.available_amount@ - new_transaction.amount@ < 0 {
                // Insufficient funds at execution time: a silent no-op by
                // design; the unchanged account is written back and no
                // transaction is recorded.
                EngineView {
                    accounts: s.accounts.insert(from_account.id, Account::Active(from_account)),
                    transactions: s.transactions,
                }
            } else {
                EngineView {
                    accounts: s.accounts.insert(
                        from_account.id,
                        Account::Active(
                            ActiveAccount {
                                id: from_account.id,
                                available_amount: amount_of(
                                    from_account.available_amount@ - new_transaction.amount@,
                                ),
                                held_amount: from_account.held_amount,
                            },
                        ),
                    ),
                    transactions: s.transactions.insert(
                        new_transaction.id,
                        Transaction::Withdrawal(new_transaction),
                    ),
                }
            }
        },
        ValidOperationRequest::OpenDispute { on_transaction, account } => EngineView {
            accounts: s.accounts.insert(
                account.id,
                Account::Active(
                    ActiveAccount {
                        id: account.id,
                        available_amount: amount_of(
                            account.available_amount@ - on_transaction.amount@,
                        ),
                        held_amount: amount_of(account.held_amount@ + on_transaction.amount@),
                    },
                ),
            ),
            transactions: s.transactions.insert(
                on_transaction.id,
                Transaction::DisputedDeposit(
                    DisputedDepositTransaction {
                        id: on_transaction.id,
                        to_account_id: on_transaction.to_account_id,
                        amount: on_transaction.amount,
                    },
                ),
            ),
        },
        ValidOperationRequest::ResolveDispute { on_transaction, account } => EngineView {
            accounts: s.accounts.insert(
                account.id,
                Account::Active(
                    ActiveAccount {
                        id: account.id,
                        available_amount: amount_of(
                            account.available_amount@ + on_transaction.amount@,
                        ),
                        held_amount: amount_of(account.held_amount@ - on_transaction.amount@),
                    },
                ),
            ),
            transactions: s.transactions.insert(
                on_transaction.id,
                Transaction::Deposit(
                    DepositTransaction {
                        id: on_transaction.id,
                        to_account_id: on_transaction.to_account_id,
                        amount: on_transaction.amount,
                    },
                ),
            ),
        },
        ValidOperationRequest::ChargeBack { on_transaction, account } => EngineView {
            accounts: s.accounts.insert(
                account.id,
                Account::Frozen(
                    FrozenAccount {
                        id: account.id,
                        available_amount: account.available_amount,
                        held_amount: amount_of(account.held_amount@ - on_transaction.amount@),
                    },
                ),
            ),
            transactions: s.transactions.insert(
                on_transaction.id,
                Transaction::ChargedBackDeposit(
                    ChargedBackDepositTransaction {
                        id: on_transaction.id,
                        to_account_id: on_transaction.to_account_id,
                        amount: on_transaction.amount,
                    },
                ),
            ),
        },
    }
}

/// One engine step: validate, then execute on success; a rejected request
/// leaves the state exactly as it was.
pub open spec fn spec_step(s: EngineView, r: OperationRequest) -> EngineView {
    match spec_validate(s, r) {
        Ok(v) => spec_execute(s, v),
        Err(_) => s,
    }
}

/// Replay of a whole request sequence from state `s`, one step at a time in
/// arrival order.
pub open spec fn spec_replay(s: EngineView, requests: Seq<OperationRequest>) -> EngineView
    decreases requests.len(),
{
    if requests.len() == 0 {
        s
    } else {
        spec_replay(spec_step(s, requests[0]), requests.drop_first())
    }
}

} // verus!
