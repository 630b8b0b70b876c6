use vstd::prelude::*;

use crate::account::{Account, AccountId, ActiveAccount};
use crate::account_repository::AccountRepository;
use crate::amount::{difference_in_range, in_amount_range, sum_in_range};
use crate::model::{
    amount_of, spec_execute, spec_execute_fits, spec_request_fits, spec_step, spec_validate,
    state_wf, EngineView,
};
use crate::operation_request::OperationRequest;
use crate::transaction::{
    DepositTransaction, DisputedDepositTransaction, Transaction, TransactionId,
    WithdrawalTransaction,
};
use crate::transaction_repository::TransactionRepository;
use crate::valid_operation_request::ValidOperationRequest;
use crate::validator::OperationValidationError;

verus! {

/// The engine: drives one request at a time through validation, execution
/// and store write-back, in arrival order, against cumulative store state.
pub struct PaymentsEngine {
    pub account_repository: AccountRepository,
    pub transaction_repository: TransactionRepository,
}

impl View for PaymentsEngine {
    type V = EngineView;

    open spec fn view(&self) -> EngineView {
        EngineView {
            accounts: self.account_repository@,
            transactions: self.transaction_repository@,
        }
    }
}

impl PaymentsEngine {
    /// Both stores key every entity under its own identifier; established at
    /// construction and preserved by every processed request.
    pub open spec fn wf(&self) -> bool {
        state_wf(self@)
    }

    /// A fresh engine over empty stores.
    pub fn new() -> (r: PaymentsEngine)
        ensures
            r@.accounts == Map::<AccountId, Account>::empty(),
            r@.transactions == Map::<TransactionId, Transaction>::empty(),
            r.wf(),
    {
        PaymentsEngine {
            account_repository: AccountRepository::new(),
            transaction_repository: TransactionRepository::new(),
        }
    }

    /// Whether processing this request keeps all balance arithmetic inside
    /// the machine range of `Amount`; a request that validation rejects
    /// trivially fits. `process` asks for exactly this.
    pub fn request_fits(&self, operation_request: &OperationRequest) -> (b: bool)
        ensures
            b == spec_request_fits(self@, *operation_request),
    {
        match ValidOperationRequest::new(
            operation_request,
            &self.account_repository,
            &self.transaction_repository,
        ) {
            Err(_) => true,
            Ok(valid_operation_request) => match valid_operation_request {
                ValidOperationRequest::Deposit { new_transaction, to_account } => sum_in_range(
                    to_account.available_amount.units(),
                    new_transaction.amount.units(),
                ),
                ValidOperationRequest::Withdrawal {
                    new_transaction,
                    from_account,
                } => difference_in_range(
                    from_account.available_amount.units(),
                    new_transaction.amount.units(),
                ),
                ValidOperationRequest::OpenDispute { on_transaction, account } => {
                    difference_in_range(account.available_amount.units(), on_transaction.amount.units())
                        && sum_in_range(account.held_amount.units(), on_transaction.amount.units())
                },
                ValidOperationRequest::ResolveDispute { on_transaction, account } => {
                    sum_in_range(account.available_amount.units(), on_transaction.amount.units())
                        && difference_in_range(
                        account.held_amount.units(),
                        on_transaction.amount.units(),
                    )
                },
                ValidOperationRequest::ChargeBack { on_transaction, account } => {
                    difference_in_range(account.held_amount.units(), on_transaction.amount.units())
                },
            },
        }
    }

    /// The engine's only entry point: validate the raw request against the
    /// current stores and, on success, execute the resolved command and
    /// persist its output. A rejected request leaves every store exactly as
    /// it was and hands back the non-empty rejection reasons for reporting.
    pub fn process(&mut self, operation_request: OperationRequest) -> (r: Result<
        (),
        Vec<OperationValidationError>,
    >)
        requires
            spec_request_fits(old(self)@, operation_request),
        ensures
            final(self)@ == spec_step(old(self)@, operation_request),
            match r {
                Ok(_) => spec_validate(old(self)@, operation_request) is Ok,
                Err(errors) => spec_validate(old(self)@, operation_request) matches Err(es)
                    && errors@ == es,
            },
            old(self).wf() ==> final(self).wf(),
    {
        let valid_operation_request = ValidOperationRequest::new(
            &operation_request,
            &self.account_repository,
            &self.transaction_repository,
        );
        match valid_operation_request {
            Ok(valid_operation_request) => {
                process_valid_operation_request(
                    valid_operation_request,
                    &mut self.account_repository,
                    &mut self.transaction_repository,
                );
                Ok(())
            },
            Err(errors) => Err(errors),
        }
    }

    /// A snapshot of all current accounts, in no particular order.
    pub fn accounts(&self) -> (r: Vec<Account>)
        requires
            self.wf(),
        ensures
            r@.len() == self@.accounts.dom().len(),
            forall|i: int|
                0 <= i < r@.len() ==> self@.accounts.contains_key((#[trigger] r@[i]).spec_id())
                    && self@.accounts[r@[i].spec_id()] == r@[i],
            forall|i: int, j: int|
                0 <= i < j < r@.len() ==> r@[i].spec_id() != r@[j].spec_id(),
            forall|k: AccountId| #[trigger]
                self@.accounts.contains_key(k) ==> r@.contains(self@.accounts[k]),
    {
        proof {
            assert forall|k: AccountId| self.account_repository@.contains_key(k) implies (
            #[trigger] self.account_repository@[k]).spec_id() == k by {
                assert(self@.accounts.contains_key(k));
            }
        }
        self.account_repository.all()
    }
}

/// Apply a resolved command: compute the new snapshots and write them back.
/// By construction this cannot fail for business reasons; the one deliberate
/// exception is the silent no-op of an insufficiently funded withdrawal.
fn process_valid_operation_request(
    valid_operation_request: ValidOperationRequest,
    account_repository: &mut AccountRepository,
    transaction_repository: &mut TransactionRepository,
)
    requires
        spec_execute_fits(valid_operation_request),
    ensures
        ({
            let s = EngineView {
                accounts: old(account_repository)@,
                transactions: old(transaction_repository)@,
            };
            &&& final(account_repository)@ == spec_execute(s, valid_operation_request).accounts
            &&& final(transaction_repository)@ == spec_execute(s, valid_operation_request).transactions
        }),
        old(account_repository).wf() ==> final(account_repository).wf(),
        old(transaction_repository).wf() ==> final(transaction_repository).wf(),
{
    let updated_account = match valid_operation_request {
        ValidOperationRequest::Deposit { new_transaction, to_account } => process_deposit(
            new_transaction,
            to_account,
            transaction_repository,
        ),
        ValidOperationRequest::Withdrawal { new_transaction, from_account } => process_withdrawal(
            new_transaction,
            from_account,
            transaction_repository,
        ),
        ValidOperationRequest::OpenDispute { on_transaction, account } => process_open_dispute(
            on_transaction,
            account,
            transaction_repository,
        ),
        ValidOperationRequest::ResolveDispute { on_transaction, account } => process_resolve_dispute(
            on_transaction,
            account,
            transaction_repository,
        ),
        ValidOperationRequest::ChargeBack { on_transaction, account } => process_chargeback(
            on_transaction,
            account,
            transaction_repository,
        ),
    };

    account_repository.store(updated_account);
}

/// Credit the deposit and record the new transaction.
fn process_deposit(
    deposit_transaction: DepositTransaction,
    to_account: ActiveAccount,
    transaction_repository: &mut TransactionRepository,
) -> (r: Account)
    requires
        in_amount_range(to_account.available_amount@ + deposit_transaction.amount@),
    ensures
        final(transaction_repository)@ == old(transaction_repository)@.insert(
            deposit_transaction.id,
            Transaction::Deposit(deposit_transaction),
        ),
        r == Account::Active(
            ActiveAccount {
                id: to_account.id,
                available_amount: amount_of(
                    to_account.available_amount@ + deposit_transaction.amount@,
                ),
                held_amount: to_account.held_amount,
            },
        ),
        old(transaction_repository).wf() ==> final(transaction_repository).wf(),
{
    let updated_account = to_account.deposit(&deposit_transaction);
    transaction_repository.store(Transaction::Deposit(deposit_transaction));
    Account::Active(updated_account)
}

/// Debit the withdrawal and record it, unless the available funds would go
/// negative: then nothing is recorded and the account is handed back
/// unchanged — a silent no-op, not an error.
fn process_withdrawal(
    withdrawal_transaction: WithdrawalTransaction,
    from_account: ActiveAccount,
    transaction_repository: &mut TransactionRepository,
) -> (r: Account)
    requires
        in_amount_range(from_account.available_amount@ - withdrawal_transaction.amount@),
    ensures
        from_account.available_amount@ - withdrawal_transaction.amount@ < 0
            ==> final(transaction_repository)@ == old(transaction_repository)@ && r
            == Account::Active(from_account),
        from_account.available_amount@ - withdrawal_transaction.amount@ >= 0
            ==> final(transaction_repository)@ == old(transaction_repository)@.insert(
            withdrawal_transaction.id,
            Transaction::Withdrawal(withdrawal_transaction),
        ) && r == Account::Active(
            ActiveAccount {
                id: from_account.id,
                available_amount: amount_of(
                    from_account.available_amount@ - withdrawal_transaction.amount@,
                ),
                held_amount: from_account.held_amount,
            },
        ),
        old(transaction_repository).wf() ==> final(transaction_repository).wf(),
{
    let updated_account_result = from_account.withdraw(&withdrawal_transaction);
    match updated_account_result {
        Ok(updated_account) => {
            transaction_repository.store(Transaction::Withdrawal(withdrawal_transaction));
            Account::Active(updated_account)
        },
        Err(active_account) => Account::Active(active_account),
    }
}

/// Move the disputed amount from available to held and mark the deposit
/// disputed.
fn process_open_dispute(
    deposit_transaction: DepositTransaction,
    account: ActiveAccount,
    transaction_repository: &mut TransactionRepository,
) -> (r: Account)
    requires
        in_amount_range(account.available_amount@ - deposit_transaction.amount@),
        in_amount_range(account.held_amount@ + deposit_transaction.amount@),
    ensures
        final(transaction_repository)@ == old(transaction_repository)@.insert(
            deposit_transaction.id,
            Transaction::DisputedDeposit(
                DisputedDepositTransaction {
                    id: deposit_transaction.id,
                    to_account_id: deposit_transaction.to_account_id,
                    amount: deposit_transaction.amount,
                },
            ),
        ),
        r == Account::Active(
            ActiveAccount {
                id: account.id,
                available_amount: amount_of(account.available_amount@ - deposit_transaction.amount@),
                held_amount: amount_of(account.held_amount@ + deposit_transaction.amount@),
            },
        ),
        old(transaction_repository).wf() ==> final(transaction_repository).wf(),
{
    let updated_account = account.hold_amount(deposit_transaction.amount());
    let updated_transaction = deposit_transaction.open_dispute();
    transaction_repository.store(Transaction::DisputedDeposit(updated_transaction));
    Account::Active(updated_account)
}

/// Release the held amount back to available and return the deposit to its
/// plain state.
fn process_resolve_dispute(
    disputed_deposit_transaction: DisputedDepositTransaction,
    account: ActiveAccount,
    transaction_repository: &mut TransactionRepository,
) -> (r: Account)
    requires
        in_amount_range(account.available_amount@ + disputed_deposit_transaction.amount@),
        in_amount_range(account.held_amount@ - disputed_deposit_transaction.amount@),
    ensures
        final(transaction_repository)@ == old(transaction_repository)@.insert(
            disputed_deposit_transaction.id,
            Transaction::Deposit(
                DepositTransaction {
                    id: disputed_deposit_transaction.id,
                    to_account_id: disputed_deposit_transaction.to_account_id,
                    amount: disputed_deposit_transaction.amount,
                },
            ),
        ),
        r == Account::Active(
            ActiveAccount {
                id: account.id,
                available_amount: amount_of(
                    account.available_amount@ + disputed_deposit_transaction.amount@,
                ),
                held_amount: amount_of(
                    account.held_amount@ - disputed_deposit_transaction.amount@,
                ),
            },
        ),
        old(transaction_repository).wf() ==> final(transaction_repository).wf(),
{
    let updated_account = account.release_held_amount(disputed_deposit_transaction.amount());
    let updated_transaction = disputed_deposit_transaction.resolve_dispute();
    transaction_repository.store(Transaction::Deposit(updated_transaction));
    Account::Active(updated_account)
}

/// Release the hold without restoring available funds, mark the deposit
/// charged back, and freeze the owning account for good.
fn process_chargeback(
    disputed_deposit_transaction: DisputedDepositTransaction,
    account: ActiveAccount,
    transaction_repository: &mut TransactionRepository,
) -> (r: Account)
    requires
        in_amount_range(account.held_amount@ - disputed_deposit_transaction.amount@),
    ensures
        final(transaction_repository)@ == old(transaction_repository)@.insert(
            disputed_deposit_transaction.id,
            Transaction::ChargedBackDeposit(
                crate::transaction::ChargedBackDepositTransaction {
                    id: disputed_deposit_transaction.id,
                    to_account_id: disputed_deposit_transaction.to_account_id,
                    amount: disputed_deposit_transaction.amount,
                },
            ),
        ),
        r == Account::Frozen(
            crate::account::FrozenAccount {
                id: account.id,
                available_amount: account.available_amount,
                held_amount: amount_of(
                    account.held_amount@ - disputed_deposit_transaction.amount@,
                ),
            },
        ),
        old(transaction_repository).wf() ==> final(transaction_repository).wf(),
{
    let updated_account = account.charge_back_amount(disputed_deposit_transaction.amount());
    let updated_transaction = disputed_deposit_transaction.charge_back();
    transaction_repository.store(Transaction::ChargedBackDeposit(updated_transaction));
    Account::Frozen(updated_account)
}

} // verus!
