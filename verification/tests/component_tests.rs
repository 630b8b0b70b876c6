use payments_engine::account::{Account, ActiveAccount};
use payments_engine::account_repository::AccountRepository;
use payments_engine::amount::{difference_in_range, sum_in_range, Amount};
use payments_engine::operation_request::{
    CsvOperationType, DepositOperationRequest, OperationCsvRow, OperationRequest,
};
use payments_engine::valid_operation_request::ValidOperationRequest;
use payments_engine::transaction::{
    DepositTransaction, Transaction, WithdrawalTransaction,
};
use payments_engine::transaction_repository::TransactionRepository;
use payments_engine::validator::{
    validate_existing_and_active_account, validate_existing_transaction,
    validate_positive_amount, validate_transaction_is_deposit,
    validate_transaction_is_disputed_deposit, validate_unique_transaction_id,
    OperationValidationError,
};

fn amount(units: i128) -> Amount {
    Amount::from_units(units)
}

#[test]
fn amount_arithmetic_is_exact() {
    assert_eq!(Amount::zero().units(), 0);
    assert_eq!(amount(15000).plus(&amount(25000)), amount(40000));
    assert_eq!(amount(15000).minus(&amount(25000)), amount(-10000));
    assert!(amount(-1).is_sign_negative());
    assert!(!amount(0).is_sign_negative());
    assert!(!amount(42).is_sign_negative());
}

#[test]
fn range_checks_catch_overflow() {
    assert!(sum_in_range(i128::MAX - 1, 1));
    assert!(!sum_in_range(i128::MAX, 1));
    assert!(sum_in_range(i128::MIN, 0));
    assert!(!sum_in_range(i128::MIN, -1));
    assert!(difference_in_range(i128::MIN + 1, 1));
    assert!(!difference_in_range(i128::MIN, 1));
    assert!(!difference_in_range(i128::MAX, -1));
    assert!(difference_in_range(0, i128::MAX));
}

#[test]
fn active_account_transitions() {
    let account = ActiveAccount::new(7);
    assert_eq!(account.id(), 7);
    assert_eq!(account.total_amount(), amount(0));

    let deposit_transaction = DepositTransaction::new(1, 7, amount(100000));
    let after_deposit = account.deposit(&deposit_transaction);
    assert_eq!(after_deposit.total_amount(), amount(100000));

    let withdrawal_transaction = WithdrawalTransaction::new(2, 7, amount(30000));
    let after_withdrawal = after_deposit.withdraw(&withdrawal_transaction).unwrap();
    assert_eq!(after_withdrawal.total_amount(), amount(70000));

    // Withdrawing more than is available hands the account back unchanged.
    let too_much = WithdrawalTransaction::new(3, 7, amount(80000));
    let unchanged = after_withdrawal.withdraw(&too_much).unwrap_err();
    assert_eq!(unchanged.total_amount(), amount(70000));

    let held = after_withdrawal.hold_amount(amount(50000));
    assert_eq!(held.total_amount(), amount(70000));

    let released = held.release_held_amount(amount(50000));
    assert_eq!(released.total_amount(), amount(70000));

    let frozen = held.charge_back_amount(amount(50000));
    assert_eq!(frozen.total_amount(), amount(20000));
}

#[test]
fn account_views_expose_both_variants() {
    let active = Account::Active(ActiveAccount::new(3));
    assert_eq!(active.id(), 3);
    assert_eq!(active.available_amount(), amount(0));
    assert_eq!(active.held_amount(), amount(0));
    assert_eq!(active.total_amount(), amount(0));
    assert!(!active.is_locked());

    let deposit_transaction = DepositTransaction::new(1, 3, amount(40000));
    let held = ActiveAccount::new(3).deposit(&deposit_transaction).hold_amount(amount(15000));
    let frozen = Account::Frozen(held.charge_back_amount(amount(15000)));
    assert_eq!(frozen.id(), 3);
    assert_eq!(frozen.available_amount(), amount(25000));
    assert_eq!(frozen.held_amount(), amount(0));
    assert_eq!(frozen.total_amount(), amount(25000));
    assert!(frozen.is_locked());
}

#[test]
fn deposit_lifecycle_keeps_identity() {
    let deposit_transaction = DepositTransaction::new(11, 5, amount(12345));
    assert_eq!(deposit_transaction.amount(), amount(12345));
    assert_eq!(deposit_transaction.to_account_id(), 5);

    let disputed = deposit_transaction.open_dispute();
    assert_eq!(disputed.amount(), amount(12345));
    assert_eq!(disputed.to_account_id(), 5);

    let resolved = disputed.resolve_dispute();
    assert_eq!(resolved.amount(), amount(12345));
    assert_eq!(resolved.to_account_id(), 5);

    let charged_back = disputed.charge_back();
    assert_eq!(Transaction::ChargedBackDeposit(charged_back).id(), 11);
    assert_eq!(Transaction::Deposit(resolved).id(), 11);
    assert_eq!(Transaction::DisputedDeposit(disputed).id(), 11);

    let withdrawal_transaction = WithdrawalTransaction::new(12, 5, amount(1));
    assert_eq!(withdrawal_transaction.amount(), amount(1));
    assert_eq!(Transaction::Withdrawal(withdrawal_transaction).id(), 12);
}

#[test]
fn account_repository_upserts_by_id() {
    let mut repository = AccountRepository::new();
    assert!(repository.find(1).is_none());
    assert_eq!(repository.all().len(), 0);

    repository.store(Account::Active(ActiveAccount::new(1)));
    repository.store(Account::Active(ActiveAccount::new(2)));
    let deposit_transaction = DepositTransaction::new(1, 1, amount(5000));
    repository.store(Account::Active(ActiveAccount::new(1).deposit(&deposit_transaction)));

    assert_eq!(repository.all().len(), 2);
    let found = repository.find(1).unwrap();
    assert_eq!(found.available_amount(), amount(5000));
    assert!(repository.find(3).is_none());
}

#[test]
fn transaction_repository_upserts_by_id() {
    let mut repository = TransactionRepository::new();
    assert!(repository.find(10).is_none());

    let deposit_transaction = DepositTransaction::new(10, 1, amount(5000));
    repository.store(Transaction::Deposit(deposit_transaction));
    assert!(matches!(repository.find(10), Some(Transaction::Deposit(_))));

    repository.store(Transaction::DisputedDeposit(deposit_transaction.open_dispute()));
    assert!(matches!(repository.find(10), Some(Transaction::DisputedDeposit(_))));
    assert!(repository.find(11).is_none());
}

#[test]
fn validators_report_the_exact_reason() {
    let active = Account::Active(ActiveAccount::new(1));
    assert!(validate_existing_and_active_account(Some(&active)).is_ok());
    assert_eq!(
        validate_existing_and_active_account(None).unwrap_err(),
        OperationValidationError::AccountNotFound
    );
    let deposit_transaction = DepositTransaction::new(1, 1, amount(1000));
    let frozen = Account::Frozen(
        ActiveAccount::new(1)
            .deposit(&deposit_transaction)
            .hold_amount(amount(1000))
            .charge_back_amount(amount(1000)),
    );
    assert_eq!(
        validate_existing_and_active_account(Some(&frozen)).unwrap_err(),
        OperationValidationError::AccountFrozen
    );

    assert_eq!(validate_positive_amount(amount(0)).unwrap(), amount(0));
    assert_eq!(
        validate_positive_amount(amount(-1)).unwrap_err(),
        OperationValidationError::NegativeAmount
    );

    let mut transactions = TransactionRepository::new();
    transactions.store(Transaction::Deposit(deposit_transaction));
    assert_eq!(
        validate_unique_transaction_id(1, &transactions).unwrap_err(),
        OperationValidationError::DuplicateTransactionId
    );
    assert_eq!(validate_unique_transaction_id(2, &transactions).unwrap(), 2);

    assert!(validate_existing_transaction(1, &transactions).is_ok());
    assert_eq!(
        validate_existing_transaction(2, &transactions).unwrap_err(),
        OperationValidationError::TransactionNotFound
    );

    let stored = Transaction::Deposit(deposit_transaction);
    assert!(validate_transaction_is_deposit(&stored).is_ok());
    assert_eq!(
        validate_transaction_is_disputed_deposit(&stored).unwrap_err(),
        OperationValidationError::TransactionNotInDisputedState
    );

    let disputed = Transaction::DisputedDeposit(deposit_transaction.open_dispute());
    assert!(validate_transaction_is_disputed_deposit(&disputed).is_ok());
    assert_eq!(
        validate_transaction_is_deposit(&disputed).unwrap_err(),
        OperationValidationError::TransactionNotInDepositState
    );
}

#[test]
fn validation_resolves_a_full_command() {
    let accounts = AccountRepository::new();
    let transactions = TransactionRepository::new();

    let request = OperationRequest::Deposit(DepositOperationRequest {
        account_id: 8,
        transaction_id: 3,
        amount: amount(9999),
    });
    match ValidOperationRequest::new(&request, &accounts, &transactions).unwrap() {
        ValidOperationRequest::Deposit { new_transaction, to_account } => {
            // The transient default account was materialized for validation
            // only; nothing was persisted.
            assert_eq!(to_account.id(), 8);
            assert_eq!(to_account.total_amount(), amount(0));
            assert_eq!(new_transaction.amount(), amount(9999));
            assert_eq!(new_transaction.to_account_id(), 8);
        }
        _ => panic!("expected a resolved deposit"),
    }
    assert!(accounts.find(8).is_none());
}

#[test]
fn rejection_reasons_name_themselves() {
    assert_eq!(
        OperationValidationError::AccountNotFound.as_text(),
        "AccountNotFound"
    );
    assert_eq!(
        OperationValidationError::DuplicateTransactionId.as_text(),
        "DuplicateTransactionId"
    );
    assert_eq!(
        OperationValidationError::TransactionNotInDisputedState.as_text(),
        "TransactionNotInDisputedState"
    );
}

#[test]
fn csv_rows_become_requests() {
    let deposit_row = OperationCsvRow {
        operation_type: CsvOperationType::Deposit,
        client: 1,
        tx: 9,
        amount: Some(amount(15000)),
    };
    match OperationRequest::new_from_csv(deposit_row).unwrap() {
        OperationRequest::Deposit(request) => {
            assert_eq!(request.account_id, 1);
            assert_eq!(request.transaction_id, 9);
            assert_eq!(request.amount, amount(15000));
        }
        _ => panic!("expected a deposit request"),
    }

    let withdrawal_row = OperationCsvRow {
        operation_type: CsvOperationType::Withdrawal,
        client: 2,
        tx: 10,
        amount: Some(amount(25000)),
    };
    assert!(matches!(
        OperationRequest::new_from_csv(withdrawal_row),
        Ok(OperationRequest::Withdrawal(_))
    ));

    let dispute_row = OperationCsvRow {
        operation_type: CsvOperationType::Dispute,
        client: 2,
        tx: 10,
        amount: None,
    };
    match OperationRequest::new_from_csv(dispute_row).unwrap() {
        OperationRequest::Dispute(request) => assert_eq!(request.transaction_id, 10),
        _ => panic!("expected a dispute request"),
    }

    let resolve_row = OperationCsvRow {
        operation_type: CsvOperationType::Resolve,
        client: 2,
        tx: 10,
        amount: None,
    };
    assert!(matches!(
        OperationRequest::new_from_csv(resolve_row),
        Ok(OperationRequest::Resolve(_))
    ));

    let chargeback_row = OperationCsvRow {
        operation_type: CsvOperationType::Chargeback,
        client: 2,
        tx: 10,
        amount: None,
    };
    assert!(matches!(
        OperationRequest::new_from_csv(chargeback_row),
        Ok(OperationRequest::Chargeback(_))
    ));
}

#[test]
fn csv_money_rows_without_amount_are_refused() {
    let deposit_row = OperationCsvRow {
        operation_type: CsvOperationType::Deposit,
        client: 1,
        tx: 9,
        amount: None,
    };
    assert!(OperationRequest::new_from_csv(deposit_row).is_err());

    let withdrawal_row = OperationCsvRow {
        operation_type: CsvOperationType::Withdrawal,
        client: 1,
        tx: 9,
        amount: None,
    };
    assert!(OperationRequest::new_from_csv(withdrawal_row).is_err());
}
