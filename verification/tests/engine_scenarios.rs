use payments_engine::account::Account;
use payments_engine::amount::Amount;
use payments_engine::operation_request::{
    ChargebackOperationRequest, DepositOperationRequest, DisputeOperationRequest,
    OperationRequest, ResolveOperationRequest, WithdrawalOperationRequest,
};
use payments_engine::payments_engine::PaymentsEngine;
use payments_engine::validator::OperationValidationError;

fn amount(units: i128) -> Amount {
    Amount::from_units(units)
}

fn deposit(client: u16, tx: u32, units: i128) -> OperationRequest {
    OperationRequest::Deposit(DepositOperationRequest {
        account_id: client,
        transaction_id: tx,
        amount: amount(units),
    })
}

fn withdrawal(client: u16, tx: u32, units: i128) -> OperationRequest {
    OperationRequest::Withdrawal(WithdrawalOperationRequest {
        account_id: client,
        transaction_id: tx,
        amount: amount(units),
    })
}

fn dispute(tx: u32) -> OperationRequest {
    OperationRequest::Dispute(DisputeOperationRequest { transaction_id: tx })
}

fn resolve(tx: u32) -> OperationRequest {
    OperationRequest::Resolve(ResolveOperationRequest { transaction_id: tx })
}

fn chargeback(tx: u32) -> OperationRequest {
    OperationRequest::Chargeback(ChargebackOperationRequest { transaction_id: tx })
}

fn sorted_accounts(engine: &PaymentsEngine) -> Vec<Account> {
    let mut accounts = engine.accounts();
    accounts.sort_by_key(|account| account.id());
    accounts
}

#[test]
fn deposit_on_empty_state_creates_account() {
    let mut engine = PaymentsEngine::new();
    // 1.5 with four fractional digits is 15000 units.
    assert!(engine.process(deposit(1, 1, 15000)).is_ok());

    let accounts = sorted_accounts(&engine);
    assert_eq!(accounts.len(), 1);
    assert_eq!(accounts[0].id(), 1);
    assert_eq!(accounts[0].available_amount(), amount(15000));
    assert_eq!(accounts[0].held_amount(), amount(0));
    assert_eq!(accounts[0].total_amount(), amount(15000));
    assert!(!accounts[0].is_locked());
}

#[test]
fn duplicate_transaction_id_is_rejected() {
    let mut engine = PaymentsEngine::new();
    assert!(engine.process(deposit(1, 1, 20000)).is_ok());

    let second = engine.process(deposit(1, 1, 30000));
    assert_eq!(
        second.unwrap_err(),
        vec![OperationValidationError::DuplicateTransactionId]
    );

    let accounts = sorted_accounts(&engine);
    assert_eq!(accounts.len(), 1);
    assert_eq!(accounts[0].available_amount(), amount(20000));
}

#[test]
fn insufficient_withdrawal_is_silently_dropped() {
    let mut engine = PaymentsEngine::new();
    assert!(engine.process(deposit(2, 10, 50000)).is_ok());

    // The withdrawal validates, so the engine reports success, but the
    // execution-time balance re-check makes it a no-op.
    assert!(engine.process(withdrawal(2, 11, 70000)).is_ok());

    let accounts = sorted_accounts(&engine);
    assert_eq!(accounts.len(), 1);
    assert_eq!(accounts[0].available_amount(), amount(50000));
    assert_eq!(accounts[0].held_amount(), amount(0));
    assert!(!accounts[0].is_locked());

    // The dropped withdrawal recorded no transaction, so its identifier is
    // still free for a later request.
    assert!(engine.process(withdrawal(2, 11, 10000)).is_ok());
    let accounts = sorted_accounts(&engine);
    assert_eq!(accounts[0].available_amount(), amount(40000));
}

#[test]
fn chargeback_freezes_account_and_reverses_funds() {
    let mut engine = PaymentsEngine::new();
    assert!(engine.process(deposit(3, 20, 100000)).is_ok());
    assert!(engine.process(dispute(20)).is_ok());
    assert!(engine.process(chargeback(20)).is_ok());

    let accounts = sorted_accounts(&engine);
    assert_eq!(accounts.len(), 1);
    assert_eq!(accounts[0].id(), 3);
    assert_eq!(accounts[0].available_amount(), amount(0));
    assert_eq!(accounts[0].held_amount(), amount(0));
    assert_eq!(accounts[0].total_amount(), amount(0));
    assert!(accounts[0].is_locked());
}

#[test]
fn dispute_of_unknown_transaction_is_rejected() {
    let mut engine = PaymentsEngine::new();
    let result = engine.process(dispute(99));
    assert_eq!(
        result.unwrap_err(),
        vec![OperationValidationError::TransactionNotFound]
    );
    assert_eq!(engine.accounts().len(), 0);
}

#[test]
fn second_dispute_of_same_deposit_is_rejected() {
    let mut engine = PaymentsEngine::new();
    assert!(engine.process(deposit(3, 20, 100000)).is_ok());
    assert!(engine.process(dispute(20)).is_ok());

    let result = engine.process(dispute(20));
    assert_eq!(
        result.unwrap_err(),
        vec![OperationValidationError::TransactionNotInDepositState]
    );
}

#[test]
fn dispute_moves_funds_from_available_to_held() {
    let mut engine = PaymentsEngine::new();
    assert!(engine.process(deposit(4, 1, 100000)).is_ok());
    assert!(engine.process(dispute(1)).is_ok());

    let accounts = sorted_accounts(&engine);
    assert_eq!(accounts[0].available_amount(), amount(0));
    assert_eq!(accounts[0].held_amount(), amount(100000));
    assert_eq!(accounts[0].total_amount(), amount(100000));
    assert!(!accounts[0].is_locked());
}

#[test]
fn resolve_returns_held_funds_to_available() {
    let mut engine = PaymentsEngine::new();
    assert!(engine.process(deposit(4, 1, 100000)).is_ok());
    assert!(engine.process(dispute(1)).is_ok());
    assert!(engine.process(resolve(1)).is_ok());

    let accounts = sorted_accounts(&engine);
    assert_eq!(accounts[0].available_amount(), amount(100000));
    assert_eq!(accounts[0].held_amount(), amount(0));
    assert!(!accounts[0].is_locked());

    // A resolved deposit is a plain deposit again, so it can be disputed
    // once more.
    assert!(engine.process(dispute(1)).is_ok());
    let accounts = sorted_accounts(&engine);
    assert_eq!(accounts[0].held_amount(), amount(100000));
}

#[test]
fn dispute_after_partial_withdrawal_can_drive_available_negative() {
    let mut engine = PaymentsEngine::new();
    assert!(engine.process(deposit(1, 1, 100000)).is_ok());
    assert!(engine.process(withdrawal(1, 2, 80000)).is_ok());
    // Opening the dispute moves the full deposited amount to held, with no
    // lower-bound check on available.
    assert!(engine.process(dispute(1)).is_ok());

    let accounts = sorted_accounts(&engine);
    assert_eq!(accounts[0].available_amount(), amount(-80000));
    assert_eq!(accounts[0].held_amount(), amount(100000));
    assert_eq!(accounts[0].total_amount(), amount(20000));
}

#[test]
fn operations_on_frozen_account_are_rejected() {
    let mut engine = PaymentsEngine::new();
    assert!(engine.process(deposit(1, 1, 100000)).is_ok());
    assert!(engine.process(deposit(1, 2, 50000)).is_ok());
    assert!(engine.process(dispute(1)).is_ok());
    assert!(engine.process(chargeback(1)).is_ok());

    let frozen_deposit = engine.process(deposit(1, 3, 10000));
    assert_eq!(
        frozen_deposit.unwrap_err(),
        vec![OperationValidationError::AccountFrozen]
    );

    let frozen_withdrawal = engine.process(withdrawal(1, 4, 10000));
    assert_eq!(
        frozen_withdrawal.unwrap_err(),
        vec![OperationValidationError::AccountFrozen]
    );

    // Transaction 2 is still a plain deposit, but its owner is frozen.
    let frozen_dispute = engine.process(dispute(2));
    assert_eq!(
        frozen_dispute.unwrap_err(),
        vec![OperationValidationError::AccountFrozen]
    );

    let accounts = sorted_accounts(&engine);
    assert_eq!(accounts.len(), 1);
    assert_eq!(accounts[0].available_amount(), amount(50000));
    assert!(accounts[0].is_locked());
}

#[test]
fn deposit_rejections_are_all_collected() {
    let mut engine = PaymentsEngine::new();
    assert!(engine.process(deposit(1, 1, 100000)).is_ok());
    assert!(engine.process(dispute(1)).is_ok());
    assert!(engine.process(chargeback(1)).is_ok());

    // Frozen account, negative amount and duplicate identifier all at once:
    // the independent checks report every violated rule, in order.
    let result = engine.process(deposit(1, 1, -5000));
    assert_eq!(
        result.unwrap_err(),
        vec![
            OperationValidationError::AccountFrozen,
            OperationValidationError::NegativeAmount,
            OperationValidationError::DuplicateTransactionId,
        ]
    );
}

#[test]
fn withdrawal_rejections_are_all_collected() {
    let mut engine = PaymentsEngine::new();
    assert!(engine.process(deposit(1, 1, 100000)).is_ok());

    // Unknown account, negative amount and duplicate identifier.
    let result = engine.process(withdrawal(9, 1, -5000));
    assert_eq!(
        result.unwrap_err(),
        vec![
            OperationValidationError::AccountNotFound,
            OperationValidationError::NegativeAmount,
            OperationValidationError::DuplicateTransactionId,
        ]
    );
    assert_eq!(engine.accounts().len(), 1);
}

#[test]
fn negative_deposit_on_empty_state_creates_no_account() {
    let mut engine = PaymentsEngine::new();
    let result = engine.process(deposit(1, 1, -10000));
    assert_eq!(
        result.unwrap_err(),
        vec![OperationValidationError::NegativeAmount]
    );
    assert_eq!(engine.accounts().len(), 0);
}

#[test]
fn withdrawal_from_unknown_account_is_rejected() {
    let mut engine = PaymentsEngine::new();
    let result = engine.process(withdrawal(7, 1, 10000));
    assert_eq!(
        result.unwrap_err(),
        vec![OperationValidationError::AccountNotFound]
    );
    assert_eq!(engine.accounts().len(), 0);
}

#[test]
fn dispute_of_withdrawal_transaction_is_rejected() {
    let mut engine = PaymentsEngine::new();
    assert!(engine.process(deposit(1, 1, 100000)).is_ok());
    assert!(engine.process(withdrawal(1, 2, 30000)).is_ok());

    let result = engine.process(dispute(2));
    assert_eq!(
        result.unwrap_err(),
        vec![OperationValidationError::TransactionNotInDepositState]
    );
}

#[test]
fn resolve_requires_disputed_deposit() {
    let mut engine = PaymentsEngine::new();
    assert!(engine.process(deposit(1, 1, 100000)).is_ok());

    let on_plain_deposit = engine.process(resolve(1));
    assert_eq!(
        on_plain_deposit.unwrap_err(),
        vec![OperationValidationError::TransactionNotInDisputedState]
    );

    let on_unknown = engine.process(resolve(99));
    assert_eq!(
        on_unknown.unwrap_err(),
        vec![OperationValidationError::TransactionNotFound]
    );
}

#[test]
fn chargeback_requires_disputed_deposit() {
    let mut engine = PaymentsEngine::new();
    assert!(engine.process(deposit(1, 1, 100000)).is_ok());

    let on_plain_deposit = engine.process(chargeback(1));
    assert_eq!(
        on_plain_deposit.unwrap_err(),
        vec![OperationValidationError::TransactionNotInDisputedState]
    );

    let on_unknown = engine.process(chargeback(99));
    assert_eq!(
        on_unknown.unwrap_err(),
        vec![OperationValidationError::TransactionNotFound]
    );
}

#[test]
fn charged_back_transaction_is_terminal() {
    let mut engine = PaymentsEngine::new();
    assert!(engine.process(deposit(1, 1, 100000)).is_ok());
    assert!(engine.process(dispute(1)).is_ok());
    assert!(engine.process(chargeback(1)).is_ok());

    // The charged-back deposit can be neither disputed nor resolved nor
    // charged back again, and its identifier stays taken.
    assert_eq!(
        engine.process(dispute(1)).unwrap_err(),
        vec![OperationValidationError::TransactionNotInDepositState]
    );
    assert_eq!(
        engine.process(resolve(1)).unwrap_err(),
        vec![OperationValidationError::TransactionNotInDisputedState]
    );
    assert_eq!(
        engine.process(chargeback(1)).unwrap_err(),
        vec![OperationValidationError::TransactionNotInDisputedState]
    );
}

#[test]
fn held_funds_count_into_total() {
    let mut engine = PaymentsEngine::new();
    assert!(engine.process(deposit(4, 100, 10010000)).is_ok());
    assert!(engine.process(deposit(4, 101, 120000)).is_ok());
    assert!(engine.process(dispute(101)).is_ok());

    let accounts = sorted_accounts(&engine);
    assert_eq!(accounts.len(), 1);
    assert_eq!(accounts[0].available_amount(), amount(10010000));
    assert_eq!(accounts[0].held_amount(), amount(120000));
    assert_eq!(accounts[0].total_amount(), amount(10130000));
    assert!(!accounts[0].is_locked());
}

#[test]
fn replaying_identical_requests_yields_identical_accounts() {
    let requests = [
        deposit(1, 1, 100000),
        deposit(2, 2, 50000),
        withdrawal(1, 3, 30000),
        dispute(2),
        chargeback(2),
        deposit(3, 4, 12345),
        resolve(99),
    ];

    let mut first = PaymentsEngine::new();
    let mut second = PaymentsEngine::new();
    for request in requests.iter() {
        let _ = first.process(*request);
        let _ = second.process(*request);
    }

    let first_accounts = sorted_accounts(&first);
    let second_accounts = sorted_accounts(&second);
    assert_eq!(first_accounts.len(), second_accounts.len());
    for (a, b) in first_accounts.iter().zip(second_accounts.iter()) {
        assert_eq!(a, b);
    }
}

#[test]
fn request_fits_detects_overflowing_deposit() {
    let mut engine = PaymentsEngine::new();
    let huge = deposit(1, 1, i128::MAX);
    assert!(engine.request_fits(&huge));
    assert!(engine.process(huge).is_ok());

    // One more unit would overflow the account's available amount.
    let one_more = deposit(1, 2, 1);
    assert!(!engine.request_fits(&one_more));

    // An ordinary request against a different account still fits.
    assert!(engine.request_fits(&deposit(2, 3, 10000)));
}
