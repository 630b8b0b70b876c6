use vstd::prelude::*;

use crate::account::{Account, AccountId};
use crate::model::{
    spec_execute, spec_replay, spec_request_fits,
    spec_step, spec_validate, state_wf, EngineView,
};
use crate::operation_request::{
    ChargebackOperationRequest, DisputeOperationRequest, OperationRequest, ResolveOperationRequest,
    WithdrawalOperationRequest,
};
use crate::transaction::{Transaction, TransactionId};
use crate::valid_operation_request::ValidOperationRequest;
use crate::validator::OperationValidationError;

verus! {

/// For every account, at every observation point, the total amount is the
/// sum of the available and held amounts.
pub proof fn lemma_total_is_available_plus_held(account: Account)
    ensures
        account.spec_total() == account.spec_available() + account.spec_held(),
{
}

/// A rejected request leaves the state exactly as it was.
pub proof fn lemma_rejected_request_leaves_state_unchanged(s: EngineView, r: OperationRequest)
    requires
        spec_validate(s, r) is Err,
    ensures
        spec_step(s, r) == s,
{
}

/// Stored transaction identifiers persist: no step ever removes one, in any
/// lifecycle state.
pub proof fn lemma_transaction_ids_persist(s: EngineView, r: OperationRequest, t: TransactionId)
    requires
        s.transactions.contains_key(t),
    ensures
        spec_step(s, r).transactions.contains_key(t),
{
}

/// A transaction identifier already stored in any lifecycle state is never
/// accepted again as the identifier of a new deposit or withdrawal: the
/// request is rejected with `DuplicateTransactionId` among its reasons and
/// the state is unchanged.
pub proof fn lemma_duplicate_transaction_id_rejected(s: EngineView, r: OperationRequest)
    requires
        match r {
            OperationRequest::Deposit(req) => s.transactions.contains_key(req.transaction_id),
            OperationRequest::Withdrawal(req) => s.transactions.contains_key(req.transaction_id),
            _ => false,
        },
    ensures
        spec_validate(s, r) matches Err(es) && es.contains(
            OperationValidationError::DuplicateTransactionId,
        ),
        spec_step(s, r) == s,
{
    let es = spec_validate(s, r)->Err_0;
    assert(es[es.len() - 1] == OperationValidationError::DuplicateTransactionId);
    assert(es.contains(OperationValidationError::DuplicateTransactionId));
}

/// Disputing a transaction that is not currently a plain deposit is always
/// rejected — with `TransactionNotFound` if it was never stored, else with
/// `TransactionNotInDepositState` — and the state is unchanged.
pub proof fn lemma_dispute_requires_plain_deposit(s: EngineView, r: DisputeOperationRequest)
    requires
        !(s.transactions.contains_key(r.transaction_id) && s.transactions[r.transaction_id]
            is Deposit),
    ensures
        !s.transactions.contains_key(r.transaction_id) ==> spec_validate(
            s,
            OperationRequest::Dispute(r),
        ) == Result::<ValidOperationRequest, Seq<OperationValidationError>>::Err(
            seq![OperationValidationError::TransactionNotFound],
        ),
        s.transactions.contains_key(r.transaction_id) ==> spec_validate(
            s,
            OperationRequest::Dispute(r),
        ) == Result::<ValidOperationRequest, Seq<OperationValidationError>>::Err(
            seq![OperationValidationError::TransactionNotInDepositState],
        ),
        spec_step(s, OperationRequest::Dispute(r)) == s,
{
}

/// Resolving a transaction that is not currently a disputed deposit is
/// always rejected and the state is unchanged.
pub proof fn lemma_resolve_requires_disputed_deposit(s: EngineView, r: ResolveOperationRequest)
    requires
        !(s.transactions.contains_key(r.transaction_id) && s.transactions[r.transaction_id]
            is DisputedDeposit),
    ensures
        !s.transactions.contains_key(r.transaction_id) ==> spec_validate(
            s,
            OperationRequest::Resolve(r),
        ) == Result::<ValidOperationRequest, Seq<OperationValidationError>>::Err(
            seq![OperationValidationError::TransactionNotFound],
        ),
        s.transactions.contains_key(r.transaction_id) ==> spec_validate(
            s,
            OperationRequest::Resolve(r),
        ) == Result::<ValidOperationRequest, Seq<OperationValidationError>>::Err(
            seq![OperationValidationError::TransactionNotInDisputedState],
        ),
        spec_step(s, OperationRequest::Resolve(r)) == s,
{
}

/// Charging back a transaction that is not currently a disputed deposit is
/// always rejected and the state is unchanged.
pub proof fn lemma_chargeback_requires_disputed_deposit(
    s: EngineView,
    r: ChargebackOperationRequest,
)
    requires
        !(s.transactions.contains_key(r.transaction_id) && s.transactions[r.transaction_id]
            is DisputedDeposit),
    ensures
        !s.transactions.contains_key(r.transaction_id) ==> spec_validate(
            s,
            OperationRequest::Chargeback(r),
        ) == Result::<ValidOperationRequest, Seq<OperationValidationError>>::Err(
            seq![OperationValidationError::TransactionNotFound],
        ),
        s.transactions.contains_key(r.transaction_id) ==> spec_validate(
            s,
            OperationRequest::Chargeback(r),
        ) == Result::<ValidOperationRequest, Seq<OperationValidationError>>::Err(
            seq![OperationValidationError::TransactionNotInDisputedState],
        ),
        spec_step(s, OperationRequest::Chargeback(r)) == s,
{
}

/// Whether the request resolves to account `a`: directly for a deposit or
/// withdrawal, and through the referenced transaction's owner for the
/// chained operations, when the transaction is in the state the operation
/// requires.
pub open spec fn spec_references_account(s: EngineView, r: OperationRequest, a: AccountId) -> bool {
    match r {
        OperationRequest::Deposit(req) => req.account_id == a,
        OperationRequest::Withdrawal(req) => req.account_id == a,
        OperationRequest::Dispute(req) => {
            &&& s.transactions.contains_key(req.transaction_id)
            &&& s.transactions[req.transaction_id] matches Transaction::Deposit(d)
            &&& d.to_account_id == a
        },
        OperationRequest::Resolve(req) => {
            &&& s.transactions.contains_key(req.transaction_id)
            &&& s.transactions[req.transaction_id] matches Transaction::DisputedDeposit(d)
            &&& d.to_account_id == a
        },
        OperationRequest::Chargeback(req) => {
            &&& s.transactions.contains_key(req.transaction_id)
            &&& s.transactions[req.transaction_id] matches Transaction::DisputedDeposit(d)
            &&& d.to_account_id == a
        },
    }
}

/// Once an account is frozen, every subsequent operation resolving to it is
/// rejected, with `AccountFrozen` among the reasons, and the state is
/// unchanged.
pub proof fn lemma_frozen_account_operation_rejected(
    s: EngineView,
    r: OperationRequest,
    a: AccountId,
)
    requires
        s.accounts.contains_key(a),
        s.accounts[a] is Frozen,
        spec_references_account(s, r, a),
    ensures
        spec_validate(s, r) matches Err(es) && es.contains(OperationValidationError::AccountFrozen),
        spec_step(s, r) == s,
{
    let es = spec_validate(s, r)->Err_0;
    assert(es[0] == OperationValidationError::AccountFrozen);
    assert(es.contains(OperationValidationError::AccountFrozen));
}

/// A frozen account is terminal: whatever request is processed next, the
/// account's stored snapshot does not change.
pub proof fn lemma_frozen_account_never_changes(s: EngineView, r: OperationRequest, a: AccountId)
    requires
        state_wf(s),
        s.accounts.contains_key(a),
        s.accounts[a] is Frozen,
    ensures
        spec_step(s, r).accounts.contains_key(a),
        spec_step(s, r).accounts[a] == s.accounts[a],
{
    match spec_validate(s, r) {
        Err(_) => {},
        Ok(v) => {
            match v {
                ValidOperationRequest::Deposit { new_transaction, to_account } => {
                    assert(to_account.id != a);
                },
                ValidOperationRequest::Withdrawal { new_transaction, from_account } => {
                    assert(from_account.id != a);
                },
                ValidOperationRequest::OpenDispute { on_transaction, account } => {
                    assert(account.id != a);
                },
                ValidOperationRequest::ResolveDispute { on_transaction, account } => {
                    assert(account.id != a);
                },
                ValidOperationRequest::ChargeBack { on_transaction, account } => {
                    assert(account.id != a);
                },
            }
        },
    }
}

/// A withdrawal that passes validation but would make the available amount
/// negative is a silent no-op: account and transaction state are exactly
/// unchanged.
pub proof fn lemma_insufficient_withdrawal_is_noop(s: EngineView, r: WithdrawalOperationRequest)
    requires
        state_wf(s),
        spec_validate(s, OperationRequest::Withdrawal(r)) is Ok,
        s.accounts.contains_key(r.account_id),
        s.accounts[r.account_id].spec_available() < r.amount@,
    ensures
        spec_step(s, OperationRequest::Withdrawal(r)) == s,
{
    let v = spec_validate(s, OperationRequest::Withdrawal(r))->Ok_0;
    match v {
        ValidOperationRequest::Withdrawal { new_transaction, from_account } => {
            assert(s.accounts[r.account_id] == Account::Active(from_account));
            assert(from_account.id == r.account_id);
            assert(s.accounts.insert(from_account.id, Account::Active(from_account))
                =~= s.accounts);
        },
        _ => {
            assert(false);
        },
    }
}

/// A dispute that validates earmarks exactly the deposit's original amount:
/// it moves from available to held, with no lower-bound check, and the
/// deposit becomes a disputed deposit.
pub proof fn lemma_dispute_holds_deposit_amount(s: EngineView, r: DisputeOperationRequest)
    requires
        state_wf(s),
        spec_validate(s, OperationRequest::Dispute(r)) is Ok,
        spec_request_fits(s, OperationRequest::Dispute(r)),
    ensures
        s.transactions[r.transaction_id] matches Transaction::Deposit(d) ==> {
            let s2 = spec_step(s, OperationRequest::Dispute(r));
            &&& s2.accounts.contains_key(d.to_account_id)
            &&& s2.accounts[d.to_account_id] is Active
            &&& s2.accounts[d.to_account_id].spec_available() == s.accounts[d.to_account_id].spec_available() - d.amount@
            &&& s2.accounts[d.to_account_id].spec_held() == s.accounts[d.to_account_id].spec_held() + d.amount@
            &&& s2.transactions[r.transaction_id] matches Transaction::DisputedDeposit(d2)
            &&& d2.amount == d.amount
            &&& d2.to_account_id == d.to_account_id
        },
{
    if let Transaction::Deposit(d) = s.transactions[r.transaction_id] {
        if let Ok(ValidOperationRequest::OpenDispute { on_transaction, account }) = spec_validate(
            s,
            OperationRequest::Dispute(r),
        ) {
            assert(on_transaction == d);
            assert(s.accounts[d.to_account_id] == Account::Active(account));
            assert(account.id == d.to_account_id);
            assert(on_transaction.id == r.transaction_id);
        } else {
            assert(false);
        }
    }
}

/// A resolve that validates releases exactly the disputed deposit's amount
/// from held back to available, and the deposit is a plain deposit again.
pub proof fn lemma_resolve_releases_hold(s: EngineView, r: ResolveOperationRequest)
    requires
        state_wf(s),
        spec_validate(s, OperationRequest::Resolve(r)) is Ok,
        spec_request_fits(s, OperationRequest::Resolve(r)),
    ensures
        s.transactions[r.transaction_id] matches Transaction::DisputedDeposit(d) ==> {
            let s2 = spec_step(s, OperationRequest::Resolve(r));
            &&& s2.accounts.contains_key(d.to_account_id)
            &&& s2.accounts[d.to_account_id] is Active
            &&& s2.accounts[d.to_account_id].spec_available() == s.accounts[d.to_account_id].spec_available() + d.amount@
            &&& s2.accounts[d.to_account_id].spec_held() == s.accounts[d.to_account_id].spec_held() - d.amount@
            &&& s2.transactions[r.transaction_id] matches Transaction::Deposit(d2)
            &&& d2.amount == d.amount
            &&& d2.to_account_id == d.to_account_id
        },
{
    if let Transaction::DisputedDeposit(d) = s.transactions[r.transaction_id] {
        if let Ok(ValidOperationRequest::ResolveDispute { on_transaction, account }) = spec_validate(
            s,
            OperationRequest::Resolve(r),
        ) {
            assert(on_transaction == d);
            assert(s.accounts[d.to_account_id] == Account::Active(account));
            assert(account.id == d.to_account_id);
            assert(on_transaction.id == r.transaction_id);
        } else {
            assert(false);
        }
    }
}

/// A chargeback that validates releases exactly the disputed deposit's
/// amount from held, leaves available untouched, and always freezes the
/// owning account; the deposit is terminally charged back.
pub proof fn lemma_chargeback_freezes_owner(s: EngineView, r: ChargebackOperationRequest)
    requires
        state_wf(s),
        spec_validate(s, OperationRequest::Chargeback(r)) is Ok,
        spec_request_fits(s, OperationRequest::Chargeback(r)),
    ensures
        s.transactions[r.transaction_id] matches Transaction::DisputedDeposit(d) ==> {
            let s2 = spec_step(s, OperationRequest::Chargeback(r));
            &&& s2.accounts.contains_key(d.to_account_id)
            &&& s2.accounts[d.to_account_id] is Frozen
            &&& s2.accounts[d.to_account_id].spec_available() == s.accounts[d.to_account_id].spec_available()
            &&& s2.accounts[d.to_account_id].spec_held() == s.accounts[d.to_account_id].spec_held() - d.amount@
            &&& s2.transactions[r.transaction_id] is ChargedBackDeposit
        },
{
    if let Transaction::DisputedDeposit(d) = s.transactions[r.transaction_id] {
        if let Ok(ValidOperationRequest::ChargeBack { on_transaction, account }) = spec_validate(
            s,
            OperationRequest::Chargeback(r),
        ) {
            assert(on_transaction == d);
            assert(s.accounts[d.to_account_id] == Account::Active(account));
            assert(account.id == d.to_account_id);
            assert(on_transaction.id == r.transaction_id);
        } else {
            assert(false);
        }
    }
}

/// Every step preserves well-formedness of the state: each entity stays
/// keyed under its own immutable identifier.
pub proof fn lemma_step_preserves_wf(s: EngineView, r: OperationRequest)
    requires
        state_wf(s),
    ensures
        state_wf(spec_step(s, r)),
{
    match spec_validate(s, r) {
        Err(_) => {},
        Ok(v) => {
            let s2 = spec_execute(s, v);
            assert forall|k: AccountId| s2.accounts.contains_key(k) implies (
            #[trigger] s2.accounts[k]).spec_id() == k by {
                if s.accounts.contains_key(k) && s2.accounts[k] == s.accounts[k] {
                } else {
                    assert(s2.accounts[k].spec_id() == k);
                }
            }
            assert forall|t: TransactionId| s2.transactions.contains_key(t) implies (
            #[trigger] s2.transactions[t]).spec_id() == t by {
                if s.transactions.contains_key(t) && s2.transactions[t] == s.transactions[t] {
                } else {
                    assert(s2.transactions[t].spec_id() == t);
                }
            }
        },
    }
}

/// Replay preserves well-formedness of the state.
pub proof fn lemma_replay_preserves_wf(s: EngineView, requests: Seq<OperationRequest>)
    requires
        state_wf(s),
    ensures
        state_wf(spec_replay(s, requests)),
    decreases requests.len(),
{
    if requests.len() > 0 {
        lemma_step_preserves_wf(s, requests[0]);
        lemma_replay_preserves_wf(spec_step(s, requests[0]), requests.drop_first());
    }
}

/// Replaying an identical request sequence against an identical starting
/// state always yields an identical final state: processing is a function
/// of the request sequence alone.
pub proof fn lemma_replay_deterministic(
    s1: EngineView,
    s2: EngineView,
    requests1: Seq<OperationRequest>,
    requests2: Seq<OperationRequest>,
)
    requires
        s1 == s2,
        requests1 == requests2,
    ensures
        spec_replay(s1, requests1) == spec_replay(s2, requests2),
{
}

} // verus!
