//! A sequential payments engine: per-account monetary balances maintained by
//! replaying deposit, withdrawal, dispute, resolve and chargeback requests,
//! one at a time in arrival order.
//!
//! Every request is first validated against the current account and
//! transaction stores, yielding either a fully resolved command or a
//! non-empty list of rejection reasons ("parse, don't validate"); a resolved
//! command is then executed and its updated snapshots written back, so
//! execution cannot fail for business reasons. The whole validate-then-apply
//! step is specified by the transition functions in [`model`], the
//! executable engine is proved to follow them exactly, and the global
//! guarantees — balance accounting, transaction-lifecycle rules, terminal
//! frozen accounts, determinism of replay — are stated and proved in
//! [`laws`].

pub mod account;
pub mod account_repository;
pub mod amount;
pub mod builder;
pub mod laws;
pub mod model;
pub mod operation_request;
pub mod payments_engine;
pub mod transaction;
pub mod transaction_repository;
pub mod valid_operation_request;
pub mod validator;
