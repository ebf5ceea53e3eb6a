//! A verified remittance ledger: account registration, internal per-token
//! balances, fee-deducted payments, recurring-beneficiary scheduling with
//! frequency enforcement, daily spend limits, and batch execution with
//! best-effort semantics.
//!
//! The engine is a sequential state machine. External collaborators are
//! modelled at their interface: the token service is a trait whose calls may
//! fail arbitrarily, and the execution context (caller identity, current
//! time) is passed in as plain values.

pub mod types;
pub mod errors;
pub mod kvmap;
pub mod records;
pub mod model;
pub mod state;
pub mod token;
pub mod queries;
pub mod admin;
pub mod accounts;
pub mod funds;
pub mod payments;
pub mod beneficiaries;
pub mod autopay;
pub mod laws;

pub use errors::RemittanceErrors;
pub use state::UniversalRemittance;
pub use types::AccountId;
