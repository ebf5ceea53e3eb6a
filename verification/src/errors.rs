//! The closed set of errors surfaced by the ledger's operations.

use vstd::prelude::*;

verus! {

#[derive(Clone, Copy, PartialEq, Eq, Structural, Debug)]
pub enum RemittanceErrors {
    Unauthorized,
    InvalidConfiguration,
    UserAlreadyRegistered,
    InsufficientBalance,
    TransferFailed,
    InvalidRecipients,
    ExceedsLimit,
    ContractPaused,
    InvalidAmount,
    NotSupportedToken,
    FrequencyNotMet,
    NotRegistered,
    BeneficiaryNotFound,
    InvalidFrequency,
}

/// Lifts the outcome of an operation's guard phase to its result type:
/// a guard error aborts the operation, no error means success.
pub open spec fn unit_result(check: Option<RemittanceErrors>) -> Result<(), RemittanceErrors> {
    match check {
        Some(e) => Err(e),
        None => Ok(()),
    }
}

} // verus!
