//! The ledger's data records.

use vstd::prelude::*;

verus! {

use crate::types::AccountId;

/// A registered account's profile. Internal per-token balances are kept
/// separately, keyed by account and token.
pub struct UserProfile {
    pub name: String,
    pub country: String,
    pub phone_number: String,
    pub is_active: bool,
    pub total_sent: u64,
    pub total_received: u64,
    pub registration_time: u64,
}

/// A recurring-payment definition, owned by one account and addressed by a
/// dense, append-only index. Removal is a soft delete via `is_active`.
pub struct Beneficiary {
    pub beneficiary_address: AccountId,
    pub name: String,
    pub relationship: String,
    pub amount: u64,
    pub token: AccountId,
    /// Days between auto-executions: 0 (manual), 1, 7, 30 or 365.
    pub frequency: u64,
    /// Timestamp of the last auto-execution; 0 means never executed.
    pub last_payment: u64,
    pub is_active: bool,
    pub total_sent: u64,
}

/// An immutable record of a completed payment, keyed by its position in the
/// payment log.
pub struct Payment {
    pub sender: AccountId,
    pub recipient: AccountId,
    /// Gross amount, before the fee deduction.
    pub amount: u64,
    pub token: AccountId,
    pub timestamp: u64,
    /// 0 = manual, 1 = auto, 2 = scheduled.
    pub payment_type: u64,
    pub note: String,
    pub completed: bool,
}

} // verus!
