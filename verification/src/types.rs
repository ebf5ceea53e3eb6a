//! Identities and composite map keys used by the ledger.

use vstd::prelude::*;

verus! {

/// A 20-byte account identifier, split into its leading 4 bytes (`hi`)
/// and trailing 16 bytes (`lo`).
#[derive(Clone, Copy, PartialEq, Eq, Structural, Debug)]
pub struct AccountId {
    pub hi: u32,
    pub lo: u128,
}

impl AccountId {
    pub fn new(hi: u32, lo: u128) -> (r: AccountId)
        ensures
            r == (AccountId { hi, lo }),
    {
        AccountId { hi, lo }
    }

    pub open spec fn spec_is_zero(&self) -> bool {
        self.hi == 0 && self.lo == 0
    }

    /// The all-zero identifier, rejected as a treasury address.
    #[verifier::when_used_as_spec(spec_is_zero)]
    pub fn is_zero(&self) -> (r: bool)
        ensures
            r == self.spec_is_zero(),
    {
        self.hi == 0 && self.lo == 0
    }

    pub fn zero() -> (r: AccountId)
        ensures
            r.spec_is_zero(),
    {
        AccountId { hi: 0, lo: 0 }
    }
}

/// Key of an internal balance: one account's holding of one token.
#[derive(Clone, Copy, PartialEq, Eq, Structural, Debug)]
pub struct BalanceKey {
    pub user: AccountId,
    pub token: AccountId,
}

/// Key of a recurring-payment definition: owner account and dense index.
#[derive(Clone, Copy, PartialEq, Eq, Structural, Debug)]
pub struct BeneficiaryKey {
    pub user: AccountId,
    pub index: u64,
}

/// Key of a daily-spend accumulator: account and day number.
#[derive(Clone, Copy, PartialEq, Eq, Structural, Debug)]
pub struct SpendKey {
    pub user: AccountId,
    pub day: u64,
}

/// Seconds in a day; frequencies are given in days.
pub const SECONDS_PER_DAY: u64 = 86400;

/// Fee rates are in basis points of this denominator.
pub const FEE_DENOMINATOR: u64 = 10000;

/// The largest fee rate the owner may configure (1%).
pub const MAX_FEE_BPS: u64 = 100;

/// Largest timestamp the scheduler accepts; keeps `last_payment`
/// plus a year's worth of seconds within `u64`.
pub const MAX_TIME: u64 = u64::MAX - 365 * 86400;

} // verus!
