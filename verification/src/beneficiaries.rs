//! The beneficiary scheduler's management side: recurring-payment
//! definitions are appended at dense indices, updated in place, and removed
//! by soft delete. Indices are never reused or compacted.

use vstd::prelude::*;

verus! {

use crate::types::{AccountId, BeneficiaryKey};
use crate::records::Beneficiary;
use crate::errors::{RemittanceErrors, unit_result};
use crate::model::{LedgerView, valid_frequency};
use crate::state::UniversalRemittance;

/// The guard phase of adding a beneficiary.
pub open spec fn add_beneficiary_check(
    v: LedgerView,
    caller: AccountId,
    amount: u64,
    token: AccountId,
    frequency: u64,
) -> Option<RemittanceErrors> {
    if v.paused {
        Some(RemittanceErrors::ContractPaused)
    } else if !v.registered(caller) {
        Some(RemittanceErrors::NotRegistered)
    } else if !v.token_supported(token) || amount == 0 {
        Some(RemittanceErrors::InvalidConfiguration)
    } else if !valid_frequency(frequency) {
        Some(RemittanceErrors::InvalidFrequency)
    } else {
        None
    }
}

/// The state after adding: a fresh active beneficiary at the next dense
/// index, never executed, with a zeroed lifetime total; the count grows by
/// one.
pub open spec fn add_beneficiary_applied(
    v: LedgerView,
    caller: AccountId,
    beneficiary_address: AccountId,
    name: String,
    relationship: String,
    amount: u64,
    token: AccountId,
    frequency: u64,
) -> LedgerView {
    let count = v.beneficiary_count(caller);
    LedgerView {
        beneficiaries: v.beneficiaries.insert(
            BeneficiaryKey { user: caller, index: count },
            Beneficiary {
                beneficiary_address,
                name,
                relationship,
                amount,
                token,
                frequency,
                last_payment: 0,
                is_active: true,
                total_sent: 0,
            },
        ),
        beneficiary_counts: v.beneficiary_counts.insert(caller, (count + 1) as u64),
        ..v
    }
}

/// The guard phase of updating a beneficiary. A removed (inactive)
/// beneficiary is not found, whatever the rest of the arguments; only a
/// found one has its new frequency re-validated.
pub open spec fn update_beneficiary_check(
    v: LedgerView,
    caller: AccountId,
    index: u64,
    frequency: u64,
) -> Option<RemittanceErrors> {
    if v.paused {
        Some(RemittanceErrors::ContractPaused)
    } else if !v.registered(caller) {
        Some(RemittanceErrors::NotRegistered)
    } else if index >= v.beneficiary_count(caller) || !v.beneficiary_at(caller, index).is_active {
        Some(RemittanceErrors::BeneficiaryNotFound)
    } else if !valid_frequency(frequency) {
        Some(RemittanceErrors::InvalidFrequency)
    } else {
        None
    }
}

/// The state after updating: amount and frequency change in place, the last
/// execution time and everything else stay.
pub open spec fn update_beneficiary_applied(
    v: LedgerView,
    caller: AccountId,
    index: u64,
    amount: u64,
    frequency: u64,
) -> LedgerView {
    let b = v.beneficiary_at(caller, index);
    LedgerView {
        beneficiaries: v.beneficiaries.insert(
            BeneficiaryKey { user: caller, index },
            Beneficiary { amount, frequency, ..b },
        ),
        ..v
    }
}

/// The guard phase of removing a beneficiary: removal is idempotent in its
/// failure, a second removal reports `BeneficiaryNotFound` again.
pub open spec fn remove_beneficiary_check(
    v: LedgerView,
    caller: AccountId,
    index: u64,
) -> Option<RemittanceErrors> {
    if v.paused {
        Some(RemittanceErrors::ContractPaused)
    } else if !v.registered(caller) {
        Some(RemittanceErrors::NotRegistered)
    } else if index >= v.beneficiary_count(caller) || !v.beneficiary_at(caller, index).is_active {
        Some(RemittanceErrors::BeneficiaryNotFound)
    } else {
        None
    }
}

/// The state after removing: the active flag is cleared, everything else
/// (the index space included) stays.
pub open spec fn remove_beneficiary_applied(v: LedgerView, caller: AccountId, index: u64) -> LedgerView {
    let b = v.beneficiary_at(caller, index);
    LedgerView {
        beneficiaries: v.beneficiaries.insert(
            BeneficiaryKey { user: caller, index },
            Beneficiary { is_active: false, ..b },
        ),
        ..v
    }
}

impl UniversalRemittance {
    /// Appends a recurring-payment definition for the caller at the next
    /// dense index.
    pub fn add_beneficiary(
        &mut self,
        caller: AccountId,
        beneficiary_address: AccountId,
        name: String,
        relationship: String,
        amount: u64,
        token: AccountId,
        frequency: u64,
    ) -> (r: Result<(), RemittanceErrors>)
        requires
            old(self).wf(),
            add_beneficiary_check(old(self)@, caller, amount, token, frequency) == None::<
                RemittanceErrors,
            > ==> old(self)@.beneficiary_count(caller) < u64::MAX,
        ensures
            final(self).wf(),
            r == unit_result(add_beneficiary_check(old(self)@, caller, amount, token, frequency)),
            final(self)@ == (match add_beneficiary_check(old(self)@, caller, amount, token, frequency) {
                None => add_beneficiary_applied(
                    old(self)@,
                    caller,
                    beneficiary_address,
                    name,
                    relationship,
                    amount,
                    token,
                    frequency,
                ),
                Some(_) => old(self)@,
            }),
    {
        self.when_not_paused()?;
        self.only_registered(caller)?;
        if !self.is_token_supported(token) || amount == 0 {
            return Err(RemittanceErrors::InvalidConfiguration);
        }
        if !(frequency == 0 || frequency == 1 || frequency == 7 || frequency == 30 || frequency
            == 365) {
            return Err(RemittanceErrors::InvalidFrequency);
        }
        let count = self.get_beneficiary_count(caller);
        let nb = Beneficiary {
            beneficiary_address,
            name,
            relationship,
            amount,
            token,
            frequency,
            last_payment: 0,
            is_active: true,
            total_sent: 0,
        };
        self.beneficiaries.set(BeneficiaryKey { user: caller, index: count }, nb);
        self.beneficiary_counts.set(caller, count + 1);
        proof {
            crate::model::lemma_wf_add_beneficiary(
                self@,
                old(self)@,
                caller,
                self@.beneficiary_at(caller, count),
            );
        }
        Ok(())
    }

    /// Changes a beneficiary's amount and frequency in place; the last
    /// execution time is untouched.
    pub fn update_beneficiary(
        &mut self,
        caller: AccountId,
        beneficiary_index: u64,
        amount: u64,
        frequency: u64,
    ) -> (r: Result<(), RemittanceErrors>)
        requires
            old(self).wf(),
        ensures
            final(self).wf(),
            r == unit_result(
                update_beneficiary_check(old(self)@, caller, beneficiary_index, frequency),
            ),
            final(self)@ == (match update_beneficiary_check(
                old(self)@,
                caller,
                beneficiary_index,
                frequency,
            ) {
                None => update_beneficiary_applied(
                    old(self)@,
                    caller,
                    beneficiary_index,
                    amount,
                    frequency,
                ),
                Some(_) => old(self)@,
            }),
    {
        self.when_not_paused()?;
        self.only_registered(caller)?;
        let count = self.get_beneficiary_count(caller);
        if beneficiary_index >= count {
            return Err(RemittanceErrors::BeneficiaryNotFound);
        }
        let key = BeneficiaryKey { user: caller, index: beneficiary_index };
        let nb = match self.beneficiaries.get(&key) {
            Some(b) => {
                if !b.is_active {
                    return Err(RemittanceErrors::BeneficiaryNotFound);
                }
                if !(frequency == 0 || frequency == 1 || frequency == 7 || frequency == 30
                    || frequency == 365) {
                    return Err(RemittanceErrors::InvalidFrequency);
                }
                Beneficiary {
                    beneficiary_address: b.beneficiary_address,
                    name: b.name.clone(),
                    relationship: b.relationship.clone(),
                    amount,
                    token: b.token,
                    frequency,
                    last_payment: b.last_payment,
                    is_active: b.is_active,
                    total_sent: b.total_sent,
                }
            },
            None => unreached(),
        };
        self.beneficiaries.set(key, nb);
        proof {
            crate::model::lemma_wf_update_beneficiary(
                self@,
                old(self)@,
                key,
                self@.beneficiaries[key],
            );
        }
        Ok(())
    }

    /// Soft-deletes a beneficiary: the active flag is cleared, the index
    /// stays occupied, and later lookups or removals of it fail with
    /// `BeneficiaryNotFound`.
    pub fn remove_beneficiary(&mut self, caller: AccountId, beneficiary_index: u64) -> (r: Result<
        (),
        RemittanceErrors,
    >)
        requires
            old(self).wf(),
        ensures
            final(self).wf(),
            r == unit_result(remove_beneficiary_check(old(self)@, caller, beneficiary_index)),
            final(self)@ == (match remove_beneficiary_check(old(self)@, caller, beneficiary_index) {
                None => remove_beneficiary_applied(old(self)@, caller, beneficiary_index),
                Some(_) => old(self)@,
            }),
    {
        self.when_not_paused()?;
        self.only_registered(caller)?;
        let count = self.get_beneficiary_count(caller);
        if beneficiary_index >= count {
            return Err(RemittanceErrors::BeneficiaryNotFound);
        }
        let key = BeneficiaryKey { user: caller, index: beneficiary_index };
        let nb = match self.beneficiaries.get(&key) {
            Some(b) => {
                if !b.is_active {
                    return Err(RemittanceErrors::BeneficiaryNotFound);
                }
                Beneficiary {
                    beneficiary_address: b.beneficiary_address,
                    name: b.name.clone(),
                    relationship: b.relationship.clone(),
                    amount: b.amount,
                    token: b.token,
                    frequency: b.frequency,
                    last_payment: b.last_payment,
                    is_active: false,
                    total_sent: b.total_sent,
                }
            },
            None => unreached(),
        };
        self.beneficiaries.set(key, nb);
        proof {
            crate::model::lemma_wf_update_beneficiary(
                self@,
                old(self)@,
                key,
                self@.beneficiaries[key],
            );
        }
        Ok(())
    }
}

} // verus!
