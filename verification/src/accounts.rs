//! Account registration.

use vstd::prelude::*;

verus! {

use crate::types::AccountId;
use crate::records::UserProfile;
use crate::errors::{RemittanceErrors, unit_result};
use crate::model::LedgerView;
use crate::state::UniversalRemittance;

/// The guard phase of registration: refused while paused, and an identity
/// registers at most once.
pub open spec fn register_check(v: LedgerView, caller: AccountId) -> Option<RemittanceErrors> {
    if v.paused {
        Some(RemittanceErrors::ContractPaused)
    } else if v.registered(caller) {
        Some(RemittanceErrors::UserAlreadyRegistered)
    } else {
        None
    }
}

/// The state after a successful registration: a fresh profile with zeroed
/// lifetime totals, active, registered at `now`.
pub open spec fn register_applied(
    v: LedgerView,
    caller: AccountId,
    now: u64,
    name: String,
    country: String,
    phone_number: String,
) -> LedgerView {
    LedgerView {
        users: v.users.insert(
            caller,
            UserProfile {
                name,
                country,
                phone_number,
                is_active: true,
                total_sent: 0,
                total_received: 0,
                registration_time: now,
            },
        ),
        ..v
    }
}

impl UniversalRemittance {
    /// Registers the caller. Fails with `UserAlreadyRegistered` on a second
    /// registration of the same identity.
    pub fn register_user(
        &mut self,
        caller: AccountId,
        now: u64,
        name: String,
        country: String,
        phone_number: String,
    ) -> (r: Result<(), RemittanceErrors>)
        requires
            old(self).wf(),
        ensures
            final(self).wf(),
            r == unit_result(register_check(old(self)@, caller)),
            final(self)@ == (match register_check(old(self)@, caller) {
                None => register_applied(old(self)@, caller, now, name, country, phone_number),
                Some(_) => old(self)@,
            }),
    {
        self.when_not_paused()?;
        if self.users.contains(&caller) {
            return Err(RemittanceErrors::UserAlreadyRegistered);
        }
        self.users.set(
            caller,
            UserProfile {
                name,
                country,
                phone_number,
                is_active: true,
                total_sent: 0,
                total_received: 0,
                registration_time: now,
            },
        );
        proof {
            crate::model::lemma_wf_same_scheduling(self@, old(self)@);
        }
        Ok(())
    }
}

} // verus!
