//! Owner-only administration: token support, daily limits, pause switch,
//! fee rate, treasury, and the emergency escape hatch. None of these is
//! gated by the pause switch.

use vstd::prelude::*;

verus! {

use crate::types::{AccountId, MAX_FEE_BPS};
use crate::errors::RemittanceErrors;
use crate::model::LedgerView;
use crate::state::UniversalRemittance;
use crate::token::TokenService;

impl UniversalRemittance {
    /// Marks a token as accepted for deposits and payments.
    pub fn add_supported_token(&mut self, caller: AccountId, token: AccountId) -> (r: Result<
        (),
        RemittanceErrors,
    >)
        requires
            old(self).wf(),
        ensures
            final(self).wf(),
            caller != old(self)@.owner ==> r == Err::<(), RemittanceErrors>(
                RemittanceErrors::Unauthorized,
            ) && final(self)@ == old(self)@,
            caller == old(self)@.owner ==> r == Ok::<(), RemittanceErrors>(()) && final(self)@
                == (LedgerView {
                supported_tokens: old(self)@.supported_tokens.insert(token, true),
                ..old(self)@
            }),
    {
        self.only_owner(caller)?;
        self.supported_tokens.set(token, true);
        proof {
            crate::model::lemma_wf_same_scheduling(self@, old(self)@);
        }
        Ok(())
    }

    /// Withdraws support for a token. Existing balances stay valid; only
    /// new deposits and payments in it are refused.
    pub fn remove_supported_token(&mut self, caller: AccountId, token: AccountId) -> (r: Result<
        (),
        RemittanceErrors,
    >)
        requires
            old(self).wf(),
        ensures
            final(self).wf(),
            caller != old(self)@.owner ==> r == Err::<(), RemittanceErrors>(
                RemittanceErrors::Unauthorized,
            ) && final(self)@ == old(self)@,
            caller == old(self)@.owner ==> r == Ok::<(), RemittanceErrors>(()) && final(self)@
                == (LedgerView {
                supported_tokens: old(self)@.supported_tokens.insert(token, false),
                ..old(self)@
            }),
    {
        self.only_owner(caller)?;
        self.supported_tokens.set(token, false);
        proof {
            crate::model::lemma_wf_same_scheduling(self@, old(self)@);
        }
        Ok(())
    }

    /// Sets an account's daily spend cap; 0 removes the cap.
    pub fn set_daily_limit(&mut self, caller: AccountId, user: AccountId, limit: u64) -> (r: Result<
        (),
        RemittanceErrors,
    >)
        requires
            old(self).wf(),
        ensures
            final(self).wf(),
            caller != old(self)@.owner ==> r == Err::<(), RemittanceErrors>(
                RemittanceErrors::Unauthorized,
            ) && final(self)@ == old(self)@,
            caller == old(self)@.owner ==> r == Ok::<(), RemittanceErrors>(()) && final(self)@
                == (LedgerView { daily_limits: old(self)@.daily_limits.insert(user, limit), ..old(self)@ }),
    {
        self.only_owner(caller)?;
        self.daily_limits.set(user, limit);
        proof {
            crate::model::lemma_wf_same_scheduling(self@, old(self)@);
        }
        Ok(())
    }

    /// Sets the global pause switch, blocking every non-admin mutation.
    pub fn pause(&mut self, caller: AccountId) -> (r: Result<(), RemittanceErrors>)
        requires
            old(self).wf(),
        ensures
            final(self).wf(),
            caller != old(self)@.owner ==> r == Err::<(), RemittanceErrors>(
                RemittanceErrors::Unauthorized,
            ) && final(self)@ == old(self)@,
            caller == old(self)@.owner ==> r == Ok::<(), RemittanceErrors>(()) && final(self)@
                == (LedgerView { paused: true, ..old(self)@ }),
    {
        self.only_owner(caller)?;
        self.paused = true;
        proof {
            crate::model::lemma_wf_same_scheduling(self@, old(self)@);
        }
        Ok(())
    }

    /// Clears the global pause switch.
    pub fn unpause(&mut self, caller: AccountId) -> (r: Result<(), RemittanceErrors>)
        requires
            old(self).wf(),
        ensures
            final(self).wf(),
            caller != old(self)@.owner ==> r == Err::<(), RemittanceErrors>(
                RemittanceErrors::Unauthorized,
            ) && final(self)@ == old(self)@,
            caller == old(self)@.owner ==> r == Ok::<(), RemittanceErrors>(()) && final(self)@
                == (LedgerView { paused: false, ..old(self)@ }),
    {
        self.only_owner(caller)?;
        self.paused = false;
        proof {
            crate::model::lemma_wf_same_scheduling(self@, old(self)@);
        }
        Ok(())
    }

    /// Sets the platform fee rate, capped at [`MAX_FEE_BPS`] basis points.
    pub fn update_platform_fee(&mut self, caller: AccountId, new_fee_percent: u64) -> (r: Result<
        (),
        RemittanceErrors,
    >)
        requires
            old(self).wf(),
        ensures
            final(self).wf(),
            caller != old(self)@.owner ==> r == Err::<(), RemittanceErrors>(
                RemittanceErrors::Unauthorized,
            ) && final(self)@ == old(self)@,
            caller == old(self)@.owner && new_fee_percent > MAX_FEE_BPS ==> r == Err::<
                (),
                RemittanceErrors,
            >(RemittanceErrors::InvalidConfiguration) && final(self)@ == old(self)@,
            caller == old(self)@.owner && new_fee_percent <= MAX_FEE_BPS ==> r == Ok::<
                (),
                RemittanceErrors,
            >(()) && final(self)@ == (LedgerView {
                platform_fee_percent: new_fee_percent,
                ..old(self)@
            }),
    {
        self.only_owner(caller)?;
        if new_fee_percent > MAX_FEE_BPS {
            return Err(RemittanceErrors::InvalidConfiguration);
        }
        self.platform_fee_percent = new_fee_percent;
        proof {
            crate::model::lemma_wf_same_scheduling(self@, old(self)@);
        }
        Ok(())
    }

    /// Changes the fee recipient; the zero identity is rejected.
    pub fn update_treasury(&mut self, caller: AccountId, new_treasury: AccountId) -> (r: Result<
        (),
        RemittanceErrors,
    >)
        requires
            old(self).wf(),
        ensures
            final(self).wf(),
            caller != old(self)@.owner ==> r == Err::<(), RemittanceErrors>(
                RemittanceErrors::Unauthorized,
            ) && final(self)@ == old(self)@,
            caller == old(self)@.owner && new_treasury.spec_is_zero() ==> r == Err::<
                (),
                RemittanceErrors,
            >(RemittanceErrors::InvalidConfiguration) && final(self)@ == old(self)@,
            caller == old(self)@.owner && !new_treasury.spec_is_zero() ==> r == Ok::<
                (),
                RemittanceErrors,
            >(()) && final(self)@ == (LedgerView { treasury: new_treasury, ..old(self)@ }),
    {
        self.only_owner(caller)?;
        if new_treasury.is_zero() {
            return Err(RemittanceErrors::InvalidConfiguration);
        }
        self.treasury = new_treasury;
        proof {
            crate::model::lemma_wf_same_scheduling(self@, old(self)@);
        }
        Ok(())
    }

    /// Pushes `amount` of `token` from the engine's own holdings to the
    /// owner, bypassing all account-level bookkeeping. The internal ledger
    /// state never changes.
    pub fn emergency_withdraw<S: TokenService>(
        &mut self,
        svc: &mut S,
        caller: AccountId,
        token: AccountId,
        amount: u64,
    ) -> (r: Result<(), RemittanceErrors>)
        requires
            old(self).wf(),
        ensures
            final(self).wf(),
            final(self)@ == old(self)@,
            caller != old(self)@.owner ==> r == Err::<(), RemittanceErrors>(
                RemittanceErrors::Unauthorized,
            ),
            caller == old(self)@.owner ==> r == Ok::<(), RemittanceErrors>(()) || r == Err::<
                (),
                RemittanceErrors,
            >(RemittanceErrors::TransferFailed),
    {
        self.only_owner(caller)?;
        if !svc.transfer(token, self.owner, amount) {
            return Err(RemittanceErrors::TransferFailed);
        }
        Ok(())
    }
}

} // verus!
