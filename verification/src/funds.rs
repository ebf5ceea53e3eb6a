//! The balance ledger: deposits into and withdrawals from an account's
//! internal per-token balance, moving value through the external token
//! service.

use vstd::prelude::*;

verus! {

use crate::types::{AccountId, BalanceKey};
use crate::errors::RemittanceErrors;
use crate::model::LedgerView;
use crate::state::UniversalRemittance;
use crate::token::TokenService;

/// The guard phase of a deposit.
pub open spec fn deposit_check(
    v: LedgerView,
    caller: AccountId,
    token: AccountId,
    amount: u64,
) -> Option<RemittanceErrors> {
    if v.paused {
        Some(RemittanceErrors::ContractPaused)
    } else if !v.registered(caller) {
        Some(RemittanceErrors::NotRegistered)
    } else if amount == 0 {
        Some(RemittanceErrors::InvalidAmount)
    } else if !v.token_supported(token) {
        Some(RemittanceErrors::NotSupportedToken)
    } else {
        None
    }
}

/// The state after a successful deposit: the caller's internal balance for
/// the token grows by the amount.
pub open spec fn deposit_applied(
    v: LedgerView,
    caller: AccountId,
    token: AccountId,
    amount: u64,
) -> LedgerView {
    LedgerView {
        balances: v.balances.insert(
            BalanceKey { user: caller, token },
            (v.balance_of(caller, token) + amount) as u64,
        ),
        ..v
    }
}

/// The guard phase of a withdrawal. An unsupported token and a zero amount
/// share one error here, and a short balance is rejected before any debit.
pub open spec fn withdraw_check(
    v: LedgerView,
    caller: AccountId,
    token: AccountId,
    amount: u64,
) -> Option<RemittanceErrors> {
    if v.paused {
        Some(RemittanceErrors::ContractPaused)
    } else if !v.registered(caller) {
        Some(RemittanceErrors::NotRegistered)
    } else if !v.token_supported(token) || amount == 0 {
        Some(RemittanceErrors::InvalidConfiguration)
    } else if v.balance_of(caller, token) < amount {
        Some(RemittanceErrors::InsufficientBalance)
    } else {
        None
    }
}

/// The state once a withdrawal has debited the internal balance. The debit
/// precedes the outbound transfer and is not reverted if that transfer
/// fails.
pub open spec fn withdraw_debited(
    v: LedgerView,
    caller: AccountId,
    token: AccountId,
    amount: u64,
) -> LedgerView {
    LedgerView {
        balances: v.balances.insert(
            BalanceKey { user: caller, token },
            (v.balance_of(caller, token) - amount) as u64,
        ),
        ..v
    }
}

impl UniversalRemittance {
    /// Pulls `amount` of `token` from the caller into the engine's custody
    /// and credits the caller's internal balance. A failed pull leaves the
    /// state untouched.
    pub fn deposit_balance<S: TokenService>(
        &mut self,
        svc: &mut S,
        caller: AccountId,
        token: AccountId,
        amount: u64,
    ) -> (r: Result<(), RemittanceErrors>)
        requires
            old(self).wf(),
            deposit_check(old(self)@, caller, token, amount) == None::<RemittanceErrors>
                ==> old(self)@.balance_of(caller, token) + amount <= u64::MAX,
        ensures
            final(self).wf(),
            match deposit_check(old(self)@, caller, token, amount) {
                Some(e) => r == Err::<(), RemittanceErrors>(e) && final(self)@ == old(self)@,
                None => (r == Ok::<(), RemittanceErrors>(()) && final(self)@ == deposit_applied(
                    old(self)@,
                    caller,
                    token,
                    amount,
                )) || (r == Err::<(), RemittanceErrors>(RemittanceErrors::TransferFailed)
                    && final(self)@ == old(self)@),
            },
    {
        self.when_not_paused()?;
        self.only_registered(caller)?;
        if amount == 0 {
            return Err(RemittanceErrors::InvalidAmount);
        }
        if !self.is_token_supported(token) {
            return Err(RemittanceErrors::NotSupportedToken);
        }
        if !svc.transfer_from(token, caller, self.self_address, amount) {
            return Err(RemittanceErrors::TransferFailed);
        }
        let balance = self.get_user_balance(caller, token);
        self.balances.set(BalanceKey { user: caller, token }, balance + amount);
        proof {
            crate::model::lemma_wf_same_scheduling(self@, old(self)@);
        }
        Ok(())
    }

    /// Debits the caller's internal balance, then pushes the tokens out to
    /// the caller. A failed push reports `TransferFailed` but the debit
    /// stands: the engine does not roll back after external effects.
    pub fn withdraw_balance<S: TokenService>(
        &mut self,
        svc: &mut S,
        caller: AccountId,
        token: AccountId,
        amount: u64,
    ) -> (r: Result<(), RemittanceErrors>)
        requires
            old(self).wf(),
        ensures
            final(self).wf(),
            match withdraw_check(old(self)@, caller, token, amount) {
                Some(e) => r == Err::<(), RemittanceErrors>(e) && final(self)@ == old(self)@,
                None => final(self)@ == withdraw_debited(old(self)@, caller, token, amount) && (r
                    == Ok::<(), RemittanceErrors>(()) || r == Err::<(), RemittanceErrors>(
                    RemittanceErrors::TransferFailed,
                )),
            },
    {
        self.when_not_paused()?;
        self.only_registered(caller)?;
        if !self.is_token_supported(token) || amount == 0 {
            return Err(RemittanceErrors::InvalidConfiguration);
        }
        let balance = self.get_user_balance(caller, token);
        if balance < amount {
            return Err(RemittanceErrors::InsufficientBalance);
        }
        self.balances.set(BalanceKey { user: caller, token }, balance - amount);
        proof {
            crate::model::lemma_wf_same_scheduling(self@, old(self)@);
        }
        if !svc.transfer(token, caller, amount) {
            return Err(RemittanceErrors::TransferFailed);
        }
        Ok(())
    }
}

} // verus!
