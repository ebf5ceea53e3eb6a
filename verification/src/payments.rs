//! The payment processor: fee computation, daily-limit accounting, and
//! manual fee-deducted payments.

use vstd::prelude::*;

verus! {

use crate::types::{AccountId, SpendKey, SECONDS_PER_DAY, FEE_DENOMINATOR};
use crate::records::{UserProfile, Payment};
use crate::errors::RemittanceErrors;
use crate::model::{LedgerView, spec_fee, lemma_fee_bounds};
use crate::state::UniversalRemittance;
use crate::token::TokenService;

/// The guard phase of a manual payment.
pub open spec fn send_check(
    v: LedgerView,
    caller: AccountId,
    amount: u64,
    token: AccountId,
    now: u64,
) -> Option<RemittanceErrors> {
    if v.paused {
        Some(RemittanceErrors::ContractPaused)
    } else if !v.registered(caller) {
        Some(RemittanceErrors::NotRegistered)
    } else if !v.token_supported(token) || amount == 0 {
        Some(RemittanceErrors::InvalidConfiguration)
    } else if !v.within_daily_limit(caller, amount, now) {
        Some(RemittanceErrors::ExceedsLimit)
    } else {
        None
    }
}

/// The state after a successful manual payment: a completed manual record is
/// appended, the sender's lifetime-sent grows by the gross amount, a
/// registered recipient's lifetime-received grows by the net amount, and the
/// sender's daily spending grows by the gross amount. Internal balances are
/// untouched: the value moves through the external service.
pub open spec fn send_applied(
    v: LedgerView,
    caller: AccountId,
    recipient: AccountId,
    amount: u64,
    token: AccountId,
    note: String,
    now: u64,
) -> LedgerView {
    let net = (amount - spec_fee(amount, v.platform_fee_percent)) as u64;
    let sender = v.users[caller];
    let users1 = v.users.insert(
        caller,
        UserProfile { total_sent: (sender.total_sent + amount) as u64, ..sender },
    );
    let users2 = if users1.contains_key(recipient) {
        users1.insert(
            recipient,
            UserProfile {
                total_received: (users1[recipient].total_received + net) as u64,
                ..users1[recipient]
            },
        )
    } else {
        users1
    };
    let day = now / SECONDS_PER_DAY;
    LedgerView {
        users: users2,
        payments: v.payments.push(
            Payment {
                sender: caller,
                recipient,
                amount,
                token,
                timestamp: now,
                payment_type: 0,
                note,
                completed: true,
            },
        ),
        daily_spent: v.daily_spent.insert(
            SpendKey { user: caller, day },
            (v.spent_on(caller, day) + amount) as u64,
        ),
        ..v
    }
}

/// The lifetime totals and the daily accumulator a successful payment would
/// bump all stay within `u64`. Machine limits only: callers outside these
/// bounds are not served.
pub open spec fn send_fits(
    v: LedgerView,
    caller: AccountId,
    recipient: AccountId,
    amount: u64,
    token: AccountId,
    now: u64,
) -> bool {
    send_check(v, caller, amount, token, now) == None::<RemittanceErrors> ==> {
        &&& v.total_sent_of(caller) + amount <= u64::MAX
        &&& v.total_received_of(recipient) + amount <= u64::MAX
        &&& v.spent_on(caller, now / SECONDS_PER_DAY) + amount <= u64::MAX
    }
}

impl UniversalRemittance {
    /// The platform fee on a gross amount: `amount * fee_bps / 10000`,
    /// floored. Never exceeds the amount while the rate is within the
    /// denominator.
    pub fn compute_fee(&self, amount: u64) -> (fee: u64)
        requires
            self.wf(),
        ensures
            fee == spec_fee(amount, self@.platform_fee_percent),
            fee <= amount,
    {
        proof {
            lemma_fee_bounds(amount, self.platform_fee_percent);
        }
        ((amount as u128 * self.platform_fee_percent as u128) / FEE_DENOMINATOR as u128) as u64
    }

    /// Whether a gross amount passes the caller's daily limit at time `now`.
    pub fn check_daily_limit(&self, user: AccountId, amount: u64, now: u64) -> (r: bool)
        requires
            self.wf(),
        ensures
            r == self@.within_daily_limit(user, amount, now),
    {
        let limit = self.get_daily_limit(user);
        if limit == 0 {
            return true;
        }
        let spent = self.get_daily_spent(user, now);
        spent as u128 + amount as u128 <= limit as u128
    }

    /// Adds a gross amount to the caller's accumulator for the current day.
    fn update_daily_spent(&mut self, user: AccountId, amount: u64, now: u64)
        requires
            old(self).wf(),
            old(self)@.spent_on(user, now / SECONDS_PER_DAY) + amount <= u64::MAX,
        ensures
            final(self).wf(),
            final(self)@ == (LedgerView {
                daily_spent: old(self)@.daily_spent.insert(
                    SpendKey { user, day: now / SECONDS_PER_DAY },
                    (old(self)@.spent_on(user, now / SECONDS_PER_DAY) + amount) as u64,
                ),
                ..old(self)@
            }),
    {
        let day = now / SECONDS_PER_DAY;
        let spent = self.get_daily_spent(user, now);
        self.daily_spent.set(SpendKey { user, day }, spent + amount);
        proof {
            crate::model::lemma_wf_same_scheduling(self@, old(self)@);
        }
    }

    /// Sends `amount` of `token` from the caller to `recipient`: pulls the
    /// gross amount into the engine, pushes the net amount to the recipient
    /// and the fee to the treasury, then records the payment. A transfer
    /// failure aborts with `TransferFailed`; the internal state is then
    /// unchanged, but external transfers already made are not compensated.
    pub fn send_payment<S: TokenService>(
        &mut self,
        svc: &mut S,
        caller: AccountId,
        now: u64,
        recipient: AccountId,
        amount: u64,
        token: AccountId,
        note: String,
    ) -> (r: Result<(), RemittanceErrors>)
        requires
            old(self).wf(),
            send_fits(old(self)@, caller, recipient, amount, token, now),
        ensures
            final(self).wf(),
            match send_check(old(self)@, caller, amount, token, now) {
                Some(e) => r == Err::<(), RemittanceErrors>(e) && final(self)@ == old(self)@,
                None => (r == Ok::<(), RemittanceErrors>(()) && final(self)@ == send_applied(
                    old(self)@,
                    caller,
                    recipient,
                    amount,
                    token,
                    note,
                    now,
                )) || (r == Err::<(), RemittanceErrors>(RemittanceErrors::TransferFailed)
                    && final(self)@ == old(self)@),
            },
    {
        self.when_not_paused()?;
        self.only_registered(caller)?;
        if !self.is_token_supported(token) || amount == 0 {
            return Err(RemittanceErrors::InvalidConfiguration);
        }
        if !self.check_daily_limit(caller, amount, now) {
            return Err(RemittanceErrors::ExceedsLimit);
        }
        if !svc.transfer_from(token, caller, self.self_address, amount) {
            return Err(RemittanceErrors::TransferFailed);
        }
        let fee = self.compute_fee(amount);
        let net = amount - fee;
        if !svc.transfer(token, recipient, net) {
            return Err(RemittanceErrors::TransferFailed);
        }
        if fee > 0 {
            if !svc.transfer(token, self.treasury, fee) {
                return Err(RemittanceErrors::TransferFailed);
            }
        }
        let new_sender = match self.users.get(&caller) {
            Some(p) => UserProfile {
                name: p.name.clone(),
                country: p.country.clone(),
                phone_number: p.phone_number.clone(),
                is_active: p.is_active,
                total_sent: p.total_sent + amount,
                total_received: p.total_received,
                registration_time: p.registration_time,
            },
            None => unreached(),
        };
        self.users.set(caller, new_sender);
        proof {
            crate::model::lemma_wf_same_scheduling(self@, old(self)@);
        }
        if self.users.contains(&recipient) {
            let new_recipient = match self.users.get(&recipient) {
                Some(p) => UserProfile {
                    name: p.name.clone(),
                    country: p.country.clone(),
                    phone_number: p.phone_number.clone(),
                    is_active: p.is_active,
                    total_sent: p.total_sent,
                    total_received: p.total_received + net,
                    registration_time: p.registration_time,
                },
                None => unreached(),
            };
            self.users.set(recipient, new_recipient);
            proof {
                crate::model::lemma_wf_same_scheduling(self@, old(self)@);
            }
        }
        self.update_daily_spent(caller, amount, now);
        self.payments.push(
            Payment {
                sender: caller,
                recipient,
                amount,
                token,
                timestamp: now,
                payment_type: 0,
                note,
                completed: true,
            },
        );
        proof {
            crate::model::lemma_wf_push_manual_payment(self@, old(self)@, self@.payments.last());
            assert(self@ =~= send_applied(old(self)@, caller, recipient, amount, token, note, now));
        }
        Ok(())
    }
}

} // verus!
