//! The read-only query surface. Pure views: no guard applies to them.

use vstd::prelude::*;

verus! {

use crate::types::{AccountId, BeneficiaryKey, SECONDS_PER_DAY};
use crate::errors::RemittanceErrors;
use crate::state::UniversalRemittance;

impl UniversalRemittance {
    /// A snapshot of an account's profile: name, country, phone number,
    /// active flag, lifetime sent, lifetime received, registration time.
    /// Unregistered accounts read as all-default.
    pub fn get_user_profile(&self, user: AccountId) -> (r: (
        String,
        String,
        String,
        bool,
        u64,
        u64,
        u64,
    ))
        requires
            self.wf(),
        ensures
            self@.registered(user) ==> ({
                let p = self@.users[user];
                &&& r.0@ == p.name@
                &&& r.1@ == p.country@
                &&& r.2@ == p.phone_number@
                &&& r.3 == p.is_active
                &&& r.4 == p.total_sent
                &&& r.5 == p.total_received
                &&& r.6 == p.registration_time
            }),
            !self@.registered(user) ==> ({
                &&& r.0@ == Seq::<char>::empty()
                &&& r.1@ == Seq::<char>::empty()
                &&& r.2@ == Seq::<char>::empty()
                &&& r.3 == false
                &&& r.4 == 0
                &&& r.5 == 0
                &&& r.6 == 0
            }),
    {
        match self.users.get(&user) {
            Some(p) => (
                p.name.clone(),
                p.country.clone(),
                p.phone_number.clone(),
                p.is_active,
                p.total_sent,
                p.total_received,
                p.registration_time,
            ),
            None => (String::new(), String::new(), String::new(), false, 0, 0, 0),
        }
    }

    /// An account's internal balance for a token.
    pub fn get_user_balance(&self, user: AccountId, token: AccountId) -> (r: u64)
        requires
            self.wf(),
        ensures
            r == self@.balance_of(user, token),
    {
        match self.balances.get(&crate::types::BalanceKey { user, token }) {
            Some(b) => *b,
            None => 0,
        }
    }

    /// How many beneficiaries an account has ever added (soft-deleted ones
    /// included: indices are never reused).
    pub fn get_beneficiary_count(&self, user: AccountId) -> (r: u64)
        requires
            self.wf(),
        ensures
            r == self@.beneficiary_count(user),
    {
        match self.beneficiary_counts.get(&user) {
            Some(c) => *c,
            None => 0,
        }
    }

    /// A beneficiary's fields: target, name, relationship, amount, token,
    /// frequency, last execution time, active flag, lifetime sent. Fails
    /// with `BeneficiaryNotFound` when the index is out of range or the
    /// beneficiary was removed.
    pub fn get_beneficiary(&self, user: AccountId, index: u64) -> (r: Result<
        (AccountId, String, String, u64, AccountId, u64, u64, bool, u64),
        RemittanceErrors,
    >)
        requires
            self.wf(),
        ensures
            match r {
                Ok(t) => ({
                    let b = self@.beneficiary_at(user, index);
                    &&& index < self@.beneficiary_count(user)
                    &&& b.is_active
                    &&& t.0 == b.beneficiary_address
                    &&& t.1@ == b.name@
                    &&& t.2@ == b.relationship@
                    &&& t.3 == b.amount
                    &&& t.4 == b.token
                    &&& t.5 == b.frequency
                    &&& t.6 == b.last_payment
                    &&& t.7 == b.is_active
                    &&& t.8 == b.total_sent
                }),
                Err(e) => e == RemittanceErrors::BeneficiaryNotFound && (index
                    >= self@.beneficiary_count(user) || !self@.beneficiary_at(
                    user,
                    index,
                ).is_active),
            },
    {
        let count = self.get_beneficiary_count(user);
        if index >= count {
            return Err(RemittanceErrors::BeneficiaryNotFound);
        }
        match self.beneficiaries.get(&BeneficiaryKey { user, index }) {
            Some(b) => {
                if !b.is_active {
                    Err(RemittanceErrors::BeneficiaryNotFound)
                } else {
                    Ok((
                        b.beneficiary_address,
                        b.name.clone(),
                        b.relationship.clone(),
                        b.amount,
                        b.token,
                        b.frequency,
                        b.last_payment,
                        b.is_active,
                        b.total_sent,
                    ))
                }
            },
            None => {
                proof {
                    assert(self@.beneficiaries.contains_key(BeneficiaryKey { user, index }));
                }
                Err(RemittanceErrors::BeneficiaryNotFound)
            },
        }
    }

    /// A payment record by identifier: sender, recipient, gross amount,
    /// token, timestamp, payment type, note, completed flag. Identifiers at
    /// or past the payment count are invalid.
    pub fn get_payment(&self, payment_id: u64) -> (r: Result<
        (AccountId, AccountId, u64, AccountId, u64, u64, String, bool),
        RemittanceErrors,
    >)
        requires
            self.wf(),
        ensures
            match r {
                Ok(t) => ({
                    let p = self@.payments[payment_id as int];
                    &&& payment_id < self@.payment_count()
                    &&& t.0 == p.sender
                    &&& t.1 == p.recipient
                    &&& t.2 == p.amount
                    &&& t.3 == p.token
                    &&& t.4 == p.timestamp
                    &&& t.5 == p.payment_type
                    &&& t.6@ == p.note@
                    &&& t.7 == p.completed
                }),
                Err(e) => e == RemittanceErrors::InvalidConfiguration && payment_id
                    >= self@.payment_count(),
            },
    {
        if payment_id >= self.payments.len() as u64 {
            return Err(RemittanceErrors::InvalidConfiguration);
        }
        let p = &self.payments[payment_id as usize];
        Ok((
            p.sender,
            p.recipient,
            p.amount,
            p.token,
            p.timestamp,
            p.payment_type,
            p.note.clone(),
            p.completed,
        ))
    }

    /// Whether a token is currently accepted for deposits and payments.
    pub fn is_token_supported(&self, token: AccountId) -> (r: bool)
        requires
            self.wf(),
        ensures
            r == self@.token_supported(token),
    {
        match self.supported_tokens.get(&token) {
            Some(b) => *b,
            None => false,
        }
    }

    /// An account's configured daily spend cap; 0 means none.
    pub fn get_daily_limit(&self, user: AccountId) -> (r: u64)
        requires
            self.wf(),
        ensures
            r == self@.daily_limit_of(user),
    {
        match self.daily_limits.get(&user) {
            Some(l) => *l,
            None => 0,
        }
    }

    /// What an account has spent today, where today is `now / 86400`.
    pub fn get_daily_spent(&self, user: AccountId, now: u64) -> (r: u64)
        requires
            self.wf(),
        ensures
            r == self@.spent_on(user, now / SECONDS_PER_DAY),
    {
        let day = now / SECONDS_PER_DAY;
        match self.daily_spent.get(&crate::types::SpendKey { user, day }) {
            Some(s) => *s,
            None => 0,
        }
    }

    /// Aggregate statistics: payment count, execution count, fee rate in
    /// basis points, pause flag, treasury.
    pub fn get_contract_stats(&self) -> (r: (u64, u64, u64, bool, AccountId))
        requires
            self.wf(),
        ensures
            r.0 == self@.payment_count(),
            r.1 == self@.execution_count,
            r.2 == self@.platform_fee_percent,
            r.3 == self@.paused,
            r.4 == self@.treasury,
    {
        (
            self.payments.len() as u64,
            self.execution_count,
            self.platform_fee_percent,
            self.paused,
            self.treasury,
        )
    }
}

} // verus!
