//! The beneficiary scheduler's execution side: permissionless auto-payment
//! execution from pre-deposited internal balance, batch execution with
//! best-effort semantics, and the advisory queries.

use vstd::prelude::*;

verus! {

use crate::types::{AccountId, BalanceKey, BeneficiaryKey, SECONDS_PER_DAY, MAX_TIME};
use crate::records::{UserProfile, Beneficiary};
use crate::errors::RemittanceErrors;
use crate::model::{LedgerView, spec_fee};
use crate::state::UniversalRemittance;
use crate::token::TokenService;

/// The guard phase of an auto-payment. Any caller may trigger it; only the
/// pause switch, the beneficiary's configuration, the interval and the
/// payer's internal balance gate it.
pub open spec fn execute_check(
    v: LedgerView,
    user: AccountId,
    index: u64,
    now: u64,
) -> Option<RemittanceErrors> {
    if v.paused {
        Some(RemittanceErrors::ContractPaused)
    } else if index >= v.beneficiary_count(user) {
        Some(RemittanceErrors::BeneficiaryNotFound)
    } else {
        let b = v.beneficiary_at(user, index);
        if !b.is_active || b.frequency == 0 {
            Some(RemittanceErrors::InvalidConfiguration)
        } else if b.last_payment > 0 && now - b.last_payment < b.frequency * SECONDS_PER_DAY {
            Some(RemittanceErrors::FrequencyNotMet)
        } else if v.balance_of(user, b.token) < b.amount {
            Some(RemittanceErrors::InsufficientBalance)
        } else {
            None
        }
    }
}

/// The state once an auto-payment has debited the payer's internal balance.
/// The debit precedes the external transfers and is not reverted if one of
/// them fails.
pub open spec fn execute_debited(v: LedgerView, user: AccountId, index: u64) -> LedgerView {
    let b = v.beneficiary_at(user, index);
    LedgerView {
        balances: v.balances.insert(
            BalanceKey { user, token: b.token },
            (v.balance_of(user, b.token) - b.amount) as u64,
        ),
        ..v
    }
}

/// The state after a fully successful auto-payment: the payer is debited
/// the gross amount, the beneficiary's last execution time becomes `now`
/// and its lifetime total grows by the gross amount, the payer's
/// lifetime-sent grows by the gross amount, a registered target's
/// lifetime-received grows by the net amount, and the execution counter
/// advances by one. No payment record is appended.
pub open spec fn execute_applied(v: LedgerView, user: AccountId, index: u64, now: u64) -> LedgerView {
    let key = BeneficiaryKey { user, index };
    let b = v.beneficiaries[key];
    let net = (b.amount - spec_fee(b.amount, v.platform_fee_percent)) as u64;
    let balances1 = v.balances.insert(
        BalanceKey { user, token: b.token },
        (v.balance_of(user, b.token) - b.amount) as u64,
    );
    let bens1 = v.beneficiaries.insert(
        key,
        Beneficiary { last_payment: now, total_sent: (b.total_sent + b.amount) as u64, ..b },
    );
    let payer = v.users[user];
    let users1 = v.users.insert(
        user,
        UserProfile { total_sent: (payer.total_sent + b.amount) as u64, ..payer },
    );
    let users2 = if users1.contains_key(b.beneficiary_address) {
        users1.insert(
            b.beneficiary_address,
            UserProfile {
                total_received: (users1[b.beneficiary_address].total_received + net) as u64,
                ..users1[b.beneficiary_address]
            },
        )
    } else {
        users1
    };
    LedgerView {
        balances: balances1,
        beneficiaries: bens1,
        users: users2,
        execution_count: (v.execution_count + 1) as u64,
        ..v
    }
}

/// The totals and the counter a successful execution would bump all stay
/// within `u64`. Machine limits only.
pub open spec fn execute_fits(v: LedgerView, user: AccountId, index: u64, now: u64) -> bool {
    execute_check(v, user, index, now) == None::<RemittanceErrors> ==> {
        let b = v.beneficiary_at(user, index);
        &&& v.total_sent_of(user) + b.amount <= u64::MAX
        &&& b.total_sent + b.amount <= u64::MAX
        &&& v.total_received_of(b.beneficiary_address) + b.amount <= u64::MAX
        &&& v.execution_count < u64::MAX
    }
}

/// A beneficiary is pending when it is active, automatic, due at `now`, and
/// the owning account's internal balance covers its amount.
pub open spec fn pending_at(v: LedgerView, user: AccountId, index: u64, now: u64) -> bool {
    let b = v.beneficiary_at(user, index);
    &&& v.has_beneficiary(user, index)
    &&& b.is_active
    &&& b.frequency != 0
    &&& (b.last_payment == 0 || now - b.last_payment >= b.frequency * SECONDS_PER_DAY)
    &&& v.balance_of(user, b.token) >= b.amount
}

/// The pending indices below `n`, in increasing order.
pub open spec fn pending_upto(v: LedgerView, user: AccountId, now: u64, n: int) -> Seq<u64>
    decreases n,
{
    if n <= 0 {
        Seq::empty()
    } else {
        let prev = pending_upto(v, user, now, n - 1);
        if pending_at(v, user, (n - 1) as u64, now) {
            prev.push((n - 1) as u64)
        } else {
            prev
        }
    }
}

/// The advisory pending list holds exactly the indices below `n` that are
/// due and funded.
pub proof fn lemma_pending_membership(v: LedgerView, user: AccountId, now: u64, n: int, i: u64)
    requires
        0 <= n,
    ensures
        pending_upto(v, user, now, n).contains(i) <==> (i < n && pending_at(v, user, i, now)),
    decreases n,
{
    if n > 0 {
        lemma_pending_membership(v, user, now, n - 1, i);
        let prev = pending_upto(v, user, now, n - 1);
        let cur = pending_upto(v, user, now, n);
        if pending_at(v, user, (n - 1) as u64, now) {
            assert(cur == prev.push((n - 1) as u64));
            assert(cur[prev.len() as int] == (n - 1) as u64);
            if i < n && pending_at(v, user, i, now) {
                if i < n - 1 {
                    let j = choose|j: int| 0 <= j < prev.len() && prev[j] == i;
                    assert(cur[j] == i);
                }
            }
            if cur.contains(i) {
                let j = choose|j: int| 0 <= j < cur.len() && cur[j] == i;
                if j < prev.len() {
                    assert(prev[j] == i);
                }
            }
        }
    }
}

/// How a batch run unfolds: each boolean reports its own entry's execution,
/// applied in order against the state the earlier entries left behind. An
/// entry whose guard fails reports `false` and leaves the state; one whose
/// guard passes reports `true` with the fully applied state, or `false`
/// with only the debit kept — which of the two is the external service's
/// choice, not the engine's.
pub open spec fn batch_outcome(
    pre: LedgerView,
    entries: Seq<(AccountId, u64)>,
    now: u64,
    results: Seq<bool>,
    post: LedgerView,
) -> bool
    decreases entries.len(),
{
    if entries.len() == 0 {
        results.len() == 0 && post == pre
    } else {
        let user = entries[0].0;
        let index = entries[0].1;
        &&& results.len() > 0
        &&& match execute_check(pre, user, index, now) {
            Some(_) => !results[0] && batch_outcome(
                pre,
                entries.skip(1),
                now,
                results.skip(1),
                post,
            ),
            None => (results[0] && batch_outcome(
                execute_applied(pre, user, index, now),
                entries.skip(1),
                now,
                results.skip(1),
                post,
            )) || (!results[0] && batch_outcome(
                execute_debited(pre, user, index),
                entries.skip(1),
                now,
                results.skip(1),
                post,
            )),
        }
    }
}

/// Extends a batch unfolding by one more entry at its end.
proof fn lemma_batch_outcome_snoc(
    pre: LedgerView,
    entries: Seq<(AccountId, u64)>,
    now: u64,
    results: Seq<bool>,
    mid: LedgerView,
    entry: (AccountId, u64),
    ok: bool,
    post: LedgerView,
)
    requires
        batch_outcome(pre, entries, now, results, mid),
        match execute_check(mid, entry.0, entry.1, now) {
            Some(_) => !ok && post == mid,
            None => (ok && post == execute_applied(mid, entry.0, entry.1, now)) || (!ok && post
                == execute_debited(mid, entry.0, entry.1)),
        },
    ensures
        batch_outcome(pre, entries.push(entry), now, results.push(ok), post),
    decreases entries.len(),
{
    if entries.len() == 0 {
        assert(entries.push(entry).skip(1) =~= Seq::<(AccountId, u64)>::empty());
        assert(results.push(ok).skip(1) =~= Seq::<bool>::empty());
        assert(mid == pre);
        match execute_check(pre, entry.0, entry.1, now) {
            Some(_) => {
                assert(batch_outcome(
                    pre,
                    Seq::<(AccountId, u64)>::empty(),
                    now,
                    Seq::<bool>::empty(),
                    post,
                ));
            },
            None => {
                assert(batch_outcome(
                    post,
                    Seq::<(AccountId, u64)>::empty(),
                    now,
                    Seq::<bool>::empty(),
                    post,
                ));
            },
        }
    } else {
        let user = entries[0].0;
        let index = entries[0].1;
        assert(entries.push(entry).skip(1) =~= entries.skip(1).push(entry));
        assert(results.push(ok).skip(1) =~= results.skip(1).push(ok));
        match execute_check(pre, user, index, now) {
            Some(_) => {
                lemma_batch_outcome_snoc(
                    pre,
                    entries.skip(1),
                    now,
                    results.skip(1),
                    mid,
                    entry,
                    ok,
                    post,
                );
            },
            None => {
                if results[0] {
                    lemma_batch_outcome_snoc(
                        execute_applied(pre, user, index, now),
                        entries.skip(1),
                        now,
                        results.skip(1),
                        mid,
                        entry,
                        ok,
                        post,
                    );
                } else {
                    lemma_batch_outcome_snoc(
                        execute_debited(pre, user, index),
                        entries.skip(1),
                        now,
                        results.skip(1),
                        mid,
                        entry,
                        ok,
                        post,
                    );
                }
            },
        }
    }
}

/// The machine limits of a whole batch: each entry's execution fits in
/// whichever state the earlier entries can have left behind. An entry whose
/// guard fails leaves the state as it was; one whose transfers fail leaves
/// only the debit; a successful one applies fully.
pub open spec fn batch_fits(v: LedgerView, entries: Seq<(AccountId, u64)>, now: u64) -> bool
    decreases entries.len(),
{
    entries.len() == 0 || {
        let user = entries[0].0;
        let index = entries[0].1;
        &&& execute_fits(v, user, index, now)
        &&& match execute_check(v, user, index, now) {
            Some(_) => batch_fits(v, entries.skip(1), now),
            None => batch_fits(execute_debited(v, user, index), entries.skip(1), now)
                && batch_fits(execute_applied(v, user, index, now), entries.skip(1), now),
        }
    }
}

impl UniversalRemittance {
    /// Executes one due auto-payment: debits the payer's internal balance by
    /// the gross amount, pushes the net amount to the beneficiary and the
    /// fee to the treasury, then records the execution. Callable by anyone.
    /// A transfer failure reports `TransferFailed` and leaves the debit in
    /// place: the engine does not roll back after external effects.
    pub fn execute_auto_payments<S: TokenService>(
        &mut self,
        svc: &mut S,
        user: AccountId,
        beneficiary_index: u64,
        now: u64,
    ) -> (r: Result<(), RemittanceErrors>)
        requires
            old(self).wf(),
            now <= MAX_TIME,
            old(self)@.no_future_payments(now),
            execute_fits(old(self)@, user, beneficiary_index, now),
        ensures
            final(self).wf(),
            final(self)@.no_future_payments(now),
            match execute_check(old(self)@, user, beneficiary_index, now) {
                Some(e) => r == Err::<(), RemittanceErrors>(e) && final(self)@ == old(self)@,
                None => (r == Ok::<(), RemittanceErrors>(()) && final(self)@ == execute_applied(
                    old(self)@,
                    user,
                    beneficiary_index,
                    now,
                )) || (r == Err::<(), RemittanceErrors>(RemittanceErrors::TransferFailed)
                    && final(self)@ == execute_debited(old(self)@, user, beneficiary_index)),
            },
    {
        self.when_not_paused()?;
        let count = self.get_beneficiary_count(user);
        if beneficiary_index >= count {
            return Err(RemittanceErrors::BeneficiaryNotFound);
        }
        let key = BeneficiaryKey { user, index: beneficiary_index };
        let (b_address, b_amount, b_token, b_frequency, b_last) = match self
            .beneficiaries
            .get(&key) {
            Some(b) => {
                if !b.is_active || b.frequency == 0 {
                    return Err(RemittanceErrors::InvalidConfiguration);
                }
                (b.beneficiary_address, b.amount, b.token, b.frequency, b.last_payment)
            },
            None => unreached(),
        };
        let frequency_seconds = b_frequency * SECONDS_PER_DAY;
        if b_last > 0 && now - b_last < frequency_seconds {
            return Err(RemittanceErrors::FrequencyNotMet);
        }
        let balance = self.get_user_balance(user, b_token);
        if balance < b_amount {
            return Err(RemittanceErrors::InsufficientBalance);
        }
        let fee = self.compute_fee(b_amount);
        let net = b_amount - fee;
        self.balances.set(BalanceKey { user, token: b_token }, balance - b_amount);
        proof {
            crate::model::lemma_wf_same_scheduling(self@, old(self)@);
            assert(self@ =~= execute_debited(old(self)@, user, beneficiary_index));
        }
        if !svc.transfer(b_token, b_address, net) {
            return Err(RemittanceErrors::TransferFailed);
        }
        if fee > 0 {
            if !svc.transfer(b_token, self.treasury, fee) {
                return Err(RemittanceErrors::TransferFailed);
            }
        }
        let nb = match self.beneficiaries.get(&key) {
            Some(b) => Beneficiary {
                beneficiary_address: b.beneficiary_address,
                name: b.name.clone(),
                relationship: b.relationship.clone(),
                amount: b.amount,
                token: b.token,
                frequency: b.frequency,
                last_payment: now,
                is_active: b.is_active,
                total_sent: b.total_sent + b_amount,
            },
            None => unreached(),
        };
        let ghost pre_ben = self@;
        self.beneficiaries.set(key, nb);
        proof {
            crate::model::lemma_wf_update_beneficiary(self@, pre_ben, key, self@.beneficiaries[key]);
        }
        let new_payer = match self.users.get(&user) {
            Some(p) => UserProfile {
                name: p.name.clone(),
                country: p.country.clone(),
                phone_number: p.phone_number.clone(),
                is_active: p.is_active,
                total_sent: p.total_sent + b_amount,
                total_received: p.total_received,
                registration_time: p.registration_time,
            },
            None => unreached(),
        };
        let ghost pre_payer = self@;
        self.users.set(user, new_payer);
        proof {
            crate::model::lemma_wf_same_scheduling(self@, pre_payer);
        }
        if self.users.contains(&b_address) {
            let new_target = match self.users.get(&b_address) {
                Some(p) => UserProfile {
                    name: p.name.clone(),
                    country: p.country.clone(),
                    phone_number: p.phone_number.clone(),
                    is_active: p.is_active,
                    total_sent: p.total_sent,
                    total_received: p.total_received + net,
                    registration_time: p.registration_time,
                },
                None => unreached(),
            };
            let ghost pre_target = self@;
            self.users.set(b_address, new_target);
            proof {
                crate::model::lemma_wf_same_scheduling(self@, pre_target);
            }
        }
        self.execution_count = self.execution_count + 1;
        proof {
            crate::model::lemma_wf_same_scheduling(self@, pre_payer);
            assert(self@ =~= execute_applied(old(self)@, user, beneficiary_index, now));
        }
        Ok(())
    }

    /// When a beneficiary may next execute: 0 for manual or removed ones,
    /// `now` for never-executed ones, otherwise the last execution plus the
    /// configured interval.
    pub fn estimate_next_payment_time(&self, user: AccountId, beneficiary_index: u64, now: u64) -> (r:
        Result<u64, RemittanceErrors>)
        requires
            self.wf(),
        ensures
            match r {
                Ok(t) => beneficiary_index < self@.beneficiary_count(user) && ({
                    let b = self@.beneficiary_at(user, beneficiary_index);
                    if !b.is_active || b.frequency == 0 {
                        t == 0
                    } else if b.last_payment == 0 {
                        t == now
                    } else {
                        t == b.last_payment + b.frequency * SECONDS_PER_DAY
                    }
                }),
                Err(e) => e == RemittanceErrors::BeneficiaryNotFound && beneficiary_index
                    >= self@.beneficiary_count(user),
            },
    {
        let count = self.get_beneficiary_count(user);
        if beneficiary_index >= count {
            return Err(RemittanceErrors::BeneficiaryNotFound);
        }
        let key = BeneficiaryKey { user, index: beneficiary_index };
        match self.beneficiaries.get(&key) {
            Some(b) => {
                proof {
                    assert(self@.beneficiaries.dom().contains(key));
                    assert(crate::model::wf_beneficiary(self@.beneficiaries[key]));
                }
                if !b.is_active || b.frequency == 0 {
                    Ok(0)
                } else if b.last_payment == 0 {
                    Ok(now)
                } else {
                    Ok(b.last_payment + b.frequency * SECONDS_PER_DAY)
                }
            },
            None => {
                proof {
                    assert(self@.beneficiaries.contains_key(key));
                }
                unreached()
            },
        }
    }

    /// The indices of the caller-designated account's beneficiaries that are
    /// currently due and funded, in increasing order. Purely advisory: the
    /// state may change before they are executed.
    pub fn get_pending_auto_payments(&self, user: AccountId, now: u64) -> (r: Vec<u64>)
        requires
            self.wf(),
            self@.no_future_payments(now),
        ensures
            r@ == pending_upto(self@, user, now, self@.beneficiary_count(user) as int),
    {
        let mut pending: Vec<u64> = Vec::new();
        let count = self.get_beneficiary_count(user);
        let mut i: u64 = 0;
        while i < count
            invariant
                self.wf(),
                self@.no_future_payments(now),
                i <= count,
                count == self@.beneficiary_count(user),
                pending@ == pending_upto(self@, user, now, i as int),
            decreases count - i,
        {
            let key = BeneficiaryKey { user, index: i };
            match self.beneficiaries.get(&key) {
                Some(b) => {
                    if b.is_active && b.frequency != 0 && (b.last_payment == 0 || now
                        - b.last_payment >= b.frequency * SECONDS_PER_DAY) {
                        let balance = self.get_user_balance(user, b.token);
                        if balance >= b.amount {
                            pending.push(i);
                        }
                    }
                },
                None => {
                    proof {
                        assert(self@.beneficiaries.contains_key(key));
                    }
                },
            }
            i = i + 1;
        }
        pending
    }

    /// Executes a list of (account, index) entries best-effort: each entry
    /// yields one boolean reporting that entry's execution, applied in order
    /// against the state the earlier entries left; a failed entry never
    /// aborts the batch, and the failure reason is discarded.
    pub fn batch_execute_auto_payments<S: TokenService>(
        &mut self,
        svc: &mut S,
        users_and_indices: Vec<(AccountId, u64)>,
        now: u64,
    ) -> (r: Result<Vec<bool>, RemittanceErrors>)
        requires
            old(self).wf(),
            now <= MAX_TIME,
            old(self)@.no_future_payments(now),
            !old(self)@.paused ==> batch_fits(old(self)@, users_and_indices@, now),
        ensures
            final(self).wf(),
            final(self)@.no_future_payments(now),
            final(self)@.paused == old(self)@.paused,
            match r {
                Err(e) => e == RemittanceErrors::ContractPaused && old(self)@.paused && final(self)@
                    == old(self)@,
                Ok(results) => !old(self)@.paused && results@.len() == users_and_indices@.len()
                    && batch_outcome(old(self)@, users_and_indices@, now, results@, final(self)@),
            },
    {
        self.when_not_paused()?;
        let ghost orig = self@;
        proof {
            assert(users_and_indices@.skip(0) =~= users_and_indices@);
            assert(users_and_indices@.take(0) =~= Seq::<(AccountId, u64)>::empty());
        }
        let mut results: Vec<bool> = Vec::new();
        let n = users_and_indices.len();
        for i in 0..n
            invariant
                n == users_and_indices.len(),
                self.wf(),
                self@.no_future_payments(now),
                !self@.paused,
                now <= MAX_TIME,
                batch_fits(self@, users_and_indices@.skip(i as int), now),
                results@.len() == i,
                batch_outcome(orig, users_and_indices@.take(i as int), now, results@, self@),
        {
            let (user, index) = users_and_indices[i];
            let ghost remaining = users_and_indices@.skip(i as int);
            let ghost pre_entry = self@;
            let ghost prev_results = results@;
            proof {
                assert(remaining[0] == (user, index));
                assert(remaining.skip(1) =~= users_and_indices@.skip(i + 1 as int));
            }
            let ok = match self.execute_auto_payments(svc, user, index, now) {
                Ok(()) => true,
                Err(_) => false,
            };
            results.push(ok);
            proof {
                lemma_batch_outcome_snoc(
                    orig,
                    users_and_indices@.take(i as int),
                    now,
                    prev_results,
                    pre_entry,
                    (user, index),
                    ok,
                    self@,
                );
                assert(users_and_indices@.take(i as int).push((user, index))
                    =~= users_and_indices@.take(i + 1 as int));
            }
        }
        proof {
            assert(users_and_indices@.take(n as int) =~= users_and_indices@);
        }
        Ok(results)
    }
}

} // verus!
