//! Ledger-wide laws, each proved from the operations' transition functions.
//!
//! Balances themselves can never go negative: they are unsigned throughout,
//! and the lemmas here show that an uncovered debit is rejected rather than
//! applied.

use vstd::prelude::*;

verus! {

use crate::types::{AccountId, SECONDS_PER_DAY, MAX_FEE_BPS, FEE_DENOMINATOR};
use crate::errors::RemittanceErrors;
use crate::model::{LedgerView, spec_fee, spec_net, lemma_fee_bounds};
use crate::accounts::register_check;
use crate::funds::{deposit_check, withdraw_check};
use crate::payments::{send_check, send_applied};
use crate::beneficiaries::{
    add_beneficiary_check,
    add_beneficiary_applied,
    update_beneficiary_check,
    remove_beneficiary_check,
    remove_beneficiary_applied,
};
use crate::types::BeneficiaryKey;
use crate::autopay::{execute_check, execute_applied, execute_debited};
use crate::funds::{deposit_applied, withdraw_debited};

/// Law: a withdrawal that the internal balance cannot cover is rejected
/// with `InsufficientBalance` (and, by `withdraw_balance`'s contract, a
/// rejected withdrawal leaves the state unchanged).
pub proof fn lemma_withdraw_insufficient_rejected(
    v: LedgerView,
    caller: AccountId,
    token: AccountId,
    amount: u64,
)
    requires
        !v.paused,
        v.registered(caller),
        v.token_supported(token),
        amount > 0,
        v.balance_of(caller, token) < amount,
    ensures
        withdraw_check(v, caller, token, amount) == Some(RemittanceErrors::InsufficientBalance),
{
}

/// Law: an auto-payment that the payer's internal balance cannot cover is
/// rejected with `InsufficientBalance` (and, by `execute_auto_payments`'s
/// contract, a rejected execution leaves the state unchanged).
pub proof fn lemma_execute_insufficient_rejected(
    v: LedgerView,
    user: AccountId,
    index: u64,
    now: u64,
)
    requires
        !v.paused,
        index < v.beneficiary_count(user),
        v.beneficiary_at(user, index).is_active,
        v.beneficiary_at(user, index).frequency != 0,
        v.beneficiary_at(user, index).last_payment == 0 || now - v.beneficiary_at(
            user,
            index,
        ).last_payment >= v.beneficiary_at(user, index).frequency * SECONDS_PER_DAY,
        v.balance_of(user, v.beneficiary_at(user, index).token) < v.beneficiary_at(
            user,
            index,
        ).amount,
    ensures
        execute_check(v, user, index, now) == Some(RemittanceErrors::InsufficientBalance),
{
}

/// Law: internal value is conserved by deposits — a deposit credits exactly
/// its amount to the one (account, token) balance it names, and no other
/// balance moves.
pub proof fn lemma_deposit_moves_one_balance(
    v: LedgerView,
    caller: AccountId,
    token: AccountId,
    amount: u64,
    other: AccountId,
    other_token: AccountId,
)
    requires
        v.balance_of(caller, token) + amount <= u64::MAX,
    ensures
        deposit_applied(v, caller, token, amount).balance_of(caller, token) == v.balance_of(
            caller,
            token,
        ) + amount,
        other != caller || other_token != token ==> deposit_applied(
            v,
            caller,
            token,
            amount,
        ).balance_of(other, other_token) == v.balance_of(other, other_token),
{
}

/// Law: internal value is conserved by withdrawals — the debit takes exactly
/// the amount from the one balance named, and no other balance moves.
pub proof fn lemma_withdraw_moves_one_balance(
    v: LedgerView,
    caller: AccountId,
    token: AccountId,
    amount: u64,
    other: AccountId,
    other_token: AccountId,
)
    requires
        amount <= v.balance_of(caller, token),
    ensures
        withdraw_debited(v, caller, token, amount).balance_of(caller, token) == v.balance_of(
            caller,
            token,
        ) - amount,
        other != caller || other_token != token ==> withdraw_debited(
            v,
            caller,
            token,
            amount,
        ).balance_of(other, other_token) == v.balance_of(other, other_token),
{
}

/// Law: internal value is conserved by auto-payments — the payer is debited
/// exactly the beneficiary's gross amount, no other balance moves, and the
/// bookkeeping that follows the debit moves no balance either.
pub proof fn lemma_execute_moves_one_balance(
    v: LedgerView,
    user: AccountId,
    index: u64,
    now: u64,
    other: AccountId,
    other_token: AccountId,
)
    requires
        v.beneficiary_at(user, index).amount <= v.balance_of(
            user,
            v.beneficiary_at(user, index).token,
        ),
    ensures
        ({
            let b = v.beneficiary_at(user, index);
            &&& execute_debited(v, user, index).balance_of(user, b.token) == v.balance_of(
                user,
                b.token,
            ) - b.amount
            &&& (other != user || other_token != b.token) ==> execute_debited(
                v,
                user,
                index,
            ).balance_of(other, other_token) == v.balance_of(other, other_token)
            &&& execute_applied(v, user, index, now).balances == execute_debited(
                v,
                user,
                index,
            ).balances
        }),
{
}

/// Law: a successful manual payment appends exactly one record — the count
/// grows by one and every earlier record is untouched, so identifiers are
/// never reused — and a failed one (by `send_payment`'s contract) appends
/// none. `get_payment`'s contract makes the one-past-the-end identifier
/// invalid.
pub proof fn lemma_payment_count_monotonic(
    v: LedgerView,
    caller: AccountId,
    recipient: AccountId,
    amount: u64,
    token: AccountId,
    note: String,
    now: u64,
)
    ensures
        send_applied(v, caller, recipient, amount, token, note, now).payment_count()
            == v.payment_count() + 1,
        forall|i: int|
            0 <= i < v.payments.len() ==> send_applied(
                v,
                caller,
                recipient,
                amount,
                token,
                note,
                now,
            ).payments[i] == v.payments[i],
{
}

/// Law: a fully successful auto-payment advances the execution counter by
/// exactly one, and one that fails after the debit leaves it unchanged.
pub proof fn lemma_execution_count_monotonic(v: LedgerView, user: AccountId, index: u64, now: u64)
    requires
        v.execution_count < u64::MAX,
    ensures
        execute_applied(v, user, index, now).execution_count == v.execution_count + 1,
        execute_debited(v, user, index).execution_count == v.execution_count,
{
}

/// Law: the fee is the integer floor of `amount * fee_bps / 10000`, the net
/// and the fee sum exactly back to the gross amount, and the fee never
/// exceeds the amount, for every rate within the cap.
pub proof fn lemma_fee_net_sum(amount: u64, fee_bps: u64)
    requires
        fee_bps <= MAX_FEE_BPS,
    ensures
        spec_fee(amount, fee_bps) == (amount * fee_bps) / (FEE_DENOMINATOR as int),
        spec_net(amount, fee_bps) + spec_fee(amount, fee_bps) == amount,
        0 <= spec_fee(amount, fee_bps) <= amount,
{
    lemma_fee_bounds(amount, fee_bps);
}

/// Law: the beneficiary index space is append-only. Adding raises the
/// owner's count by exactly one and touches nobody else's; removal leaves
/// every count and every occupied index in place — clearing the active flag
/// is the only removal mechanism.
pub proof fn lemma_beneficiary_count_append_only(
    v: LedgerView,
    caller: AccountId,
    beneficiary_address: AccountId,
    name: String,
    relationship: String,
    amount: u64,
    token: AccountId,
    frequency: u64,
    index: u64,
    other: AccountId,
)
    requires
        v.beneficiary_count(caller) < u64::MAX,
        v.has_beneficiary(caller, index),
    ensures
        ({
            let added = add_beneficiary_applied(
                v,
                caller,
                beneficiary_address,
                name,
                relationship,
                amount,
                token,
                frequency,
            );
            &&& added.beneficiary_count(caller) == v.beneficiary_count(caller) + 1
            &&& other != caller ==> added.beneficiary_count(other) == v.beneficiary_count(other)
        }),
        remove_beneficiary_applied(v, caller, index).beneficiary_counts == v.beneficiary_counts,
        remove_beneficiary_applied(v, caller, index).beneficiaries.dom() == v.beneficiaries.dom(),
{
    let removed = remove_beneficiary_applied(v, caller, index);
    assert(removed.beneficiaries.dom() =~= v.beneficiaries.dom()) by {
        assert(v.beneficiaries.contains_key(BeneficiaryKey { user: caller, index }));
    }
}

/// Law: soft deletion is idempotent in its failure. After a successful
/// removal the beneficiary is inactive, so removing the same index again
/// fails with `BeneficiaryNotFound` — and by `get_beneficiary`'s contract,
/// every later lookup of that index fails the same way.
pub proof fn lemma_remove_idempotent(v: LedgerView, caller: AccountId, index: u64)
    requires
        v.wf(),
        remove_beneficiary_check(v, caller, index) == None::<RemittanceErrors>,
    ensures
        !remove_beneficiary_applied(v, caller, index).beneficiary_at(caller, index).is_active,
        remove_beneficiary_check(remove_beneficiary_applied(v, caller, index), caller, index)
            == Some(RemittanceErrors::BeneficiaryNotFound),
{
}

/// Law: the frequency setting gates re-execution. After an execution at
/// `t > 0`, a second execution before the configured interval has elapsed
/// fails with `FrequencyNotMet`; once the interval has elapsed (and the
/// balance still covers the amount), nothing blocks it.
pub proof fn lemma_frequency_gating(
    v: LedgerView,
    user: AccountId,
    index: u64,
    t: u64,
    now2: u64,
)
    requires
        v.wf(),
        execute_check(v, user, index, t) == None::<RemittanceErrors>,
        0 < t <= now2,
    ensures
        ({
            let v2 = execute_applied(v, user, index, t);
            let b2 = v2.beneficiary_at(user, index);
            &&& now2 - t < b2.frequency * SECONDS_PER_DAY ==> execute_check(v2, user, index, now2)
                == Some(RemittanceErrors::FrequencyNotMet)
            &&& now2 - t >= b2.frequency * SECONDS_PER_DAY && v2.balance_of(user, b2.token)
                >= b2.amount ==> execute_check(v2, user, index, now2) == None::<RemittanceErrors>
        }),
{
}

/// Law: while the pause switch is set, every mutating non-admin operation
/// is rejected with `ContractPaused`. The owner-only administration
/// operations (`unpause` among them) and the read-only queries are not
/// gated by the switch: their contracts never mention it.
pub proof fn lemma_pause_gates_mutations(
    v: LedgerView,
    caller: AccountId,
    user: AccountId,
    amount: u64,
    token: AccountId,
    frequency: u64,
    index: u64,
    now: u64,
)
    requires
        v.paused,
    ensures
        register_check(v, caller) == Some(RemittanceErrors::ContractPaused),
        deposit_check(v, caller, token, amount) == Some(RemittanceErrors::ContractPaused),
        withdraw_check(v, caller, token, amount) == Some(RemittanceErrors::ContractPaused),
        send_check(v, caller, amount, token, now) == Some(RemittanceErrors::ContractPaused),
        add_beneficiary_check(v, caller, amount, token, frequency) == Some(
            RemittanceErrors::ContractPaused,
        ),
        update_beneficiary_check(v, caller, index, frequency) == Some(
            RemittanceErrors::ContractPaused,
        ),
        remove_beneficiary_check(v, caller, index) == Some(RemittanceErrors::ContractPaused),
        execute_check(v, user, index, now) == Some(RemittanceErrors::ContractPaused),
{
}

} // verus!
