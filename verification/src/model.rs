//! The ledger's mathematical model: the ghost state every contract speaks
//! of, its well-formedness invariant, and the fee arithmetic.

use vstd::prelude::*;

verus! {

use crate::types::{AccountId, BalanceKey, BeneficiaryKey, SpendKey};
use crate::types::{SECONDS_PER_DAY, FEE_DENOMINATOR, MAX_FEE_BPS, MAX_TIME};
use crate::records::{UserProfile, Beneficiary, Payment};

/// The abstract state of the ledger.
#[verifier::ext_equal]
pub struct LedgerView {
    pub owner: AccountId,
    pub self_address: AccountId,
    pub treasury: AccountId,
    pub paused: bool,
    /// Fee rate in basis points, at most [`MAX_FEE_BPS`].
    pub platform_fee_percent: u64,
    pub execution_count: u64,
    pub users: Map<AccountId, UserProfile>,
    pub balances: Map<BalanceKey, u64>,
    pub beneficiary_counts: Map<AccountId, u64>,
    pub beneficiaries: Map<BeneficiaryKey, Beneficiary>,
    pub payments: Seq<Payment>,
    pub supported_tokens: Map<AccountId, bool>,
    pub daily_limits: Map<AccountId, u64>,
    pub daily_spent: Map<SpendKey, u64>,
}

/// The frequencies a beneficiary may be configured with: manual (0) or a
/// fixed number of days.
pub open spec fn valid_frequency(f: u64) -> bool {
    f == 0 || f == 1 || f == 7 || f == 30 || f == 365
}

pub open spec fn wf_beneficiary(b: Beneficiary) -> bool {
    valid_frequency(b.frequency) && b.last_payment <= MAX_TIME
}

impl LedgerView {
    pub open spec fn registered(self, user: AccountId) -> bool {
        self.users.contains_key(user)
    }

    /// An account's internal balance for a token; unset entries are zero.
    pub open spec fn balance_of(self, user: AccountId, token: AccountId) -> u64 {
        let k = BalanceKey { user, token };
        if self.balances.contains_key(k) {
            self.balances[k]
        } else {
            0
        }
    }

    pub open spec fn token_supported(self, token: AccountId) -> bool {
        self.supported_tokens.contains_key(token) && self.supported_tokens[token]
    }

    pub open spec fn beneficiary_count(self, user: AccountId) -> u64 {
        if self.beneficiary_counts.contains_key(user) {
            self.beneficiary_counts[user]
        } else {
            0
        }
    }

    pub open spec fn has_beneficiary(self, user: AccountId, index: u64) -> bool {
        self.beneficiaries.contains_key(BeneficiaryKey { user, index })
    }

    pub open spec fn beneficiary_at(self, user: AccountId, index: u64) -> Beneficiary {
        self.beneficiaries[BeneficiaryKey { user, index }]
    }

    /// The daily spend cap of an account; 0 means no cap.
    pub open spec fn daily_limit_of(self, user: AccountId) -> u64 {
        if self.daily_limits.contains_key(user) {
            self.daily_limits[user]
        } else {
            0
        }
    }

    pub open spec fn spent_on(self, user: AccountId, day: u64) -> u64 {
        let k = SpendKey { user, day };
        if self.daily_spent.contains_key(k) {
            self.daily_spent[k]
        } else {
            0
        }
    }

    pub open spec fn total_sent_of(self, user: AccountId) -> u64 {
        if self.users.contains_key(user) {
            self.users[user].total_sent
        } else {
            0
        }
    }

    pub open spec fn total_received_of(self, user: AccountId) -> u64 {
        if self.users.contains_key(user) {
            self.users[user].total_received
        } else {
            0
        }
    }

    pub open spec fn payment_count(self) -> int {
        self.payments.len() as int
    }

    /// A gross amount passes the daily limit when no cap is set or today's
    /// spending plus the amount stays within the cap.
    pub open spec fn within_daily_limit(self, user: AccountId, amount: u64, now: u64) -> bool {
        let limit = self.daily_limit_of(user);
        limit == 0 || self.spent_on(user, now / SECONDS_PER_DAY) + amount <= limit
    }

    /// No recorded execution lies in the future of `now`. Callers supply a
    /// current time that does not precede any time already recorded.
    pub open spec fn no_future_payments(self, now: u64) -> bool {
        forall|k: BeneficiaryKey|
            self.beneficiaries.contains_key(k) ==> (#[trigger] self.beneficiaries[k]).last_payment
                <= now
    }

    /// The ledger's invariant: the fee rate is capped, beneficiary indices
    /// are dense below their per-account count, every beneficiary is
    /// well-formed, only registered accounts hold beneficiaries, and the
    /// payment log holds only completed manual records.
    pub open spec fn wf(self) -> bool {
        &&& self.platform_fee_percent <= MAX_FEE_BPS
        &&& forall|k: BeneficiaryKey|
            #![trigger self.beneficiaries.dom().contains(k)]
            self.beneficiaries.contains_key(k) <==> k.index < self.beneficiary_count(k.user)
        &&& forall|k: BeneficiaryKey|
            self.beneficiaries.contains_key(k) ==> wf_beneficiary(
                #[trigger] self.beneficiaries[k],
            )
        &&& forall|u: AccountId| #[trigger] self.beneficiary_count(u) > 0 ==> self.registered(u)
        &&& forall|i: int|
            0 <= i < self.payments.len() ==> (#[trigger] self.payments[i]).payment_type == 0
                && self.payments[i].completed
    }
}

/// Well-formedness only constrains the fee rate, the beneficiary tables and
/// the payment log; a state that agrees with a well-formed one on those is
/// itself well-formed.
pub proof fn lemma_wf_same_scheduling(a: LedgerView, b: LedgerView)
    requires
        b.wf(),
        a.platform_fee_percent <= MAX_FEE_BPS,
        a.beneficiaries == b.beneficiaries,
        a.beneficiary_counts == b.beneficiary_counts,
        a.payments == b.payments,
        forall|u: AccountId| #[trigger] b.registered(u) ==> a.registered(u),
    ensures
        a.wf(),
{
    assert forall|k: BeneficiaryKey|
        (a.beneficiaries.dom().contains(k) <==> k.index < a.beneficiary_count(k.user)) by {
        assert(b.beneficiaries.dom().contains(k) <==> k.index < b.beneficiary_count(k.user));
    }
    assert forall|k: BeneficiaryKey| a.beneficiaries.contains_key(k) implies wf_beneficiary(
        a.beneficiaries[k],
    ) by {
        assert(b.beneficiaries.dom().contains(k));
        assert(wf_beneficiary(b.beneficiaries[k]));
    }
    assert forall|u: AccountId| #[trigger] a.beneficiary_count(u) > 0 implies a.registered(u) by {
        assert(b.beneficiary_count(u) > 0 ==> b.registered(u));
    }
}

/// Appending a completed manual record to the payment log preserves
/// well-formedness alongside unchanged scheduling state.
pub proof fn lemma_wf_push_manual_payment(a: LedgerView, b: LedgerView, p: Payment)
    requires
        b.wf(),
        a.platform_fee_percent == b.platform_fee_percent,
        a.beneficiaries == b.beneficiaries,
        a.beneficiary_counts == b.beneficiary_counts,
        a.payments == b.payments.push(p),
        p.payment_type == 0,
        p.completed,
        forall|u: AccountId| #[trigger] b.registered(u) ==> a.registered(u),
    ensures
        a.wf(),
{
    let mid = LedgerView { payments: b.payments, ..a };
    lemma_wf_same_scheduling(mid, b);
    assert forall|i: int| 0 <= i < a.payments.len() implies (#[trigger] a.payments[i]).payment_type
        == 0 && a.payments[i].completed by {
        if i < b.payments.len() {
            assert(b.payments[i].payment_type == 0 && b.payments[i].completed);
        } else {
            assert(a.payments[i] == p);
        }
    }
    assert forall|k: BeneficiaryKey|
        (a.beneficiaries.dom().contains(k) <==> k.index < a.beneficiary_count(k.user)) by {
        assert(mid.beneficiaries.dom().contains(k) <==> k.index < mid.beneficiary_count(k.user));
    }
    assert forall|k: BeneficiaryKey| a.beneficiaries.contains_key(k) implies wf_beneficiary(
        a.beneficiaries[k],
    ) by {
        assert(mid.beneficiaries.dom().contains(k));
        assert(wf_beneficiary(mid.beneficiaries[k]));
    }
    assert forall|u: AccountId| #[trigger] a.beneficiary_count(u) > 0 implies a.registered(u) by {
        assert(mid.beneficiary_count(u) > 0 ==> mid.registered(u));
    }
}

/// Replacing an existing beneficiary with a well-formed one leaves the
/// index space dense and the invariant intact.
pub proof fn lemma_wf_update_beneficiary(
    a: LedgerView,
    b: LedgerView,
    k: BeneficiaryKey,
    nb: Beneficiary,
)
    requires
        b.wf(),
        b.beneficiaries.contains_key(k),
        wf_beneficiary(nb),
        a.platform_fee_percent == b.platform_fee_percent,
        a.beneficiary_counts == b.beneficiary_counts,
        a.beneficiaries == b.beneficiaries.insert(k, nb),
        a.payments == b.payments,
        forall|u: AccountId| #[trigger] b.registered(u) ==> a.registered(u),
    ensures
        a.wf(),
{
    assert forall|j: BeneficiaryKey|
        (a.beneficiaries.dom().contains(j) <==> j.index < a.beneficiary_count(j.user)) by {
        assert(b.beneficiaries.dom().contains(j) <==> j.index < b.beneficiary_count(j.user));
    }
    assert forall|j: BeneficiaryKey| a.beneficiaries.contains_key(j) implies wf_beneficiary(
        a.beneficiaries[j],
    ) by {
        if j != k {
            assert(b.beneficiaries.dom().contains(j));
            assert(wf_beneficiary(b.beneficiaries[j]));
        }
    }
    assert forall|u: AccountId| #[trigger] a.beneficiary_count(u) > 0 implies a.registered(u) by {
        assert(b.beneficiary_count(u) > 0 ==> b.registered(u));
    }
}

/// Appending a well-formed beneficiary at an account's current count, while
/// bumping that count, preserves the invariant.
pub proof fn lemma_wf_add_beneficiary(a: LedgerView, b: LedgerView, user: AccountId, nb: Beneficiary)
    requires
        b.wf(),
        wf_beneficiary(nb),
        b.beneficiary_count(user) < u64::MAX,
        b.registered(user),
        a.platform_fee_percent == b.platform_fee_percent,
        a.beneficiaries == b.beneficiaries.insert(
            BeneficiaryKey { user, index: b.beneficiary_count(user) },
            nb,
        ),
        a.beneficiary_counts == b.beneficiary_counts.insert(
            user,
            (b.beneficiary_count(user) + 1) as u64,
        ),
        a.payments == b.payments,
        forall|u: AccountId| #[trigger] b.registered(u) ==> a.registered(u),
    ensures
        a.wf(),
{
    let count = b.beneficiary_count(user);
    let nk = BeneficiaryKey { user, index: count };
    assert forall|j: BeneficiaryKey|
        (a.beneficiaries.dom().contains(j) <==> j.index < a.beneficiary_count(j.user)) by {
        assert(b.beneficiaries.dom().contains(j) <==> j.index < b.beneficiary_count(j.user));
        if j.user == user {
            assert(a.beneficiary_count(j.user) == count + 1);
        } else {
            assert(a.beneficiary_count(j.user) == b.beneficiary_count(j.user));
        }
    }
    assert forall|j: BeneficiaryKey| a.beneficiaries.contains_key(j) implies wf_beneficiary(
        a.beneficiaries[j],
    ) by {
        if j != nk {
            assert(b.beneficiaries.dom().contains(j));
            assert(wf_beneficiary(b.beneficiaries[j]));
        }
    }
    assert forall|u: AccountId| #[trigger] a.beneficiary_count(u) > 0 implies a.registered(u) by {
        if u != user {
            assert(b.beneficiary_count(u) > 0 ==> b.registered(u));
            assert(a.beneficiary_count(u) == b.beneficiary_count(u));
        }
    }
}

/// The platform fee on a gross amount: basis points, floored.
pub open spec fn spec_fee(amount: u64, fee_bps: u64) -> int {
    (amount * fee_bps) / (FEE_DENOMINATOR as int)
}

/// What the recipient receives: the gross amount less the fee.
pub open spec fn spec_net(amount: u64, fee_bps: u64) -> int {
    amount - spec_fee(amount, fee_bps)
}

/// The fee never exceeds the gross amount while the rate stays within the
/// denominator, so the net amount never underflows.
pub proof fn lemma_fee_bounds(amount: u64, fee_bps: u64)
    requires
        fee_bps <= FEE_DENOMINATOR,
    ensures
        0 <= spec_fee(amount, fee_bps) <= amount,
        0 <= spec_net(amount, fee_bps) <= amount,
{
    assert(0 <= (amount * fee_bps) / (FEE_DENOMINATOR as int) <= amount) by (nonlinear_arith)
        requires
            fee_bps <= FEE_DENOMINATOR,
            FEE_DENOMINATOR == 10000,
    ;
}

} // verus!
