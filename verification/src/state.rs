//! The ledger state, its view onto the model, and the authorization guards.

use vstd::prelude::*;

verus! {

use crate::types::{AccountId, BalanceKey, BeneficiaryKey, SpendKey};
use crate::records::{UserProfile, Beneficiary, Payment};
use crate::kvmap::{KVMap, MapKey};
use crate::model::LedgerView;
use crate::errors::RemittanceErrors;

/// The remittance ledger: one process-wide state object, created once and
/// mutated in place by each operation.
pub struct UniversalRemittance {
    pub(crate) owner: AccountId,
    pub(crate) self_address: AccountId,
    pub(crate) treasury: AccountId,
    pub(crate) paused: bool,
    pub(crate) platform_fee_percent: u64,
    pub(crate) execution_count: u64,
    pub(crate) users: KVMap<AccountId, UserProfile>,
    pub(crate) balances: KVMap<BalanceKey, u64>,
    pub(crate) beneficiary_counts: KVMap<AccountId, u64>,
    pub(crate) beneficiaries: KVMap<BeneficiaryKey, Beneficiary>,
    pub(crate) payments: Vec<Payment>,
    pub(crate) supported_tokens: KVMap<AccountId, bool>,
    pub(crate) daily_limits: KVMap<AccountId, u64>,
    pub(crate) daily_spent: KVMap<SpendKey, u64>,
}

impl View for UniversalRemittance {
    type V = LedgerView;

    open(crate) spec fn view(&self) -> LedgerView {
        LedgerView {
            owner: self.owner,
            self_address: self.self_address,
            treasury: self.treasury,
            paused: self.paused,
            platform_fee_percent: self.platform_fee_percent,
            execution_count: self.execution_count,
            users: self.users@,
            balances: self.balances@,
            beneficiary_counts: self.beneficiary_counts@,
            beneficiaries: self.beneficiaries@,
            payments: self.payments@,
            supported_tokens: self.supported_tokens@,
            daily_limits: self.daily_limits@,
            daily_spent: self.daily_spent@,
        }
    }
}

/// The state the constructor establishes: the given owner, engine address
/// and treasury, the default fee rate, the two stablecoins supported, and
/// everything else empty.
pub open spec fn initial_ledger(
    origin: AccountId,
    self_address: AccountId,
    treasury: AccountId,
) -> LedgerView {
    LedgerView {
        owner: origin,
        self_address,
        treasury,
        paused: false,
        platform_fee_percent: 50,
        execution_count: 0,
        users: Map::empty(),
        balances: Map::empty(),
        beneficiary_counts: Map::empty(),
        beneficiaries: Map::empty(),
        payments: Seq::empty(),
        supported_tokens: Map::empty().insert(usdc_arbitrum(), true).insert(
            usdt_arbitrum(),
            true,
        ),
        daily_limits: Map::empty(),
        daily_spent: Map::empty(),
    }
}

/// The USDC token identifier supported from construction.
pub open spec fn usdc_arbitrum() -> AccountId {
    AccountId { hi: 0xaf88d065, lo: 0xe77c8cC2239327C5EDb3A432268e5831 }
}

/// The USDT token identifier supported from construction.
pub open spec fn usdt_arbitrum() -> AccountId {
    AccountId { hi: 0xFd086bC7, lo: 0xCD5C481DCC9C85ebE478A1C0b69FCbb9 }
}

impl UniversalRemittance {
    /// The maps hold distinct keys and the abstract state satisfies the
    /// ledger invariant.
    pub open(crate) spec fn wf(self) -> bool {
        &&& self.users.wf()
        &&& self.balances.wf()
        &&& self.beneficiary_counts.wf()
        &&& self.beneficiaries.wf()
        &&& self.supported_tokens.wf()
        &&& self.daily_limits.wf()
        &&& self.daily_spent.wf()
        &&& self@.wf()
    }

    /// Creates the ledger with `origin` as its immutable owner,
    /// `self_address` as the engine's own identity (custodian of deposited
    /// funds) and `treasury` as the fee recipient.
    pub fn constructor(
        origin: AccountId,
        self_address: AccountId,
        treasury: AccountId,
    ) -> (r: UniversalRemittance)
        ensures
            r.wf(),
            r@ == initial_ledger(origin, self_address, treasury),
    {
        let mut supported_tokens: KVMap<AccountId, bool> = KVMap::new();
        supported_tokens.set(AccountId { hi: 0xaf88d065, lo: 0xe77c8cC2239327C5EDb3A432268e5831 }, true);
        supported_tokens.set(AccountId { hi: 0xFd086bC7, lo: 0xCD5C481DCC9C85ebE478A1C0b69FCbb9 }, true);
        let r = UniversalRemittance {
            owner: origin,
            self_address,
            treasury,
            paused: false,
            platform_fee_percent: 50,
            execution_count: 0,
            users: KVMap::new(),
            balances: KVMap::new(),
            beneficiary_counts: KVMap::new(),
            beneficiaries: KVMap::new(),
            payments: Vec::new(),
            supported_tokens,
            daily_limits: KVMap::new(),
            daily_spent: KVMap::new(),
        };
        proof {
            assert(r@ =~= initial_ledger(origin, self_address, treasury));
            assert forall|k: BeneficiaryKey| r@.beneficiaries.contains_key(k)
                <==> k.index < r@.beneficiary_count(k.user) by {}
        }
        r
    }

    /// Fails with `ContractPaused` while the global pause switch is set.
    pub(crate) fn when_not_paused(&self) -> (r: Result<(), RemittanceErrors>)
        ensures
            r == (if self@.paused {
                Err::<(), RemittanceErrors>(RemittanceErrors::ContractPaused)
            } else {
                Ok::<(), RemittanceErrors>(())
            }),
    {
        if self.paused {
            Err(RemittanceErrors::ContractPaused)
        } else {
            Ok(())
        }
    }

    /// Fails with `NotRegistered` unless the caller has an account.
    pub(crate) fn only_registered(&self, caller: AccountId) -> (r: Result<(), RemittanceErrors>)
        requires
            self.wf(),
        ensures
            r == (if self@.registered(caller) {
                Ok::<(), RemittanceErrors>(())
            } else {
                Err::<(), RemittanceErrors>(RemittanceErrors::NotRegistered)
            }),
    {
        if self.users.contains(&caller) {
            Ok(())
        } else {
            Err(RemittanceErrors::NotRegistered)
        }
    }

    /// Fails with `Unauthorized` unless the caller is the owner.
    pub(crate) fn only_owner(&self, caller: AccountId) -> (r: Result<(), RemittanceErrors>)
        ensures
            r == (if caller == self@.owner {
                Ok::<(), RemittanceErrors>(())
            } else {
                Err::<(), RemittanceErrors>(RemittanceErrors::Unauthorized)
            }),
    {
        if caller.key_eq(&self.owner) {
            Ok(())
        } else {
            Err(RemittanceErrors::Unauthorized)
        }
    }
}

} // verus!
