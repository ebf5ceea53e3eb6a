use remittance_protocol::AccountId;
use remittance_protocol::RemittanceErrors;
use remittance_protocol::UniversalRemittance;
use remittance_protocol::token::TokenService;

/// An in-memory token registry standing in for the external token service,
/// with a switch that makes every transfer fail.
struct MockTokenService {
    engine: AccountId,
    balances: Vec<((AccountId, AccountId), u64)>,
    allowances: Vec<((AccountId, AccountId), u64)>,
    fail_all: bool,
}

impl MockTokenService {
    fn new(engine: AccountId) -> MockTokenService {
        MockTokenService { engine, balances: Vec::new(), allowances: Vec::new(), fail_all: false }
    }

    fn balance_of(&self, token: AccountId, acct: AccountId) -> u64 {
        for ((t, a), v) in self.balances.iter() {
            if *t == token && *a == acct {
                return *v;
            }
        }
        0
    }

    fn set_balance(&mut self, token: AccountId, acct: AccountId, v: u64) {
        for ((t, a), b) in self.balances.iter_mut() {
            if *t == token && *a == acct {
                *b = v;
                return;
            }
        }
        self.balances.push(((token, acct), v));
    }

    fn mint(&mut self, token: AccountId, to: AccountId, amount: u64) {
        let b = self.balance_of(token, to);
        self.set_balance(token, to, b + amount);
    }

    fn allowance(&self, token: AccountId, owner: AccountId) -> u64 {
        for ((t, o), v) in self.allowances.iter() {
            if *t == token && *o == owner {
                return *v;
            }
        }
        0
    }

    fn approve(&mut self, token: AccountId, owner: AccountId, amount: u64) {
        for ((t, o), v) in self.allowances.iter_mut() {
            if *t == token && *o == owner {
                *v = amount;
                return;
            }
        }
        self.allowances.push(((token, owner), amount));
    }

    fn do_transfer(&mut self, token: AccountId, from: AccountId, to: AccountId, amount: u64) -> bool {
        let fb = self.balance_of(token, from);
        if fb < amount {
            return false;
        }
        self.set_balance(token, from, fb - amount);
        let tb = self.balance_of(token, to);
        self.set_balance(token, to, tb + amount);
        true
    }
}

impl TokenService for MockTokenService {
    fn transfer(&mut self, token: AccountId, to: AccountId, amount: u64) -> bool {
        if self.fail_all {
            return false;
        }
        let engine = self.engine;
        self.do_transfer(token, engine, to, amount)
    }

    fn transfer_from(&mut self, token: AccountId, from: AccountId, to: AccountId, amount: u64) -> bool {
        if self.fail_all {
            return false;
        }
        let allow = self.allowance(token, from);
        if allow < amount {
            return false;
        }
        if !self.do_transfer(token, from, to, amount) {
            return false;
        }
        self.approve(token, from, allow - amount);
        true
    }
}

fn addr(hi: u32, lo: u128) -> AccountId {
    AccountId::new(hi, lo)
}

fn owner_addr() -> AccountId {
    addr(0x10000000, 0x00000000000000000000000000000001)
}

fn treasury_addr() -> AccountId {
    addr(0x20000000, 0x00000000000000000000000000000002)
}

fn engine_addr() -> AccountId {
    addr(0x70000000, 0x00000000000000000000000000000007)
}

fn alice() -> AccountId {
    addr(0xA11CE000, 0)
}

fn bob() -> AccountId {
    addr(0xB0B00000, 0)
}

fn token_t() -> AccountId {
    addr(0x70CE0000, 0)
}

/// A ledger with Alice and Bob registered, one supported token, and Alice
/// holding `deposit` of it internally (seeded and pulled via the mock).
fn funded_setup(deposit: u64) -> (UniversalRemittance, MockTokenService) {
    let mut c = UniversalRemittance::constructor(owner_addr(), engine_addr(), treasury_addr());
    let mut svc = MockTokenService::new(engine_addr());
    c.register_user(alice(), 1_000_000, "Alice".into(), "NG".into(), "0803".into()).unwrap();
    c.register_user(bob(), 1_000_000, "Bob".into(), "GH".into(), "000".into()).unwrap();
    c.add_supported_token(owner_addr(), token_t()).unwrap();
    if deposit > 0 {
        svc.mint(token_t(), alice(), deposit);
        svc.approve(token_t(), alice(), deposit);
        c.deposit_balance(&mut svc, alice(), token_t(), deposit).unwrap();
    }
    (c, svc)
}

#[test]
fn scenario_auto_payment_timeline() {
    // Register A, deposit 1000 of a supported token, add beneficiary B with
    // amount 50 and frequency 1 (day), execute at t = 1000.
    let (mut c, mut svc) = funded_setup(1000);
    c.add_beneficiary(alice(), bob(), "Bob".into(), "friend".into(), 50, token_t(), 1).unwrap();

    c.execute_auto_payments(&mut svc, alice(), 0, 1000).unwrap();

    let (_, _, _, _, _, _, last_payment, _, total_sent) = c.get_beneficiary(alice(), 0).unwrap();
    assert_eq!(last_payment, 1000);
    assert_eq!(total_sent, 50);
    assert_eq!(c.get_user_balance(alice(), token_t()), 950);

    // Immediate re-execution fails the frequency gate.
    let err = c.execute_auto_payments(&mut svc, alice(), 0, 1000).unwrap_err();
    assert!(matches!(err, RemittanceErrors::FrequencyNotMet));

    // After two days it succeeds again.
    c.execute_auto_payments(&mut svc, alice(), 0, 1000 + 172_800).unwrap();
    assert_eq!(c.get_user_balance(alice(), token_t()), 900);
}

#[test]
fn scenario_fee_breakdown_on_payment() {
    // Fee rate 50 bps: a 10000 payment splits into net 9950 and fee 50,
    // while the sender's lifetime total grows by the gross amount.
    let (mut c, mut svc) = funded_setup(0);
    svc.mint(token_t(), alice(), 10_000);
    svc.approve(token_t(), alice(), 10_000);

    c.send_payment(&mut svc, alice(), 2_000_000, bob(), 10_000, token_t(), "Invoice".into())
        .unwrap();

    assert_eq!(svc.balance_of(token_t(), bob()), 9_950);
    assert_eq!(svc.balance_of(token_t(), treasury_addr()), 50);
    let (_, _, _, _, alice_sent, _, _) = c.get_user_profile(alice());
    assert_eq!(alice_sent, 10_000);
    let (_, _, _, _, _, bob_received, _) = c.get_user_profile(bob());
    assert_eq!(bob_received, 9_950);
}

#[test]
fn fee_values_exact() {
    let (mut c, _svc) = funded_setup(0);
    assert_eq!(c.compute_fee(10_000), 50);
    assert_eq!(c.compute_fee(9_999), 49); // floors, never rounds up
    assert_eq!(c.compute_fee(100), 0);
    assert_eq!(c.compute_fee(0), 0);
    c.update_platform_fee(owner_addr(), 100).unwrap();
    assert_eq!(c.compute_fee(10_000), 100);
    c.update_platform_fee(owner_addr(), 0).unwrap();
    assert_eq!(c.compute_fee(u64::MAX), 0);
}

#[test]
fn payment_ids_monotonic() {
    let (mut c, mut svc) = funded_setup(0);
    svc.mint(token_t(), alice(), 300);
    svc.approve(token_t(), alice(), 300);

    c.send_payment(&mut svc, alice(), 2_000_000, bob(), 100, token_t(), "one".into()).unwrap();
    c.send_payment(&mut svc, alice(), 2_000_001, bob(), 200, token_t(), "two".into()).unwrap();

    let (count, _, _, _, _) = c.get_contract_stats();
    assert_eq!(count, 2);
    let (_, _, amount0, _, _, _, note0, _) = c.get_payment(0).unwrap();
    assert_eq!(amount0, 100);
    assert_eq!(note0, "one");
    let (_, _, amount1, _, _, _, note1, _) = c.get_payment(1).unwrap();
    assert_eq!(amount1, 200);
    assert_eq!(note1, "two");
    // the one-past-the-end identifier is invalid
    let err = c.get_payment(2).unwrap_err();
    assert!(matches!(err, RemittanceErrors::InvalidConfiguration));
}

#[test]
fn execution_count_increments_per_success() {
    let (mut c, mut svc) = funded_setup(1000);
    c.add_beneficiary(alice(), bob(), "Bob".into(), "friend".into(), 10, token_t(), 1).unwrap();

    let (_, exec0, _, _, _) = c.get_contract_stats();
    assert_eq!(exec0, 0);
    c.execute_auto_payments(&mut svc, alice(), 0, 5000).unwrap();
    let (_, exec1, _, _, _) = c.get_contract_stats();
    assert_eq!(exec1, 1);
    // a gated attempt does not advance the counter
    let _ = c.execute_auto_payments(&mut svc, alice(), 0, 5000).unwrap_err();
    let (_, exec2, _, _, _) = c.get_contract_stats();
    assert_eq!(exec2, 1);
}

#[test]
fn remove_twice_fails() {
    let (mut c, _svc) = funded_setup(0);
    c.add_beneficiary(alice(), bob(), "Bob".into(), "friend".into(), 10, token_t(), 0).unwrap();

    c.remove_beneficiary(alice(), 0).unwrap();
    let err = c.remove_beneficiary(alice(), 0).unwrap_err();
    assert!(matches!(err, RemittanceErrors::BeneficiaryNotFound));
    // lookups and updates after removal fail the same way
    let err = c.get_beneficiary(alice(), 0).unwrap_err();
    assert!(matches!(err, RemittanceErrors::BeneficiaryNotFound));
    let err = c.update_beneficiary(alice(), 0, 20, 1).unwrap_err();
    assert!(matches!(err, RemittanceErrors::BeneficiaryNotFound));
    // a removed beneficiary is not found even before its new frequency is
    // looked at: an invalid frequency does not change the error
    let err = c.update_beneficiary(alice(), 0, 20, 3).unwrap_err();
    assert!(matches!(err, RemittanceErrors::BeneficiaryNotFound));
}

#[test]
fn daily_limit_enforced_and_resets() {
    let (mut c, mut svc) = funded_setup(0);
    svc.mint(token_t(), alice(), 1_000);
    svc.approve(token_t(), alice(), 1_000);
    c.set_daily_limit(owner_addr(), alice(), 100).unwrap();
    assert_eq!(c.get_daily_limit(alice()), 100);

    let day0: u64 = 90 * 86_400;
    c.send_payment(&mut svc, alice(), day0, bob(), 60, token_t(), "a".into()).unwrap();
    assert_eq!(c.get_daily_spent(alice(), day0), 60);

    // 60 + 50 > 100: over the cap, and the check precedes any pull
    let err = c.send_payment(&mut svc, alice(), day0 + 10, bob(), 50, token_t(), "b".into())
        .unwrap_err();
    assert!(matches!(err, RemittanceErrors::ExceedsLimit));
    assert_eq!(c.get_daily_spent(alice(), day0), 60);

    // the next day the accumulator starts at zero
    let day1 = day0 + 86_400;
    assert_eq!(c.get_daily_spent(alice(), day1), 0);
    c.send_payment(&mut svc, alice(), day1, bob(), 50, token_t(), "c".into()).unwrap();
    assert_eq!(c.get_daily_spent(alice(), day1), 50);
}

#[test]
fn withdraw_debit_kept_on_failed_push() {
    // The debit precedes the outbound transfer and is not compensated when
    // that transfer fails.
    let (mut c, mut svc) = funded_setup(500);
    svc.fail_all = true;
    let err = c.withdraw_balance(&mut svc, alice(), token_t(), 200).unwrap_err();
    assert!(matches!(err, RemittanceErrors::TransferFailed));
    assert_eq!(c.get_user_balance(alice(), token_t()), 300);
}

#[test]
fn send_payment_unwinds_nothing_before_transfers() {
    // A failed pull leaves every internal record untouched.
    let (mut c, mut svc) = funded_setup(0);
    svc.fail_all = true;
    let err = c.send_payment(&mut svc, alice(), 2_000_000, bob(), 100, token_t(), "x".into())
        .unwrap_err();
    assert!(matches!(err, RemittanceErrors::TransferFailed));
    let (count, _, _, _, _) = c.get_contract_stats();
    assert_eq!(count, 0);
    let (_, _, _, _, alice_sent, _, _) = c.get_user_profile(alice());
    assert_eq!(alice_sent, 0);
}

#[test]
fn token_toggle_keeps_balances() {
    let (mut c, mut svc) = funded_setup(400);
    c.remove_supported_token(owner_addr(), token_t()).unwrap();
    assert!(!c.is_token_supported(token_t()));
    // no new deposits in it, but the balance is still there
    let err = c.deposit_balance(&mut svc, alice(), token_t(), 10).unwrap_err();
    assert!(matches!(err, RemittanceErrors::NotSupportedToken));
    assert_eq!(c.get_user_balance(alice(), token_t()), 400);
    c.add_supported_token(owner_addr(), token_t()).unwrap();
    assert!(c.is_token_supported(token_t()));
}

#[test]
fn guard_errors_for_bad_inputs() {
    let (mut c, mut svc) = funded_setup(0);
    let stranger = addr(0x57000000, 0);

    // a zero deposit is rejected before the token check
    let err = c.deposit_balance(&mut svc, alice(), token_t(), 0).unwrap_err();
    assert!(matches!(err, RemittanceErrors::InvalidAmount));

    // unregistered callers are turned away
    let err = c.deposit_balance(&mut svc, stranger, token_t(), 10).unwrap_err();
    assert!(matches!(err, RemittanceErrors::NotRegistered));

    // a frequency outside {0, 1, 7, 30, 365} is invalid
    let err = c
        .add_beneficiary(alice(), bob(), "Bob".into(), "friend".into(), 10, token_t(), 3)
        .unwrap_err();
    assert!(matches!(err, RemittanceErrors::InvalidFrequency));

    // withdrawing an unsupported token or a zero amount is a configuration error
    let err = c.withdraw_balance(&mut svc, alice(), addr(0x99990000, 0), 10).unwrap_err();
    assert!(matches!(err, RemittanceErrors::InvalidConfiguration));

    // a manual beneficiary (frequency 0) is never auto-executed
    c.add_beneficiary(alice(), bob(), "Bob".into(), "friend".into(), 10, token_t(), 0).unwrap();
    let err = c.execute_auto_payments(&mut svc, alice(), 0, 5000).unwrap_err();
    assert!(matches!(err, RemittanceErrors::InvalidConfiguration));

    // updating an active beneficiary re-validates the frequency
    let err = c.update_beneficiary(alice(), 0, 10, 3).unwrap_err();
    assert!(matches!(err, RemittanceErrors::InvalidFrequency));

    // the zero identity cannot become the treasury
    let err = c.update_treasury(owner_addr(), AccountId::zero()).unwrap_err();
    assert!(matches!(err, RemittanceErrors::InvalidConfiguration));
    c.update_treasury(owner_addr(), addr(0x33330000, 3)).unwrap();
    let (_, _, _, _, tre) = c.get_contract_stats();
    assert_eq!(tre, addr(0x33330000, 3));
}

#[test]
fn pending_filters_due_active_funded() {
    let (mut c, mut svc) = funded_setup(100);
    let now: u64 = 50 * 86_400;
    // index 0: manual, never pending
    c.add_beneficiary(alice(), bob(), "Bob".into(), "friend".into(), 10, token_t(), 0).unwrap();
    // index 1: due and funded
    c.add_beneficiary(alice(), bob(), "Bob".into(), "friend".into(), 10, token_t(), 1).unwrap();
    // index 2: funded but removed
    c.add_beneficiary(alice(), bob(), "Bob".into(), "friend".into(), 10, token_t(), 1).unwrap();
    c.remove_beneficiary(alice(), 2).unwrap();
    // index 3: amount above the internal balance
    c.add_beneficiary(alice(), bob(), "Bob".into(), "friend".into(), 500, token_t(), 1).unwrap();

    let pending = c.get_pending_auto_payments(alice(), now);
    assert_eq!(pending, vec![1]);

    // once executed, index 1 is no longer due until its interval elapses
    c.execute_auto_payments(&mut svc, alice(), 1, now).unwrap();
    let pending = c.get_pending_auto_payments(alice(), now + 10);
    assert!(pending.is_empty());
    let est = c.estimate_next_payment_time(alice(), 1, now + 10).unwrap();
    assert_eq!(est, now + 86_400);
    // a manual beneficiary has no scheduled time
    let est0 = c.estimate_next_payment_time(alice(), 0, now + 10).unwrap();
    assert_eq!(est0, 0);
}

#[test]
fn batch_reports_each_entry() {
    let (mut c, mut svc) = funded_setup(100);
    c.add_beneficiary(alice(), bob(), "Bob".into(), "friend".into(), 30, token_t(), 1).unwrap();

    // entry 1 succeeds; entry 2 repeats it and fails the frequency gate;
    // entry 3 is out of range; the batch never aborts
    let res = c
        .batch_execute_auto_payments(
            &mut svc,
            vec![(alice(), 0), (alice(), 0), (alice(), 9)],
            7 * 86_400,
        )
        .unwrap();
    assert_eq!(res, vec![true, false, false]);
    assert_eq!(c.get_user_balance(alice(), token_t()), 70);

    // under pause the batch itself is rejected
    c.pause(owner_addr()).unwrap();
    let err = c.batch_execute_auto_payments(&mut svc, vec![(alice(), 0)], 8 * 86_400).unwrap_err();
    assert!(matches!(err, RemittanceErrors::ContractPaused));
}
