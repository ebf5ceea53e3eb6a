use remittance_protocol::AccountId;
use remittance_protocol::RemittanceErrors;
use remittance_protocol::UniversalRemittance;
use remittance_protocol::token::TokenService;

/// An in-memory token registry standing in for the external token service:
/// per-token balances and allowances, with transfers that fail on shortfall.
struct MockTokenService {
    engine: AccountId,
    balances: Vec<((AccountId, AccountId), u64)>,
    allowances: Vec<((AccountId, AccountId), u64)>,
    fail_all: bool,
}

impl MockTokenService {
    fn new(engine: AccountId) -> MockTokenService {
        MockTokenService { engine, balances: Vec::new(), allowances: Vec::new(), fail_all: false }
    }

    fn balance_of(&self, token: AccountId, acct: AccountId) -> u64 {
        for ((t, a), v) in self.balances.iter() {
            if *t == token && *a == acct {
                return *v;
            }
        }
        0
    }

    fn set_balance(&mut self, token: AccountId, acct: AccountId, v: u64) {
        for ((t, a), b) in self.balances.iter_mut() {
            if *t == token && *a == acct {
                *b = v;
                return;
            }
        }
        self.balances.push(((token, acct), v));
    }

    fn mint(&mut self, token: AccountId, to: AccountId, amount: u64) {
        let b = self.balance_of(token, to);
        self.set_balance(token, to, b + amount);
    }

    fn allowance(&self, token: AccountId, owner: AccountId) -> u64 {
        for ((t, o), v) in self.allowances.iter() {
            if *t == token && *o == owner {
                return *v;
            }
        }
        0
    }

    /// Approves the engine to pull `amount` of `token` from `owner`.
    fn approve(&mut self, token: AccountId, owner: AccountId, amount: u64) {
        for ((t, o), v) in self.allowances.iter_mut() {
            if *t == token && *o == owner {
                *v = amount;
                return;
            }
        }
        self.allowances.push(((token, owner), amount));
    }

    fn do_transfer(&mut self, token: AccountId, from: AccountId, to: AccountId, amount: u64) -> bool {
        let fb = self.balance_of(token, from);
        if fb < amount {
            return false;
        }
        self.set_balance(token, from, fb - amount);
        let tb = self.balance_of(token, to);
        self.set_balance(token, to, tb + amount);
        true
    }
}

impl TokenService for MockTokenService {
    fn transfer(&mut self, token: AccountId, to: AccountId, amount: u64) -> bool {
        if self.fail_all {
            return false;
        }
        let engine = self.engine;
        self.do_transfer(token, engine, to, amount)
    }

    fn transfer_from(&mut self, token: AccountId, from: AccountId, to: AccountId, amount: u64) -> bool {
        if self.fail_all {
            return false;
        }
        let allow = self.allowance(token, from);
        if allow < amount {
            return false;
        }
        if !self.do_transfer(token, from, to, amount) {
            return false;
        }
        self.approve(token, from, allow - amount);
        true
    }
}

fn addr(hi: u32, lo: u128) -> AccountId {
    AccountId::new(hi, lo)
}

fn owner_addr() -> AccountId {
    addr(0x10000000, 0x00000000000000000000000000000001)
}

fn treasury_addr() -> AccountId {
    addr(0x20000000, 0x00000000000000000000000000000002)
}

fn engine_addr() -> AccountId {
    addr(0x70000000, 0x00000000000000000000000000000007)
}

fn alice() -> AccountId {
    addr(0xA11CE000, 0)
}

fn bob() -> AccountId {
    addr(0xB0B00000, 0)
}

fn setup() -> (UniversalRemittance, MockTokenService) {
    let c = UniversalRemittance::constructor(owner_addr(), engine_addr(), treasury_addr());
    let svc = MockTokenService::new(engine_addr());
    (c, svc)
}

#[test]
fn constructor_and_defaults() {
    let (c, _svc) = setup();

    let (payment_count, exec_count, fee_bps, paused, tre) = c.get_contract_stats();
    assert_eq!(payment_count, 0);
    assert_eq!(exec_count, 0);
    assert_eq!(fee_bps, 50); // 0.5%
    assert!(!paused);
    assert_eq!(tre, treasury_addr());

    // supported tokens from the constructor should be present
    let usdc = addr(0xaf88d065, 0xe77c8cC2239327C5EDb3A432268e5831);
    let usdt = addr(0xFd086bC7, 0xCD5C481DCC9C85ebE478A1C0b69FCbb9);
    assert!(c.is_token_supported(usdc));
    assert!(c.is_token_supported(usdt));
}

#[test]
fn user_registration_and_double_register() {
    let (mut c, _svc) = setup();

    c.register_user(alice(), 1_600_000_000, "Alice".into(), "NG".into(), "08030001111".into())
        .unwrap();

    let (name, country, phone, is_active, total_sent, total_rec, reg_time) =
        c.get_user_profile(alice());
    assert_eq!(name, "Alice");
    assert_eq!(country, "NG");
    assert_eq!(phone, "08030001111");
    assert!(is_active);
    assert_eq!(total_sent, 0);
    assert_eq!(total_rec, 0);
    assert!(reg_time > 0);

    // registering again -> UserAlreadyRegistered
    let err = c
        .register_user(alice(), 1_600_000_000, "Alice".into(), "NG".into(), "08030001111".into())
        .unwrap_err();
    match err {
        RemittanceErrors::UserAlreadyRegistered => {}
        _ => panic!("expected UserAlreadyRegistered"),
    }
}

#[test]
fn deposit_withdraw_flow_and_insufficient_balance() {
    let (mut c, mut svc) = setup();
    let token = addr(0xAAA00000, 0);

    c.register_user(alice(), 1_600_000_000, "Alice".into(), "NG".into(), "0803".into()).unwrap();

    // Before support: token not supported.
    let err = c.deposit_balance(&mut svc, alice(), token, 100).unwrap_err();
    match err {
        RemittanceErrors::NotSupportedToken => {}
        _ => panic!("expected NotSupportedToken"),
    }

    c.add_supported_token(owner_addr(), token).unwrap();

    // Still fails: no balance or allowance seeded, so the pull reports false.
    let err = c.deposit_balance(&mut svc, alice(), token, 100).unwrap_err();
    match err {
        RemittanceErrors::TransferFailed => {}
        _ => panic!("expected TransferFailed, got {:?}", err),
    }

    // Seed the mock token balance and approve the engine.
    svc.mint(token, alice(), 1_000);
    svc.approve(token, alice(), 1_000);

    c.deposit_balance(&mut svc, alice(), token, 500).unwrap();
    assert_eq!(c.get_user_balance(alice(), token), 500);

    let err = c.withdraw_balance(&mut svc, alice(), token, 600).unwrap_err();
    match err {
        RemittanceErrors::InsufficientBalance => {}
        _ => panic!("expected InsufficientBalance"),
    }

    c.withdraw_balance(&mut svc, alice(), token, 200).unwrap();
    assert_eq!(c.get_user_balance(alice(), token), 300);
}

#[test]
fn manual_payment_happy_and_fee_flow() {
    let (mut c, mut svc) = setup();
    let token = addr(0xBBB00000, 0);

    c.register_user(alice(), 1_600_000_000, "Alice".into(), "NG".into(), "0803".into()).unwrap();
    c.register_user(bob(), 1_600_000_000, "Bob".into(), "US".into(), "000".into()).unwrap();

    c.add_supported_token(owner_addr(), token).unwrap();

    svc.mint(token, alice(), 1_000);
    svc.approve(token, alice(), 1_000);
    assert_eq!(svc.balance_of(token, alice()), 1_000);

    c.send_payment(&mut svc, alice(), 1_650_000_000, bob(), 100, token, "Rent".into()).unwrap();

    // Payment record at id 0
    let (sender, recipient, amount, tok, _ts, payment_type, note, completed) =
        c.get_payment(0).unwrap();
    assert_eq!(sender, alice());
    assert_eq!(recipient, bob());
    assert_eq!(amount, 100);
    assert_eq!(tok, token);
    assert_eq!(payment_type, 0); // manual
    assert_eq!(note, "Rent");
    assert!(completed);

    // A larger payment moves a visible fee: 10000 * 50 / 10000 = 50.
    svc.mint(token, alice(), 10_000);
    svc.approve(token, alice(), 10_000);
    c.send_payment(&mut svc, alice(), 1_650_000_000, bob(), 10_000, token, "Invoice".into())
        .unwrap();

    // First payment net = 100 - fee(0) = 100; second net = 10000 - 50 = 9950.
    let bob_balance = svc.balance_of(token, bob());
    assert!(bob_balance >= 100);
    let treasury_balance = svc.balance_of(token, treasury_addr());
    assert!(treasury_balance >= 50);
}

#[test]
fn beneficiary_add_update_remove_and_get_pending_estimate() {
    let (mut c, mut svc) = setup();
    let token = addr(0xCCC00000, 0);
    let now: u64 = 1_700_000_000;

    c.register_user(alice(), 1_600_000_000, "Alice".into(), "NG".into(), "0803".into()).unwrap();
    c.register_user(bob(), 1_600_000_000, "Bob".into(), "GH".into(), "000".into()).unwrap();

    c.add_supported_token(owner_addr(), token).unwrap();

    c.add_beneficiary(alice(), bob(), "Bob".into(), "friend".into(), 200, token, 7).unwrap();

    let (b_addr, name, rel, amount, tok, freq, last_payment, active, total_sent) =
        c.get_beneficiary(alice(), 0).unwrap();
    assert_eq!(b_addr, bob());
    assert_eq!(name, "Bob");
    assert_eq!(rel, "friend");
    assert_eq!(amount, 200);
    assert_eq!(tok, token);
    assert_eq!(freq, 7);
    assert_eq!(last_payment, 0);
    assert!(active);
    assert_eq!(total_sent, 0);

    c.update_beneficiary(alice(), 0, 300, 30).unwrap();
    let (_, _, _, amount2, _, freq2, _, _, _) = c.get_beneficiary(alice(), 0).unwrap();
    assert_eq!(amount2, 300);
    assert_eq!(freq2, 30);

    // Nothing pending: no internal balance yet.
    let pending = c.get_pending_auto_payments(alice(), now);
    assert!(pending.is_empty());

    svc.mint(token, alice(), 1_000);
    svc.approve(token, alice(), 1_000);
    c.deposit_balance(&mut svc, alice(), token, 1_000).unwrap();

    // Now index 0 is pending: never executed and funded.
    let pending2 = c.get_pending_auto_payments(alice(), now);
    assert_eq!(pending2.len(), 1);
    assert_eq!(pending2[0], 0);

    // Never executed, so the next execution time is now.
    let est = c.estimate_next_payment_time(alice(), 0, now).unwrap();
    assert!(est > 0 || est == now);

    c.remove_beneficiary(alice(), 0).unwrap();
    let err = c.get_beneficiary(alice(), 0).unwrap_err();
    match err {
        RemittanceErrors::BeneficiaryNotFound => {}
        _ => panic!("expected BeneficiaryNotFound"),
    }
}

#[test]
fn execute_auto_payment_and_frequency_lock() {
    let (mut c, mut svc) = setup();
    let token = addr(0xDDD00000, 0);

    c.register_user(alice(), 100, "Alice".into(), "NG".into(), "0803".into()).unwrap();
    c.register_user(bob(), 100, "Bob".into(), "GH".into(), "000".into()).unwrap();

    c.add_supported_token(owner_addr(), token).unwrap();

    // daily frequency (1)
    c.add_beneficiary(alice(), bob(), "Bob".into(), "friend".into(), 50, token, 1).unwrap();

    svc.mint(token, alice(), 1_000);
    svc.approve(token, alice(), 1_000);
    c.deposit_balance(&mut svc, alice(), token, 1_000).unwrap();

    c.execute_auto_payments(&mut svc, alice(), 0, 1000).unwrap();

    let (_, _, _, _, _, _, last_payment, _, total_sent) = c.get_beneficiary(alice(), 0).unwrap();
    assert_eq!(last_payment, 1000);
    assert_eq!(total_sent, 50);

    // immediately again -> FrequencyNotMet
    let err = c.execute_auto_payments(&mut svc, alice(), 0, 1000).unwrap_err();
    match err {
        RemittanceErrors::FrequencyNotMet => {}
        _ => panic!("expected FrequencyNotMet"),
    }

    // two days later it succeeds again
    c.execute_auto_payments(&mut svc, alice(), 0, 1000 + 2 * 86400).unwrap();
}

#[test]
fn batch_execute_auto_payments_returns_results() {
    let (mut c, mut svc) = setup();
    let token = addr(0xEEE00000, 0);
    let charlie = addr(0xC0C00000, 0);

    c.register_user(alice(), 100, "Alice".into(), "NG".into(), "0803".into()).unwrap();
    c.register_user(bob(), 100, "Bob".into(), "GH".into(), "000".into()).unwrap();
    c.register_user(charlie, 100, "Charlie".into(), "KE".into(), "000".into()).unwrap();

    c.add_supported_token(owner_addr(), token).unwrap();

    c.add_beneficiary(alice(), bob(), "Bob".into(), "friend".into(), 10, token, 1).unwrap();
    c.add_beneficiary(bob(), charlie, "Charlie".into(), "friend".into(), 20, token, 1).unwrap();

    svc.mint(token, alice(), 100);
    svc.approve(token, alice(), 100);
    svc.mint(token, bob(), 100);
    svc.approve(token, bob(), 100);

    c.deposit_balance(&mut svc, alice(), token, 100).unwrap();
    c.deposit_balance(&mut svc, bob(), token, 100).unwrap();

    // anyone may run the batch; only the pause switch gates it
    let res = c
        .batch_execute_auto_payments(&mut svc, vec![(alice(), 0), (bob(), 0)], 1000)
        .unwrap();
    assert_eq!(res.len(), 2);
    assert!(res[0]);
    assert!(res[1]);
}

#[test]
fn admin_only_and_pause_emergency_withdraw() {
    let (mut c, mut svc) = setup();
    let not_owner = addr(0xDEAD0000, 0);

    let err = c.pause(not_owner).unwrap_err();
    match err {
        RemittanceErrors::Unauthorized => {}
        _ => panic!("expected Unauthorized"),
    }

    // the owner can pause and unpause
    c.pause(owner_addr()).unwrap();
    let (_, _, _, paused, _) = c.get_contract_stats();
    assert!(paused);
    c.unpause(owner_addr()).unwrap();
    let (_, _, _, paused2, _) = c.get_contract_stats();
    assert!(!paused2);

    // fee updates: valid and invalid
    c.update_platform_fee(owner_addr(), 80).unwrap();
    let err = c.update_platform_fee(owner_addr(), 200).unwrap_err(); // > 100 bps not allowed
    match err {
        RemittanceErrors::InvalidConfiguration => {}
        _ => panic!("expected InvalidConfiguration"),
    }

    // emergency withdraw from the engine's own holdings
    let token = addr(0xFFF00000, 0);
    svc.mint(token, engine_addr(), 1_000);

    let err = c.emergency_withdraw(&mut svc, not_owner, token, 100).unwrap_err();
    match err {
        RemittanceErrors::Unauthorized => {}
        _ => panic!("expected Unauthorized"),
    }

    c.emergency_withdraw(&mut svc, owner_addr(), token, 100).unwrap();
    assert_eq!(svc.balance_of(token, owner_addr()), 100);
}

#[test]
fn pause_blocks_mutations() {
    let (mut c, _svc) = setup();

    // when unpaused, registering works
    c.register_user(alice(), 100, "Alice".into(), "NG".into(), "0803".into()).unwrap();

    c.pause(owner_addr()).unwrap();

    // a registration attempt under pause fails with ContractPaused
    let other = addr(0x11110000, 0);
    let err = c.register_user(other, 100, "Joe".into(), "NG".into(), "000".into()).unwrap_err();
    match err {
        RemittanceErrors::ContractPaused => {}
        _ => panic!("expected ContractPaused"),
    }

    c.unpause(owner_addr()).unwrap();
    c.register_user(other, 100, "Joe".into(), "NG".into(), "000".into()).unwrap();
}
