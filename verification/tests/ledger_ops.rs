use chainge_contract::ledger::{Deposit, InitializeVault, Ledger, UpdateSettings, Withdraw};
use chainge_contract::vault::{ChaingeError, Pubkey, Strategy};

fn key(n: u64) -> Pubkey {
    Pubkey { w0: 0, w1: 0, w2: 0, w3: n }
}

fn init_req(owner: Pubkey, round_up_amount: u64, strategy: Strategy) -> InitializeVault {
    InitializeVault { owner, round_up_amount, strategy }
}

fn deposit_req(owner: Pubkey, amount: u64) -> Deposit {
    Deposit { owner, caller: owner, amount }
}

fn withdraw_req(owner: Pubkey, amount: u64) -> Withdraw {
    Withdraw { owner, caller: owner, amount }
}

fn settings_req(
    owner: Pubkey,
    round_up_amount: Option<u64>,
    strategy: Option<Strategy>,
    is_active: Option<bool>,
) -> UpdateSettings {
    UpdateSettings { owner, caller: owner, round_up_amount, strategy, is_active }
}

#[test]
fn scenario_initialize_creates_active_vault() {
    let o = key(1);
    let mut l = Ledger::new();
    assert!(l.initialize_vault(init_req(o, 10, Strategy::Dca), 1_000).is_ok());
    let v = l.get_vault(o).unwrap();
    assert_eq!(v.total_deposited, 0);
    assert_eq!(v.deposit_count, 0);
    assert!(v.is_active);
    assert_eq!(v.strategy, Strategy::Dca);
    assert_eq!(v.round_up_amount, 10);
    assert_eq!(v.created_at, 1_000);
    assert_eq!(v.last_deposit_at, 0);
}

#[test]
fn initialize_twice_always_fails_the_second_time() {
    let o = key(2);
    let mut l = Ledger::new();
    assert!(l.initialize_vault(init_req(o, 10, Strategy::Dca), 1_000).is_ok());
    let after_first = l.get_vault(o).unwrap();
    assert_eq!(
        l.initialize_vault(init_req(o, 99, Strategy::LpYield), 2_000),
        Err(ChaingeError::AlreadyInitialized)
    );
    assert_eq!(l.get_vault(o).unwrap(), after_first);
    assert_eq!(
        l.initialize_vault(init_req(o, 10, Strategy::Dca), 1_000),
        Err(ChaingeError::AlreadyInitialized)
    );
    assert_eq!(l.get_vault(o).unwrap(), after_first);
}

#[test]
fn scenario_zero_deposit_changes_nothing() {
    let o = key(3);
    let mut l = Ledger::new();
    l.initialize_vault(init_req(o, 0, Strategy::Dca), 1_000).unwrap();
    let before = l.get_vault(o).unwrap();
    assert_eq!(l.deposit(deposit_req(o, 0), 1_000, 1_100), Err(ChaingeError::ZeroAmount));
    assert_eq!(l.get_vault(o).unwrap(), before);
}

#[test]
fn scenario_accepted_deposit_updates_everything() {
    let o = key(4);
    let mut l = Ledger::new();
    l.initialize_vault(init_req(o, 0, Strategy::Dca), 1_000).unwrap();
    let ev = l.deposit(deposit_req(o, 500), 500, 1_100).unwrap();
    let v = l.get_vault(o).unwrap();
    assert_eq!(v.custodial_balance, 500);
    assert_eq!(v.total_deposited, 500);
    assert_eq!(v.deposit_count, 1);
    assert_eq!(v.last_deposit_at, 1_100);
    assert_eq!(ev.owner, o);
    assert_eq!(ev.amount, 500);
    assert_eq!(ev.total_deposited, 500);
    assert_eq!(ev.deposit_count, 1);
    assert_eq!(ev.timestamp, 1_100);
}

#[test]
fn scenario_deactivation_blocks_deposit_but_not_withdraw() {
    let o = key(5);
    let mut l = Ledger::new();
    l.initialize_vault(init_req(o, 0, Strategy::Dca), 1_000).unwrap();
    l.deposit(deposit_req(o, 100), 100, 1_100).unwrap();
    l.update_settings(settings_req(o, None, None, Some(false))).unwrap();
    assert!(!l.get_vault(o).unwrap().is_active);
    assert_eq!(l.deposit(deposit_req(o, 100), 100, 1_200), Err(ChaingeError::VaultInactive));
    let ev = l.withdraw(withdraw_req(o, 100), 1_300).unwrap();
    assert_eq!(ev.total_withdrawn, 100);
    assert_eq!(l.get_vault(o).unwrap().custodial_balance, 0);
}

#[test]
fn scenario_overdraw_changes_nothing() {
    let o = key(6);
    let mut l = Ledger::new();
    l.initialize_vault(init_req(o, 0, Strategy::Dca), 1_000).unwrap();
    l.deposit(deposit_req(o, 300), 300, 1_100).unwrap();
    let before = l.get_vault(o).unwrap();
    assert_eq!(l.withdraw(withdraw_req(o, 301), 1_200), Err(ChaingeError::InsufficientFunds));
    let after = l.get_vault(o).unwrap();
    assert_eq!(after, before);
    assert_eq!(after.custodial_balance, 300);
    assert_eq!(after.total_withdrawn, 0);
}

#[test]
fn deposit_without_spendable_balance_changes_nothing() {
    let o = key(7);
    let mut l = Ledger::new();
    l.initialize_vault(init_req(o, 0, Strategy::Dca), 1_000).unwrap();
    let before = l.get_vault(o).unwrap();
    assert_eq!(l.deposit(deposit_req(o, 500), 499, 1_100), Err(ChaingeError::TransferFailed));
    assert_eq!(l.get_vault(o).unwrap(), before);
}

#[test]
fn every_operation_rejects_a_caller_other_than_the_owner() {
    let o = key(8);
    let stranger = key(9);
    let mut l = Ledger::new();
    l.initialize_vault(init_req(o, 0, Strategy::Dca), 1_000).unwrap();
    l.deposit(deposit_req(o, 100), 100, 1_100).unwrap();
    let before = l.get_vault(o).unwrap();
    assert_eq!(
        l.deposit(Deposit { owner: o, caller: stranger, amount: 50 }, 1_000, 1_200),
        Err(ChaingeError::Unauthorized)
    );
    assert_eq!(
        l.withdraw(Withdraw { owner: o, caller: stranger, amount: 50 }, 1_200),
        Err(ChaingeError::Unauthorized)
    );
    assert_eq!(
        l.update_settings(UpdateSettings {
            owner: o,
            caller: stranger,
            round_up_amount: Some(1),
            strategy: Some(Strategy::LpYield),
            is_active: Some(false),
        }),
        Err(ChaingeError::Unauthorized)
    );
    assert_eq!(l.get_vault(o).unwrap(), before);
}

#[test]
fn operations_against_a_missing_record_are_unauthorized() {
    let o = key(10);
    let mut l = Ledger::new();
    assert_eq!(l.deposit(deposit_req(o, 50), 1_000, 1_100), Err(ChaingeError::Unauthorized));
    assert_eq!(l.withdraw(withdraw_req(o, 50), 1_100), Err(ChaingeError::Unauthorized));
    assert_eq!(
        l.update_settings(settings_req(o, Some(1), None, None)),
        Err(ChaingeError::Unauthorized)
    );
    assert_eq!(l.fund_custodial(o, 50), Err(ChaingeError::TransferFailed));
    assert!(l.get_vault(o).is_none());
}

#[test]
fn counters_never_decrease_across_a_session() {
    let o = key(11);
    let mut l = Ledger::new();
    l.initialize_vault(init_req(o, 0, Strategy::Dca), 1_000).unwrap();
    let mut watermark = (0u64, 0u64, 0u64);
    let mut check = |l: &Ledger| {
        let v = l.get_vault(o).unwrap();
        assert!(v.total_deposited >= watermark.0);
        assert!(v.total_withdrawn >= watermark.1);
        assert!(v.deposit_count >= watermark.2);
        watermark = (v.total_deposited, v.total_withdrawn, v.deposit_count);
    };
    l.deposit(deposit_req(o, 100), 100, 1_100).unwrap();
    check(&l);
    l.deposit(deposit_req(o, 1), 1, 1_200).unwrap();
    check(&l);
    let _ = l.withdraw(withdraw_req(o, 40), 1_300).unwrap();
    check(&l);
    let _ = l.deposit(deposit_req(o, 0), 50, 1_400);
    check(&l);
    let _ = l.withdraw(withdraw_req(o, 10_000), 1_500);
    check(&l);
    l.update_settings(settings_req(o, Some(7), None, Some(false))).unwrap();
    check(&l);
    let _ = l.withdraw(withdraw_req(o, 61), 1_600).unwrap();
    check(&l);
    assert_eq!(watermark, (101, 101, 2));
}

#[test]
fn external_funding_lets_withdrawn_exceed_deposited() {
    // Accepted non-invariant: the custodial address can be funded outside
    // the deposit path, so total_withdrawn is not bounded by
    // total_deposited.
    let o = key(12);
    let mut l = Ledger::new();
    l.initialize_vault(init_req(o, 0, Strategy::Dca), 1_000).unwrap();
    l.fund_custodial(o, 100).unwrap();
    let ev = l.withdraw(withdraw_req(o, 100), 1_100).unwrap();
    assert_eq!(ev.total_withdrawn, 100);
    let v = l.get_vault(o).unwrap();
    assert_eq!(v.total_withdrawn, 100);
    assert_eq!(v.total_deposited, 0);
    assert!(v.total_withdrawn > v.total_deposited);
}

#[test]
fn owners_are_fully_independent() {
    let a = key(13);
    let b = key(14);
    let mut l = Ledger::new();
    l.initialize_vault(init_req(a, 1, Strategy::Dca), 1_000).unwrap();
    l.initialize_vault(init_req(b, 2, Strategy::LpYield), 1_001).unwrap();
    let b_before = l.get_vault(b).unwrap();
    l.deposit(deposit_req(a, 500), 500, 1_100).unwrap();
    l.update_settings(settings_req(a, None, None, Some(false))).unwrap();
    assert_eq!(l.get_vault(b).unwrap(), b_before);
    let a_record = l.get_vault(a).unwrap();
    assert_eq!(a_record.total_deposited, 500);
    assert!(!a_record.is_active);
    assert!(b_before.is_active);
    assert_eq!(b_before.total_deposited, 0);
}
