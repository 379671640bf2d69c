use stellar_lend::activity::ActivityEntry;
use stellar_lend::contract::LendingContract;
use stellar_lend::types::{Asset, AssetParams, ProtocolError};

const USER: u64 = 1;
const USER2: u64 = 2;
const TOKEN: u64 = 100;
const TOKEN2: u64 = 101;

fn create_test_env() -> LendingContract {
    LendingContract::new()
}

fn set_asset_params(c: &mut LendingContract, token: u64, deposit_enabled: bool, collateral_factor: i128, max_deposit: i128) {
    c.asset_params.insert(token, AssetParams { deposit_enabled, collateral_factor, max_deposit });
}

#[test]
fn test_deposit_collateral_success_native() {
    let mut c = create_test_env();
    let amount = 500;
    let result = c.deposit_collateral(USER, Asset::Native, amount, 0, true).unwrap();
    assert_eq!(result, amount);

    assert_eq!(c.get_user_collateral(USER), amount);

    let position = c.get_position(USER).unwrap();
    assert_eq!(position.collateral, amount);
    assert_eq!(position.debt, 0);

    let analytics = c.get_user_analytics(USER).unwrap();
    assert_eq!(analytics.total_deposits, amount);
    assert_eq!(analytics.collateral_value, amount);
    assert_eq!(analytics.transaction_count, 1);

    let protocol_analytics = c.get_protocol_analytics();
    assert_eq!(protocol_analytics.total_deposits, amount);
    assert_eq!(protocol_analytics.total_value_locked, amount);
}

#[test]
fn test_deposit_collateral_zero_amount() {
    let mut c = create_test_env();
    let r = c.deposit_collateral(USER, Asset::Token(TOKEN), 0, 0, true);
    assert_eq!(r, Err(ProtocolError::InvalidAmount));
}

#[test]
fn test_deposit_collateral_negative_amount() {
    let mut c = create_test_env();
    let r = c.deposit_collateral(USER, Asset::Token(TOKEN), -100, 0, true);
    assert_eq!(r, Err(ProtocolError::InvalidAmount));
}

#[test]
fn test_deposit_collateral_insufficient_balance() {
    let mut c = create_test_env();
    set_asset_params(&mut c, TOKEN, true, 7500, 0);
    // The user holds 100 tokens, so moving 500 in fails.
    let r = c.deposit_collateral(USER, Asset::Token(TOKEN), 500, 0, false);
    assert_eq!(r, Err(ProtocolError::InsufficientBalance));
    assert_eq!(c.get_position(USER), None);
}

#[test]
fn test_deposit_collateral_asset_not_enabled() {
    let mut c = create_test_env();
    set_asset_params(&mut c, TOKEN, false, 7500, 0);
    let r = c.deposit_collateral(USER, Asset::Token(TOKEN), 500, 0, false);
    assert_eq!(r, Err(ProtocolError::AssetNotEnabled));
}

#[test]
fn test_deposit_collateral_exceeds_max_deposit() {
    let mut c = create_test_env();
    set_asset_params(&mut c, TOKEN, true, 7500, 300);
    let r = c.deposit_collateral(USER, Asset::Token(TOKEN), 500, 0, false);
    assert_eq!(r, Err(ProtocolError::InvalidAmount));
}

#[test]
fn test_deposit_collateral_multiple_deposits() {
    let mut c = create_test_env();
    let amount1 = 500;
    let result1 = c.deposit_collateral(USER, Asset::Native, amount1, 0, true).unwrap();
    assert_eq!(result1, amount1);

    let amount2 = 300;
    let result2 = c.deposit_collateral(USER, Asset::Native, amount2, 0, true).unwrap();
    assert_eq!(result2, amount1 + amount2);

    assert_eq!(c.get_user_collateral(USER), amount1 + amount2);

    let analytics = c.get_user_analytics(USER).unwrap();
    assert_eq!(analytics.total_deposits, amount1 + amount2);
    assert_eq!(analytics.transaction_count, 2);
}

#[test]
fn test_deposit_collateral_multiple_assets() {
    let mut c = create_test_env();
    set_asset_params(&mut c, TOKEN, true, 10_000, 0);
    set_asset_params(&mut c, TOKEN2, true, 10_000, 0);

    let amount1 = 500;
    let result1 = c.deposit_collateral(USER, Asset::Native, amount1, 0, true).unwrap();
    assert_eq!(result1, amount1);

    let amount2 = 300;
    let result2 = c.deposit_collateral(USER, Asset::Native, amount2, 0, true).unwrap();
    assert_eq!(result2, amount1 + amount2);

    assert_eq!(c.get_user_collateral(USER), amount1 + amount2);
}

#[test]
fn test_deposit_collateral_events_emitted() {
    let mut c = create_test_env();
    let amount = 500;
    c.deposit_collateral(USER, Asset::Native, amount, 0, true).unwrap();
    assert_eq!(c.get_user_collateral(USER), amount, "Deposit should succeed and update balance");
}

#[test]
fn test_deposit_collateral_collateral_ratio_calculation() {
    let mut c = create_test_env();
    let amount = 1000;
    c.deposit_collateral(USER, Asset::Native, amount, 0, true).unwrap();

    let position = c.get_position(USER).unwrap();
    assert_eq!(position.collateral, amount);
    assert_eq!(position.debt, 0);

    let analytics = c.get_user_analytics(USER).unwrap();
    assert_eq!(analytics.collateral_value, amount);
    assert_eq!(analytics.debt_value, 0);
}

#[test]
fn test_deposit_collateral_activity_log() {
    let mut c = create_test_env();
    c.deposit_collateral(USER, Asset::Native, 500, 0, true).unwrap();
    let log: &Vec<ActivityEntry> = &c.activity_log;
    assert!(!log.is_empty(), "Activity log should not be empty");
}

#[test]
fn test_deposit_collateral_pause_switch() {
    let mut c = create_test_env();
    set_asset_params(&mut c, TOKEN, true, 7500, 0);
    c.pauses.deposit = true;
    let r = c.deposit_collateral(USER, Asset::Token(TOKEN), 500, 0, true);
    assert_eq!(r, Err(ProtocolError::DepositPaused));
}

#[test]
fn test_deposit_collateral_overflow_protection() {
    let mut c = create_test_env();
    c.deposit_collateral(USER, Asset::Native, i128::MAX, 0, true).unwrap();
    let r = c.deposit_collateral(USER, Asset::Native, 1, 0, true);
    assert_eq!(r, Err(ProtocolError::Overflow));
    assert_eq!(c.get_user_collateral(USER), i128::MAX);
}

#[test]
fn test_deposit_collateral_native_xlm() {
    let mut c = create_test_env();
    let amount = 1000;
    let result = c.deposit_collateral(USER, Asset::Native, amount, 0, true).unwrap();
    assert_eq!(result, amount);
    assert_eq!(c.get_user_collateral(USER), amount);
}

#[test]
fn test_deposit_collateral_protocol_analytics_accumulation() {
    let mut c = create_test_env();
    let amount1 = 500;
    c.deposit_collateral(USER, Asset::Native, amount1, 0, true).unwrap();
    let amount2 = 300;
    c.deposit_collateral(USER2, Asset::Native, amount2, 0, true).unwrap();

    let protocol_analytics = c.get_protocol_analytics();
    assert_eq!(protocol_analytics.total_deposits, amount1 + amount2);
    assert_eq!(protocol_analytics.total_value_locked, amount1 + amount2);
}

#[test]
fn test_deposit_collateral_user_analytics_tracking() {
    let mut c = create_test_env();
    let amount1 = 500;
    c.deposit_collateral(USER, Asset::Native, amount1, 0, true).unwrap();

    let analytics1 = c.get_user_analytics(USER).unwrap();
    assert_eq!(analytics1.total_deposits, amount1);
    assert_eq!(analytics1.collateral_value, amount1);
    assert_eq!(analytics1.transaction_count, 1);
    assert_eq!(analytics1.first_interaction, analytics1.last_activity);

    let amount2 = 300;
    c.deposit_collateral(USER, Asset::Native, amount2, 0, true).unwrap();

    let analytics2 = c.get_user_analytics(USER).unwrap();
    assert_eq!(analytics2.total_deposits, amount1 + amount2);
    assert_eq!(analytics2.collateral_value, amount1 + amount2);
    assert_eq!(analytics2.transaction_count, 2);
    assert_eq!(analytics2.first_interaction, analytics1.first_interaction);
}
