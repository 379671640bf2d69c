use stellar_lend::activity::{push_entry, ActivityEntry, MAX_ACTIVITY_LOG_SIZE};
use stellar_lend::analytics::{
    activity_score, calculate_health_factor, calculate_user_risk_level, get_activity_by_type,
    AnalyticsError,
};
use stellar_lend::contract::LendingContract;
use stellar_lend::math::{
    accrue_interest, borrow_rate, collateral_ratio, max_total_debt, split_repayment,
};
use stellar_lend::risk::RiskConfig;
use stellar_lend::types::{ActivityKind, Asset, AssetParams, Position, ProtocolError};

const ADMIN: u64 = 900;
const USER: u64 = 1;
const USER2: u64 = 2;
const TOKEN: u64 = 100;

#[test]
fn deposit_adds_exactly_to_collateral_and_tvl() {
    let mut c = LendingContract::new();
    c.deposit_collateral(USER2, Asset::Native, 700, 0, true).unwrap();
    c.deposit_collateral(USER, Asset::Native, 250, 0, true).unwrap();
    let tvl_before = c.get_protocol_analytics().total_value_locked;
    let new_collateral = c.deposit_collateral(USER, Asset::Native, 125, 3, true).unwrap();
    assert_eq!(new_collateral, 375);
    assert_eq!(c.get_user_collateral(USER), 375);
    assert_eq!(c.get_protocol_analytics().total_value_locked, tvl_before + 125);
}

#[test]
fn collateral_ratio_values() {
    assert_eq!(collateral_ratio(1500, 0), Ok(i128::MAX));
    assert_eq!(collateral_ratio(0, 0), Ok(i128::MAX));
    assert_eq!(collateral_ratio(1500, 1000), Ok(15_000));
    assert_eq!(collateral_ratio(1000, 3000), Ok(3_333));
    assert_eq!(collateral_ratio(i128::MAX, 1), Err(ProtocolError::Overflow));
}

#[test]
fn collateral_ratio_falls_as_debt_grows() {
    let mut last = collateral_ratio(1000, 0).unwrap();
    for debt in 1..200 {
        let r = collateral_ratio(1000, debt).unwrap();
        assert!(r <= last);
        last = r;
    }
}

#[test]
fn liquidation_boundary_is_strict() {
    let config = RiskConfig::default_config();
    assert_eq!(config.liquidation_threshold, 10_500);
    assert_eq!(config.can_be_liquidated(1050, 1000), Ok(false));
    assert_eq!(config.can_be_liquidated(1049, 1000), Ok(true));
    assert_eq!(config.can_be_liquidated(1040, 1000), Ok(true));
    assert_eq!(config.can_be_liquidated(0, 0), Ok(false));
}

#[test]
fn repayment_pays_interest_first() {
    assert_eq!(split_repayment(200, 50, 500), (50, 150));
    assert_eq!(split_repayment(600, 50, 500), (50, 500));
    assert_eq!(split_repayment(30, 50, 500), (30, 0));
}

#[test]
fn governed_step_limit() {
    let mut c = LendingContract::new();
    c.initialize(ADMIN).unwrap();
    assert_eq!(
        c.set_risk_params(ADMIN, Some(15_000), None, None, None),
        Err(ProtocolError::ParameterChangeTooLarge)
    );
    assert_eq!(c.set_risk_params(ADMIN, Some(12_000), None, None, None), Ok(()));
    assert_eq!(c.get_min_collateral_ratio(), 12_000);
}

#[test]
fn step_of_exactly_a_tenth_is_accepted() {
    let mut c = LendingContract::new();
    c.initialize(ADMIN).unwrap();
    assert_eq!(c.set_risk_params(ADMIN, Some(12_100), None, None, None), Ok(()));
    let mut d = LendingContract::new();
    d.initialize(ADMIN).unwrap();
    assert_eq!(
        d.set_risk_params(ADMIN, Some(12_101), None, None, None),
        Err(ProtocolError::ParameterChangeTooLarge)
    );
}

#[test]
fn bound_violation_within_step_is_invalid_parameter() {
    let mut c = LendingContract::new();
    c.initialize(ADMIN).unwrap();
    // 9,900 is within a tenth of 11,000 but below the 100% floor.
    assert_eq!(
        c.set_risk_params(ADMIN, Some(9_900), None, None, None),
        Err(ProtocolError::InvalidParameter)
    );
    assert_eq!(c.get_min_collateral_ratio(), 11_000);
}

#[test]
fn equal_ratios_are_an_invalid_configuration() {
    let mut c = LendingContract::new();
    c.initialize(ADMIN).unwrap();
    assert_eq!(
        c.set_risk_params(ADMIN, Some(10_000), Some(10_000), Some(4_500), Some(900)),
        Err(ProtocolError::InvalidConfiguration)
    );
}

#[test]
fn lowest_steps_near_the_floor() {
    let mut c = LendingContract::new();
    c.initialize(ADMIN).unwrap();
    c.set_risk_params(ADMIN, Some(10_100), Some(10_000), Some(4_500), Some(900)).unwrap();
    assert_eq!(c.get_min_collateral_ratio(), 10_100);
    assert_eq!(c.get_liquidation_threshold(), 10_000);
    assert_eq!(c.get_close_factor(), 4_500);
    assert_eq!(c.get_liquidation_incentive(), 900);
}

#[test]
fn governance_needs_an_admin() {
    let mut c = LendingContract::new();
    assert_eq!(c.set_risk_params(ADMIN, Some(12_000), None, None, None), Err(ProtocolError::Unauthorized));
    c.initialize(ADMIN).unwrap();
    assert_eq!(c.initialize(USER), Err(ProtocolError::Unauthorized));
    assert_eq!(
        c.set_asset_params(USER, TOKEN, AssetParams { deposit_enabled: true, collateral_factor: 5000, max_deposit: 0 }),
        Err(ProtocolError::Unauthorized)
    );
    assert_eq!(
        c.set_asset_params(ADMIN, TOKEN, AssetParams { deposit_enabled: true, collateral_factor: 10_001, max_deposit: 0 }),
        Err(ProtocolError::InvalidParameter)
    );
}

#[test]
fn later_switch_entry_wins() {
    let mut c = LendingContract::new();
    c.initialize(ADMIN).unwrap();
    let switches = vec![
        (stellar_lend::types::Operation::Repay, true),
        (stellar_lend::types::Operation::Repay, false),
    ];
    c.set_pause_switches(ADMIN, &switches).unwrap();
    assert!(!c.is_operation_paused(stellar_lend::types::Operation::Repay));
}

#[test]
fn pages_partition_the_log() {
    let mut c = LendingContract::new();
    for i in 1..=10 {
        c.deposit_collateral(USER, Asset::Native, i * 100, i as u64, true).unwrap();
    }
    let first = c.get_recent_activity(5, 0);
    let second = c.get_recent_activity(5, 5);
    let amounts1: Vec<i128> = first.iter().map(|e| e.amount).collect();
    let amounts2: Vec<i128> = second.iter().map(|e| e.amount).collect();
    assert_eq!(amounts1, vec![1000, 900, 800, 700, 600]);
    assert_eq!(amounts2, vec![500, 400, 300, 200, 100]);
    let mut joined = first.clone();
    joined.extend(second.iter().cloned());
    assert_eq!(joined, c.get_recent_activity(10, 0));
    assert!(c.get_recent_activity(5, 10).is_empty());
    assert!(c.get_recent_activity(5, 11).is_empty());
}

#[test]
fn user_feed_skips_the_newest_entries() {
    let mut c = LendingContract::new();
    c.deposit_collateral(USER, Asset::Native, 100, 1, true).unwrap();
    c.deposit_collateral(USER2, Asset::Native, 200, 2, true).unwrap();
    c.deposit_collateral(USER, Asset::Native, 300, 3, true).unwrap();
    c.deposit_collateral(USER, Asset::Native, 400, 4, true).unwrap();
    let newest = c.get_user_activity(USER, 1, 0);
    assert_eq!(newest.len(), 1);
    assert_eq!(newest[0].amount, 400);
    let next: Vec<i128> = c.get_user_activity(USER, 5, 1).iter().map(|e| e.amount).collect();
    assert_eq!(next, vec![300, 100]);
    assert!(c.get_user_activity(USER, 5, 3).is_empty());
}

#[test]
fn activity_by_type_stops_at_limit() {
    let mut c = LendingContract::new();
    c.deposit_collateral(USER, Asset::Native, 3000, 0, true).unwrap();
    c.borrow_asset(USER, Asset::Native, 100, 0).unwrap();
    c.deposit_collateral(USER, Asset::Native, 10, 0, true).unwrap();
    c.borrow_asset(USER, Asset::Native, 200, 0).unwrap();
    c.borrow_asset(USER, Asset::Native, 300, 0).unwrap();
    let borrows: Vec<i128> = get_activity_by_type(&c, ActivityKind::Borrow, 2)
        .unwrap()
        .iter()
        .map(|e| e.amount)
        .collect();
    assert_eq!(borrows, vec![300, 200]);
    let deposits = get_activity_by_type(&c, ActivityKind::Deposit, 10).unwrap();
    assert_eq!(deposits.len(), 2);
    assert_eq!(deposits[0].amount, 10);
}

#[test]
fn log_evicts_the_oldest_entry_at_capacity() {
    let mut log: Vec<ActivityEntry> = Vec::new();
    for i in 0..(MAX_ACTIVITY_LOG_SIZE as i128 + 1) {
        let e = ActivityEntry {
            user: USER,
            activity_type: ActivityKind::Deposit,
            amount: i,
            asset: Asset::Native,
            timestamp: 0,
        };
        push_entry(&mut log, e);
    }
    assert_eq!(log.len(), MAX_ACTIVITY_LOG_SIZE);
    assert_eq!(log[0].amount, 1);
    assert_eq!(log[MAX_ACTIVITY_LOG_SIZE - 1].amount, MAX_ACTIVITY_LOG_SIZE as i128);
}

#[test]
fn borrow_capacity_formula() {
    assert_eq!(max_total_debt(1500, 10_000, 15_000), Ok(1000));
    assert_eq!(max_total_debt(2000, 7500, 15_000), Ok(1000));
    assert_eq!(max_total_debt(1000, 10_000, 15_000), Ok(666));
    assert_eq!(max_total_debt(i128::MAX, 10_000, 15_000), Err(ProtocolError::Overflow));
}

#[test]
fn borrow_capacity_edge() {
    let mut c = LendingContract::new();
    c.deposit_collateral(USER, Asset::Native, 1500, 0, true).unwrap();
    assert_eq!(c.borrow_asset(USER, Asset::Native, 1001, 0), Err(ProtocolError::MaxBorrowExceeded));
    assert_eq!(c.borrow_asset(USER, Asset::Native, 1000, 0), Ok(1000));
}

#[test]
fn token_collateral_factor_limits_borrowing() {
    let mut c = LendingContract::new();
    c.initialize(ADMIN).unwrap();
    c.set_risk_params(ADMIN, Some(12_100), None, None, None).unwrap();
    c.set_asset_params(ADMIN, TOKEN, AssetParams { deposit_enabled: true, collateral_factor: 7500, max_deposit: 0 })
        .unwrap();
    c.deposit_collateral(USER, Asset::Token(TOKEN), 2420, 0, true).unwrap();
    // 2420 * 7500 / 10000 = 1815; 1815 * 10000 / 12100 = 1500.
    assert_eq!(c.borrow_asset(USER, Asset::Token(TOKEN), 1501, 0), Err(ProtocolError::MaxBorrowExceeded));
    assert_eq!(c.borrow_asset(USER, Asset::Token(TOKEN), 1500, 0), Ok(1500));
}

#[test]
fn initialised_ratio_governs_borrowing() {
    let mut c = LendingContract::new();
    c.initialize(ADMIN).unwrap();
    c.deposit_collateral(USER, Asset::Native, 1100, 0, true).unwrap();
    // 1100 * 10000 / 11000 = 1000.
    assert_eq!(c.borrow_asset(USER, Asset::Native, 1000, 0), Ok(1000));
}

#[test]
fn protocol_report_is_served_from_cache() {
    let mut c = LendingContract::new();
    c.deposit_collateral(USER, Asset::Native, 1000, 5, true).unwrap();
    let first = c.get_protocol_report(10).unwrap();
    let second = c.get_protocol_report(20).unwrap();
    assert_eq!(first.metrics, second.metrics);
    assert_eq!(first.metrics.last_update, 10);
    assert_eq!(second.timestamp, 20);

    c.deposit_collateral(USER, Asset::Native, 500, 30, true).unwrap();
    let third = c.get_protocol_report(40).unwrap();
    assert_eq!(third.metrics.total_value_locked, 1500);
    assert_eq!(third.metrics.last_update, 40);
    assert_eq!(third.metrics.total_transactions, 2);
    assert_eq!(third.metrics.total_users, 1);
}

#[test]
fn utilization_and_average_rate() {
    let mut c = LendingContract::new();
    c.deposit_collateral(USER, Asset::Native, 2000, 0, true).unwrap();
    c.borrow_asset(USER, Asset::Native, 1000, 0).unwrap();
    let report = c.get_protocol_report(0).unwrap();
    assert_eq!(report.metrics.utilization_rate, 5000);
    assert_eq!(report.metrics.average_borrow_rate, 205);
    assert_eq!(borrow_rate(5000), 205);
    assert_eq!(borrow_rate(0), 200);
}

#[test]
fn interest_accrues_linearly_over_a_year() {
    let p = Position { collateral: 2000, debt: 1000, accrued_interest: 0, last_accrual_time: 0 };
    let q = accrue_interest(p, 205, 31_536_000).unwrap();
    assert_eq!(q.accrued_interest, 20);
    assert_eq!(q.last_accrual_time, 31_536_000);
    let half = accrue_interest(p, 200, 15_768_000).unwrap();
    assert_eq!(half.accrued_interest, 10);
}

#[test]
fn borrowing_accrues_interest_first() {
    let mut c = LendingContract::new();
    c.deposit_collateral(USER, Asset::Native, 2000, 0, true).unwrap();
    c.borrow_asset(USER, Asset::Native, 1000, 0).unwrap();
    // Utilisation 5000 bps gives 205 bps a year: 20 on 1000.
    let total = c.borrow_asset(USER, Asset::Native, 100, 31_536_000).unwrap();
    let p = c.get_position(USER).unwrap();
    assert_eq!(p.accrued_interest, 20);
    assert_eq!(p.debt, 1100);
    assert_eq!(total, 1120);
}

#[test]
fn risk_levels_and_activity_score() {
    assert_eq!(calculate_user_risk_level(15_000), 1);
    assert_eq!(calculate_user_risk_level(14_999), 2);
    assert_eq!(calculate_user_risk_level(12_000), 2);
    assert_eq!(calculate_user_risk_level(11_000), 3);
    assert_eq!(calculate_user_risk_level(10_500), 4);
    assert_eq!(calculate_user_risk_level(10_499), 5);
    assert_eq!(activity_score(2, 1500), 201);
    assert_eq!(activity_score(0, i128::MAX), i128::MAX / 1000);
}

#[test]
fn health_factor_cases() {
    let mut c = LendingContract::new();
    assert_eq!(calculate_health_factor(&c, USER), Err(AnalyticsError::DataNotFound));
    c.put_position(USER, Position { collateral: 1500, debt: 1000, accrued_interest: 0, last_accrual_time: 0 });
    assert_eq!(calculate_health_factor(&c, USER), Ok(15_000));
    c.put_position(USER2, Position { collateral: i128::MAX, debt: 1, accrued_interest: 0, last_accrual_time: 0 });
    assert_eq!(calculate_health_factor(&c, USER2), Err(AnalyticsError::Overflow));
}

#[test]
fn user_report_needs_data() {
    let c = LendingContract::new();
    assert_eq!(c.get_user_report(USER, 0), Err(AnalyticsError::DataNotFound));
}

#[test]
fn emergency_pause_stops_every_transaction() {
    let mut c = LendingContract::new();
    c.initialize(ADMIN).unwrap();
    c.deposit_collateral(USER, Asset::Native, 1000, 0, true).unwrap();
    c.borrow_asset(USER, Asset::Native, 100, 0).unwrap();
    c.set_emergency_pause(ADMIN, true).unwrap();
    assert_eq!(c.deposit_collateral(USER, Asset::Native, 1, 0, true), Err(ProtocolError::EmergencyPaused));
    assert_eq!(c.withdraw_collateral(USER, Asset::Native, 1, 0, true), Err(ProtocolError::EmergencyPaused));
    assert_eq!(c.borrow_asset(USER, Asset::Native, 1, 0), Err(ProtocolError::EmergencyPaused));
    assert_eq!(c.repay_debt(USER, Asset::Native, 1, 0), Err(ProtocolError::EmergencyPaused));
}

#[test]
fn failed_payout_rejects_withdrawal() {
    let mut c = LendingContract::new();
    c.deposit_collateral(USER, Asset::Native, 1000, 0, true).unwrap();
    assert_eq!(c.withdraw_collateral(USER, Asset::Native, 100, 0, false), Err(ProtocolError::InsufficientBalance));
    assert_eq!(c.get_user_collateral(USER), 1000);
}

#[test]
fn repay_moves_protocol_borrows() {
    let mut c = LendingContract::new();
    c.deposit_collateral(USER, Asset::Native, 2000, 0, true).unwrap();
    c.borrow_asset(USER, Asset::Native, 1000, 0).unwrap();
    c.repay_debt(USER, Asset::Native, 400, 0).unwrap();
    assert_eq!(c.get_protocol_analytics().total_borrows, 600);
    c.withdraw_collateral(USER, Asset::Native, 500, 0, true).unwrap();
    assert_eq!(c.get_protocol_analytics().total_value_locked, 1500);
    assert_eq!(c.get_protocol_analytics().total_deposits, 2000);
}
