//! Analytics aggregator: protocol and user metrics, reports and activity queries.

use vstd::prelude::*;
use vstd::arithmetic::div_mod::lemma_div_is_ordered_by_denominator;
use crate::activity::{
    newest_first, page, first_n, reversed, page_of, push_entry, recent_entries,
    select_newest_first, ActivityEntry, EntryFilter, pushed_spec,
};
use crate::contract::LendingContract;
use crate::math::{
    sat_add, sat_add_spec, floor_sub, floor_sub_spec, borrow_rate_spec, collateral_ratio,
    ratio_overflows, ratio_spec, BASIS_POINTS,
};
use crate::types::{AccountId, ActivityKind, Asset, Position};

verus! {

/// Failures of the analytics queries.
#[derive(Clone, Copy, Debug, PartialEq, Eq, Structural)]
pub enum AnalyticsError {
    NotInitialized,
    InvalidParameter,
    Overflow,
    DataNotFound,
}

/// Protocol-wide counters kept by the ledger.
#[derive(Clone, Copy, Debug, PartialEq, Eq, Structural)]
pub struct ProtocolAnalytics {
    /// Sum of all deposits ever made.
    pub total_deposits: i128,
    /// Principal currently lent out.
    pub total_borrows: i128,
    /// Collateral currently held.
    pub total_value_locked: i128,
}

impl ProtocolAnalytics {
    pub open spec fn valid(self) -> bool {
        &&& self.total_deposits >= 0
        &&& self.total_borrows >= 0
        &&& self.total_value_locked >= 0
    }

    pub fn zero() -> (r: ProtocolAnalytics)
        ensures
            r == (ProtocolAnalytics { total_deposits: 0, total_borrows: 0, total_value_locked: 0 }),
    {
        ProtocolAnalytics { total_deposits: 0, total_borrows: 0, total_value_locked: 0 }
    }
}

/// Cumulative per-user counters, updated after every transaction.
#[derive(Clone, Copy, Debug, PartialEq, Eq, Structural)]
pub struct UserAnalytics {
    pub total_deposits: i128,
    pub total_borrows: i128,
    pub total_withdrawals: i128,
    pub total_repayments: i128,
    pub collateral_value: i128,
    /// Principal plus accrued interest.
    pub debt_value: i128,
    pub collateralization_ratio: i128,
    pub activity_score: i128,
    pub transaction_count: u64,
    pub first_interaction: u64,
    pub last_activity: u64,
    pub risk_level: i128,
    /// Loyalty tier; no transaction changes it.
    pub loyalty_tier: i128,
}

impl UserAnalytics {
    pub open spec fn valid(self) -> bool {
        &&& self.total_deposits >= 0
        &&& self.total_borrows >= 0
        &&& self.total_withdrawals >= 0
        &&& self.total_repayments >= 0
    }

    pub open spec fn fresh_spec(now: u64) -> UserAnalytics {
        UserAnalytics {
            total_deposits: 0,
            total_borrows: 0,
            total_withdrawals: 0,
            total_repayments: 0,
            collateral_value: 0,
            debt_value: 0,
            collateralization_ratio: 0,
            activity_score: 0,
            transaction_count: 0,
            first_interaction: now,
            last_activity: now,
            risk_level: 0,
            loyalty_tier: 0,
        }
    }

    /// The counters of a user's first transaction, before it is counted.
    pub fn fresh(now: u64) -> (r: UserAnalytics)
        ensures
            r == UserAnalytics::fresh_spec(now),
            r.valid(),
    {
        UserAnalytics {
            total_deposits: 0,
            total_borrows: 0,
            total_withdrawals: 0,
            total_repayments: 0,
            collateral_value: 0,
            debt_value: 0,
            collateralization_ratio: 0,
            activity_score: 0,
            transaction_count: 0,
            first_interaction: now,
            last_activity: now,
            risk_level: 0,
            loyalty_tier: 0,
        }
    }
}

/// Snapshot of the protocol's metrics.
#[derive(Clone, Copy, Debug, PartialEq, Eq, Structural)]
pub struct ProtocolMetrics {
    pub total_value_locked: i128,
    pub total_deposits: i128,
    pub total_borrows: i128,
    pub utilization_rate: i128,
    pub average_borrow_rate: i128,
    pub total_users: u64,
    pub total_transactions: u64,
    pub last_update: u64,
}

/// A user's metrics, recomputed on demand.
#[derive(Clone, Copy, Debug, PartialEq, Eq, Structural)]
pub struct UserMetrics {
    pub collateral: i128,
    pub debt: i128,
    pub health_factor: i128,
    pub total_deposits: i128,
    pub total_borrows: i128,
    pub total_withdrawals: i128,
    pub total_repayments: i128,
    pub activity_score: i128,
    pub risk_level: i128,
    pub transaction_count: u64,
}

#[derive(Clone, Copy, Debug, PartialEq, Eq, Structural)]
pub struct ProtocolReport {
    pub metrics: ProtocolMetrics,
    pub timestamp: u64,
}

#[derive(Clone, Debug, PartialEq, Eq)]
pub struct UserReport {
    pub user: AccountId,
    pub metrics: UserMetrics,
    pub position: Position,
    pub recent_activities: Vec<ActivityEntry>,
    pub timestamp: u64,
}

/// How many entries a user report shows.
pub const USER_REPORT_ACTIVITY_LIMIT: u32 = 10;

/// Whether `total_borrows * 10000` overflows while deposits exist.
pub open spec fn utilization_overflows(pa: ProtocolAnalytics) -> bool {
    pa.total_deposits != 0 && pa.total_borrows * 10_000 > i128::MAX
}

/// Borrowed principal per deposited unit, in basis points; zero without deposits.
pub open spec fn utilization_spec(pa: ProtocolAnalytics) -> int {
    if pa.total_deposits == 0 { 0 } else { pa.total_borrows * 10_000 / (pa.total_deposits as int) }
}

/// Average borrow rate: zero while nothing is borrowed.
pub open spec fn avg_rate_spec(pa: ProtocolAnalytics) -> int {
    if pa.total_borrows == 0 { 0 } else { borrow_rate_spec(utilization_spec(pa)) }
}

/// Risk bucket of a health factor: 1 (safest) to 5.
pub open spec fn risk_level_spec(health_factor: int) -> int {
    if health_factor >= 15_000 {
        1
    } else if health_factor >= 12_000 {
        2
    } else if health_factor >= 11_000 {
        3
    } else if health_factor >= 10_500 {
        4
    } else {
        5
    }
}

/// `transaction_count * 100 + total_deposits / 1000`, saturating.
pub open spec fn activity_score_spec(transaction_count: u64, total_deposits: i128) -> int {
    sat_add_spec(transaction_count * 100, total_deposits as int / 1000)
}

/// Total value locked.
pub fn get_total_value_locked(pa: &ProtocolAnalytics) -> (r: Result<i128, AnalyticsError>)
    ensures
        r == Ok::<i128, AnalyticsError>(pa.total_value_locked),
{
    Ok(pa.total_value_locked)
}

/// Utilisation in basis points: `total_borrows * 10000 / total_deposits`,
/// zero without deposits.
pub fn get_protocol_utilization(pa: &ProtocolAnalytics) -> (r: Result<i128, AnalyticsError>)
    requires
        pa.valid(),
    ensures
        utilization_overflows(*pa) ==> r == Err::<i128, _>(AnalyticsError::Overflow),
        !utilization_overflows(*pa) ==> r == Ok::<i128, AnalyticsError>(utilization_spec(*pa) as i128),
        r matches Ok(u) ==> u >= 0,
{
    if pa.total_deposits == 0 {
        return Ok(0);
    }
    match pa.total_borrows.checked_mul(BASIS_POINTS) {
        None => Err(AnalyticsError::Overflow),
        Some(scaled) => {
            assert(scaled / pa.total_deposits <= scaled) by {
                lemma_div_is_ordered_by_denominator(scaled as int, 1, pa.total_deposits as int);
            }
            Ok(scaled / pa.total_deposits)
        },
    }
}

/// Average borrow rate in basis points: `200 + utilization * 10 / 10000`,
/// zero while nothing is borrowed.
pub fn calculate_weighted_avg_interest_rate(pa: &ProtocolAnalytics) -> (r: Result<i128, AnalyticsError>)
    requires
        pa.valid(),
    ensures
        pa.total_borrows != 0 && utilization_overflows(*pa) ==> r == Err::<i128, _>(
            AnalyticsError::Overflow,
        ),
        !(pa.total_borrows != 0 && utilization_overflows(*pa)) ==> r == Ok::<i128, AnalyticsError>(
            avg_rate_spec(*pa) as i128,
        ),
{
    if pa.total_borrows == 0 {
        return Ok(0);
    }
    let utilization = get_protocol_utilization(pa)?;
    Ok(crate::math::borrow_rate(utilization))
}

/// Risk bucket of a health factor: at least 150% is 1, 120% is 2, 110% is 3,
/// 105% is 4, anything lower is 5.
pub fn calculate_user_risk_level(health_factor: i128) -> (r: i128)
    ensures
        r == risk_level_spec(health_factor as int),
        1 <= r <= 5,
{
    if health_factor >= 15_000 {
        1
    } else if health_factor >= 12_000 {
        2
    } else if health_factor >= 11_000 {
        3
    } else if health_factor >= 10_500 {
        4
    } else {
        5
    }
}

/// `transaction_count * 100 + total_deposits / 1000`, saturating at `i128::MAX`.
pub fn activity_score(transaction_count: u64, total_deposits: i128) -> (r: i128)
    requires
        total_deposits >= 0,
    ensures
        r == activity_score_spec(transaction_count, total_deposits),
{
    let base = (transaction_count as i128) * 100;
    crate::math::sat_add(base, total_deposits / 1000)
}

/// `x + 1`, held at `u64::MAX`.
pub open spec fn sat_inc_spec(x: u64) -> u64 {
    if x == u64::MAX { u64::MAX } else { (x + 1) as u64 }
}

pub fn sat_inc(x: u64) -> (r: u64)
    ensures
        r == sat_inc_spec(x),
{
    if x == u64::MAX { u64::MAX } else { x + 1 }
}

/// Collateral ratio as analytics report it: `i128::MAX` where it is unbounded
/// or too large to represent.
pub open spec fn reported_ratio_spec(collateral: int, debt: int) -> int {
    if ratio_overflows(collateral, debt) { i128::MAX as int } else { ratio_spec(collateral, debt) }
}

pub fn reported_ratio(collateral: i128, debt: i128) -> (r: i128)
    requires
        collateral >= 0,
        debt >= 0,
    ensures
        r == reported_ratio_spec(collateral as int, debt as int),
{
    match collateral_ratio(collateral, debt) {
        Ok(v) => v,
        Err(_) => i128::MAX,
    }
}

/// A user's counters after a transaction of `kind` moving `amount` left the
/// position at `p`.
pub open spec fn user_analytics_after(
    prev: UserAnalytics,
    kind: ActivityKind,
    amount: i128,
    p: Position,
    now: u64,
) -> UserAnalytics {
    let debt_value = sat_add_spec(p.debt as int, p.accrued_interest as int);
    let ratio = reported_ratio_spec(p.collateral as int, debt_value);
    let count = sat_inc_spec(prev.transaction_count);
    let deposits = if kind == ActivityKind::Deposit {
        sat_add_spec(prev.total_deposits as int, amount as int) as i128
    } else {
        prev.total_deposits
    };
    UserAnalytics {
        total_deposits: deposits,
        total_borrows: if kind == ActivityKind::Borrow {
            sat_add_spec(prev.total_borrows as int, amount as int) as i128
        } else {
            prev.total_borrows
        },
        total_withdrawals: if kind == ActivityKind::Withdraw {
            sat_add_spec(prev.total_withdrawals as int, amount as int) as i128
        } else {
            prev.total_withdrawals
        },
        total_repayments: if kind == ActivityKind::Repay {
            sat_add_spec(prev.total_repayments as int, amount as int) as i128
        } else {
            prev.total_repayments
        },
        collateral_value: p.collateral,
        debt_value: debt_value as i128,
        collateralization_ratio: ratio as i128,
        activity_score: activity_score_spec(count, deposits) as i128,
        transaction_count: count,
        first_interaction: prev.first_interaction,
        last_activity: now,
        risk_level: risk_level_spec(ratio) as i128,
        loyalty_tier: prev.loyalty_tier,
    }
}

/// Updates a user's counters for one transaction.
pub fn record_user_transaction(
    prev: UserAnalytics,
    kind: ActivityKind,
    amount: i128,
    p: Position,
    now: u64,
) -> (r: UserAnalytics)
    requires
        prev.valid(),
        p.valid(),
        amount >= 0,
    ensures
        r == user_analytics_after(prev, kind, amount, p, now),
        r.valid(),
{
    let debt_value = sat_add(p.debt, p.accrued_interest);
    let ratio = reported_ratio(p.collateral, debt_value);
    let count = sat_inc(prev.transaction_count);
    let deposits = match kind {
        ActivityKind::Deposit => sat_add(prev.total_deposits, amount),
        _ => prev.total_deposits,
    };
    UserAnalytics {
        total_deposits: deposits,
        total_borrows: match kind {
            ActivityKind::Borrow => sat_add(prev.total_borrows, amount),
            _ => prev.total_borrows,
        },
        total_withdrawals: match kind {
            ActivityKind::Withdraw => sat_add(prev.total_withdrawals, amount),
            _ => prev.total_withdrawals,
        },
        total_repayments: match kind {
            ActivityKind::Repay => sat_add(prev.total_repayments, amount),
            _ => prev.total_repayments,
        },
        collateral_value: p.collateral,
        debt_value,
        collateralization_ratio: ratio,
        activity_score: activity_score(count, deposits),
        transaction_count: count,
        first_interaction: prev.first_interaction,
        last_activity: now,
        risk_level: calculate_user_risk_level(ratio),
        loyalty_tier: prev.loyalty_tier,
    }
}

/// Protocol counters after a transaction of `kind` moved `amount` into or out
/// of the pool (for a repayment: the principal repaid).
pub open spec fn protocol_after(pa: ProtocolAnalytics, kind: ActivityKind, amount: i128) -> ProtocolAnalytics {
    match kind {
        ActivityKind::Deposit => ProtocolAnalytics {
            total_deposits: sat_add_spec(pa.total_deposits as int, amount as int) as i128,
            total_value_locked: sat_add_spec(pa.total_value_locked as int, amount as int) as i128,
            ..pa
        },
        ActivityKind::Withdraw => ProtocolAnalytics {
            total_value_locked: floor_sub_spec(pa.total_value_locked as int, amount as int) as i128,
            ..pa
        },
        ActivityKind::Borrow => ProtocolAnalytics {
            total_borrows: sat_add_spec(pa.total_borrows as int, amount as int) as i128,
            ..pa
        },
        ActivityKind::Repay => ProtocolAnalytics {
            total_borrows: floor_sub_spec(pa.total_borrows as int, amount as int) as i128,
            ..pa
        },
    }
}

/// Updates the protocol counters for one transaction.
pub fn record_protocol_transaction(pa: ProtocolAnalytics, kind: ActivityKind, amount: i128) -> (r: ProtocolAnalytics)
    requires
        pa.valid(),
        amount >= 0,
    ensures
        r == protocol_after(pa, kind, amount),
        r.valid(),
{
    match kind {
        ActivityKind::Deposit => ProtocolAnalytics {
            total_deposits: sat_add(pa.total_deposits, amount),
            total_value_locked: sat_add(pa.total_value_locked, amount),
            ..pa
        },
        ActivityKind::Withdraw => ProtocolAnalytics {
            total_value_locked: floor_sub(pa.total_value_locked, amount),
            ..pa
        },
        ActivityKind::Borrow => ProtocolAnalytics {
            total_borrows: sat_add(pa.total_borrows, amount),
            ..pa
        },
        ActivityKind::Repay => ProtocolAnalytics {
            total_borrows: floor_sub(pa.total_borrows, amount),
            ..pa
        },
    }
}

/// Appends an entry stamped `now` to the activity log and counts the transaction.
pub fn record_activity(
    c: &mut LendingContract,
    user: AccountId,
    activity_type: ActivityKind,
    amount: i128,
    asset: Asset,
    now: u64,
) -> (r: Result<(), AnalyticsError>)
    requires
        old(c).wf(),
    ensures
        r == Ok::<(), AnalyticsError>(()),
        final(c).wf(),
        final(c).activity_log@ == pushed_spec(
            old(c).activity_log@,
            ActivityEntry { user, activity_type, amount, asset, timestamp: now },
        ),
        final(c).total_transactions == sat_inc_spec(old(c).total_transactions),
        final(c).same_except_log(*old(c)),
{
    let entry = ActivityEntry { user, activity_type, amount, asset, timestamp: now };
    push_entry(&mut c.activity_log, entry);
    c.total_transactions = sat_inc(c.total_transactions);
    Ok(())
}

/// Metrics computed afresh from the ledger's counters at time `now`.
pub open spec fn fresh_metrics_spec(c: LendingContract, now: u64) -> Result<ProtocolMetrics, AnalyticsError> {
    let pa = c.protocol_analytics;
    if utilization_overflows(pa) {
        Err(AnalyticsError::Overflow)
    } else {
        Ok(
            ProtocolMetrics {
                total_value_locked: pa.total_value_locked,
                total_deposits: pa.total_deposits,
                total_borrows: pa.total_borrows,
                utilization_rate: utilization_spec(pa) as i128,
                average_borrow_rate: avg_rate_spec(pa) as i128,
                total_users: c.total_users,
                total_transactions: c.total_transactions,
                last_update: now,
            },
        )
    }
}

/// The cached metrics if there are any, else fresh ones.
pub open spec fn stats_spec(c: LendingContract, now: u64) -> Result<ProtocolMetrics, AnalyticsError> {
    match c.metrics_cache {
        Some(m) => Ok(m),
        None => fresh_metrics_spec(c, now),
    }
}

/// Recomputes the protocol metrics and caches them.
pub fn update_protocol_metrics(c: &mut LendingContract, now: u64) -> (r: Result<ProtocolMetrics, AnalyticsError>)
    requires
        old(c).wf(),
    ensures
        final(c).wf(),
        r == fresh_metrics_spec(*old(c), now),
        r.is_err() ==> *final(c) == *old(c),
        r.is_ok() ==> final(c).metrics_cache == Some(r->Ok_0),
        final(c).same_except_cache(*old(c)),
{
    let tvl = get_total_value_locked(&c.protocol_analytics)?;
    let utilization = get_protocol_utilization(&c.protocol_analytics)?;
    let avg_rate = calculate_weighted_avg_interest_rate(&c.protocol_analytics)?;
    let pa = c.protocol_analytics;
    let metrics = ProtocolMetrics {
        total_value_locked: tvl,
        total_deposits: pa.total_deposits,
        total_borrows: pa.total_borrows,
        utilization_rate: utilization,
        average_borrow_rate: avg_rate,
        total_users: c.total_users,
        total_transactions: c.total_transactions,
        last_update: now,
    };
    c.metrics_cache = Some(metrics);
    Ok(metrics)
}

/// The cached protocol metrics, recomputing and caching them if the cache is empty.
pub fn get_protocol_stats(c: &mut LendingContract, now: u64) -> (r: Result<ProtocolMetrics, AnalyticsError>)
    requires
        old(c).wf(),
    ensures
        final(c).wf(),
        r == stats_spec(*old(c), now),
        r.is_err() ==> *final(c) == *old(c),
        r.is_ok() ==> final(c).metrics_cache == Some(r->Ok_0),
        final(c).same_except_cache(*old(c)),
{
    match c.metrics_cache {
        Some(m) => Ok(m),
        None => update_protocol_metrics(c, now),
    }
}

/// A report of the protocol metrics, served from the cache when it holds them.
pub fn generate_protocol_report(c: &mut LendingContract, now: u64) -> (r: Result<ProtocolReport, AnalyticsError>)
    requires
        old(c).wf(),
    ensures
        final(c).wf(),
        stats_spec(*old(c), now) is Err ==> r == Err::<ProtocolReport, _>(
            stats_spec(*old(c), now)->Err_0,
        ) && *final(c) == *old(c),
        stats_spec(*old(c), now) is Ok ==> r == Ok::<ProtocolReport, AnalyticsError>(
            ProtocolReport { metrics: stats_spec(*old(c), now)->Ok_0, timestamp: now },
        ) && final(c).metrics_cache == Some(stats_spec(*old(c), now)->Ok_0),
        final(c).same_except_cache(*old(c)),
{
    let metrics = get_protocol_stats(c, now)?;
    Ok(ProtocolReport { metrics, timestamp: now })
}

/// The stored position of `user`; `DataNotFound` if there is none.
pub fn get_user_position_summary(c: &LendingContract, user: AccountId) -> (r: Result<Position, AnalyticsError>)
    ensures
        r == if c.positions@.contains_key(user) {
            Ok::<Position, AnalyticsError>(c.positions@[user])
        } else {
            Err(AnalyticsError::DataNotFound)
        },
{
    match c.positions.get(&user) {
        Some(p) => Ok(*p),
        None => Err(AnalyticsError::DataNotFound),
    }
}

/// Health factor of a user's position: `collateral * 10000 / debt`, or
/// `i128::MAX` without debt.
pub open spec fn health_factor_spec(c: LendingContract, user: AccountId) -> Result<i128, AnalyticsError> {
    if !c.positions@.contains_key(user) {
        Err(AnalyticsError::DataNotFound)
    } else {
        let p = c.positions@[user];
        if ratio_overflows(p.collateral as int, p.debt as int) {
            Err(AnalyticsError::Overflow)
        } else {
            Ok(ratio_spec(p.collateral as int, p.debt as int) as i128)
        }
    }
}

/// Health factor of `user`'s stored position, over its principal.
pub fn calculate_health_factor(c: &LendingContract, user: AccountId) -> (r: Result<i128, AnalyticsError>)
    requires
        c.wf(),
    ensures
        r == health_factor_spec(*c, user),
{
    let p = get_user_position_summary(c, user)?;
    match collateral_ratio(p.collateral, p.debt) {
        Ok(v) => Ok(v),
        Err(_) => Err(AnalyticsError::Overflow),
    }
}

/// A user's metrics recomputed from the stored position and counters.
pub open spec fn user_metrics_spec(c: LendingContract, user: AccountId) -> Result<UserMetrics, AnalyticsError> {
    if !c.user_analytics@.contains_key(user) {
        Err(AnalyticsError::DataNotFound)
    } else {
        let ua = c.user_analytics@[user];
        let p = if c.positions@.contains_key(user) {
            c.positions@[user]
        } else {
            Position::empty_spec(0)
        };
        let hf = match health_factor_spec(c, user) {
            Ok(h) => h,
            Err(_) => i128::MAX,
        };
        Ok(
            UserMetrics {
                collateral: p.collateral,
                debt: p.debt,
                health_factor: hf,
                total_deposits: ua.total_deposits,
                total_borrows: ua.total_borrows,
                total_withdrawals: ua.total_withdrawals,
                total_repayments: ua.total_repayments,
                activity_score: activity_score_spec(ua.transaction_count, ua.total_deposits) as i128,
                risk_level: risk_level_spec(hf as int) as i128,
                transaction_count: ua.transaction_count,
            },
        )
    }
}

/// Recomputes a user's metrics; `DataNotFound` for a user with no counters.
pub fn get_user_activity_summary(c: &LendingContract, user: AccountId) -> (r: Result<UserMetrics, AnalyticsError>)
    requires
        c.wf(),
    ensures
        r == user_metrics_spec(*c, user),
{
    let ua = match c.user_analytics.get(&user) {
        Some(a) => *a,
        None => return Err(AnalyticsError::DataNotFound),
    };
    let p = match get_user_position_summary(c, user) {
        Ok(p) => p,
        Err(_) => Position::empty(0),
    };
    let health_factor = match calculate_health_factor(c, user) {
        Ok(h) => h,
        Err(_) => i128::MAX,
    };
    Ok(
        UserMetrics {
            collateral: p.collateral,
            debt: p.debt,
            health_factor,
            total_deposits: ua.total_deposits,
            total_borrows: ua.total_borrows,
            total_withdrawals: ua.total_withdrawals,
            total_repayments: ua.total_repayments,
            activity_score: activity_score(ua.transaction_count, ua.total_deposits),
            risk_level: calculate_user_risk_level(health_factor),
            transaction_count: ua.transaction_count,
        },
    )
}

/// Recomputes a user's metrics and stores the snapshot.
pub fn update_user_metrics(c: &mut LendingContract, user: AccountId) -> (r: Result<UserMetrics, AnalyticsError>)
    requires
        old(c).wf(),
    ensures
        final(c).wf(),
        r == user_metrics_spec(*old(c), user),
        r.is_err() ==> *final(c) == *old(c),
        r.is_ok() ==> final(c).user_metrics@ == old(c).user_metrics@.insert(user, r->Ok_0),
        final(c).positions@ == old(c).positions@,
        final(c).user_analytics@ == old(c).user_analytics@,
        final(c).protocol_analytics == old(c).protocol_analytics,
        final(c).activity_log@ == old(c).activity_log@,
        final(c).metrics_cache == old(c).metrics_cache,
{
    let metrics = get_user_activity_summary(c, user)?;
    c.user_metrics.insert(user, metrics);
    Ok(metrics)
}

/// Up to `limit` entries, newest first, after skipping the `offset` most recent.
pub fn get_recent_activity(c: &LendingContract, limit: u32, offset: u32) -> (r: Result<Vec<ActivityEntry>, AnalyticsError>)
    ensures
        r is Ok,
        r matches Ok(v) ==> v@ == page(reversed(c.activity_log@), limit as int, offset as int),
{
    Ok(recent_entries(&c.activity_log, limit, offset))
}

/// `user`'s entries, newest first, paginated like [`get_recent_activity`].
pub fn get_user_activity_feed(c: &LendingContract, user: AccountId, limit: u32, offset: u32) -> (r: Result<
    Vec<ActivityEntry>,
    AnalyticsError,
>)
    ensures
        r is Ok,
        r matches Ok(v) ==> v@ == page(
            newest_first(c.activity_log@, EntryFilter::User(user)),
            limit as int,
            offset as int,
        ),
{
    let filter = EntryFilter::User(user);
    proof {
        crate::activity::lemma_newest_first_len(c.activity_log@, filter);
    }
    let mine = select_newest_first(&c.activity_log, filter, c.activity_log.len());
    Ok(page_of(&mine, limit, offset))
}

/// The newest `limit` entries of one kind, newest first.
pub fn get_activity_by_type(c: &LendingContract, activity_type: ActivityKind, limit: u32) -> (r: Result<
    Vec<ActivityEntry>,
    AnalyticsError,
>)
    ensures
        r is Ok,
        r matches Ok(v) ==> v@ == first_n(
            newest_first(c.activity_log@, EntryFilter::Kind(activity_type)),
            limit as int,
        ),
{
    Ok(select_newest_first(&c.activity_log, EntryFilter::Kind(activity_type), limit as usize))
}

/// A user's metrics, stored position and ten most recent entries.
/// `DataNotFound` without counters or without a stored position.
pub fn generate_user_report(c: &LendingContract, user: AccountId, now: u64) -> (r: Result<UserReport, AnalyticsError>)
    requires
        c.wf(),
    ensures
        user_metrics_spec(*c, user) is Err ==> r == Err::<UserReport, _>(
            user_metrics_spec(*c, user)->Err_0,
        ),
        user_metrics_spec(*c, user) is Ok && !c.positions@.contains_key(user) ==> r == Err::<
            UserReport,
            _,
        >(AnalyticsError::DataNotFound),
        r is Ok <==> user_metrics_spec(*c, user) is Ok && c.positions@.contains_key(user),
        r matches Ok(rep) ==> rep.user == user && rep.metrics == user_metrics_spec(*c, user)->Ok_0
            && rep.position == c.positions@[user] && rep.timestamp == now
            && rep.recent_activities@ == page(
            newest_first(c.activity_log@, EntryFilter::User(user)),
            USER_REPORT_ACTIVITY_LIMIT as int,
            0,
        ),
{
    let metrics = get_user_activity_summary(c, user)?;
    let position = get_user_position_summary(c, user)?;
    let recent_activities = get_user_activity_feed(c, user, USER_REPORT_ACTIVITY_LIMIT, 0)?;
    Ok(UserReport { user, metrics, position, recent_activities, timestamp: now })
}

} // verus!
