//! The ledger: positions, governance and the transaction processor.

use vstd::prelude::*;
use std::collections::HashMap;
use crate::activity::{pushed_spec, ActivityEntry, MAX_ACTIVITY_LOG_SIZE};
use crate::activity::{newest_first, page, reversed, EntryFilter};
use crate::analytics::{
    fresh_metrics_spec, generate_protocol_report, generate_user_report, get_recent_activity,
    get_user_activity_feed, stats_spec, user_metrics_spec, AnalyticsError, ProtocolReport,
    UserReport, USER_REPORT_ACTIVITY_LIMIT, get_protocol_utilization, protocol_after, record_activity, record_protocol_transaction,
    record_user_transaction, sat_inc, sat_inc_spec, user_analytics_after, utilization_overflows,
    utilization_spec, ProtocolAnalytics, ProtocolMetrics, UserAnalytics, UserMetrics,
};
use crate::math::{
    accrual_overflows, accrue_interest, accrued_spec, borrow_rate, borrow_rate_spec,
    collateral_ratio, max_debt_spec, max_total_debt, ratio_overflows, ratio_spec,
    repay_split_spec, split_repayment,
};
use crate::risk::{RiskConfig, RiskParamsUpdate};
use crate::types::{AccountId, ActivityKind, Asset, AssetParams, Operation, Position, ProtocolError};

verus! {

broadcast use vstd::std_specs::hash::group_hash_axioms;

/// The five pause switches, one per operation.
#[derive(Clone, Copy, Debug, PartialEq, Eq, Structural)]
pub struct PauseSwitches {
    pub deposit: bool,
    pub withdraw: bool,
    pub borrow: bool,
    pub repay: bool,
    pub liquidate: bool,
}

impl PauseSwitches {
    pub open spec fn get_spec(self, op: Operation) -> bool {
        match op {
            Operation::Deposit => self.deposit,
            Operation::Withdraw => self.withdraw,
            Operation::Borrow => self.borrow,
            Operation::Repay => self.repay,
            Operation::Liquidate => self.liquidate,
        }
    }

    pub open spec fn set_spec(self, op: Operation, value: bool) -> PauseSwitches {
        match op {
            Operation::Deposit => PauseSwitches { deposit: value, ..self },
            Operation::Withdraw => PauseSwitches { withdraw: value, ..self },
            Operation::Borrow => PauseSwitches { borrow: value, ..self },
            Operation::Repay => PauseSwitches { repay: value, ..self },
            Operation::Liquidate => PauseSwitches { liquidate: value, ..self },
        }
    }

    pub open spec fn none_paused_spec() -> PauseSwitches {
        PauseSwitches { deposit: false, withdraw: false, borrow: false, repay: false, liquidate: false }
    }

    pub fn none_paused() -> (r: PauseSwitches)
        ensures
            r == PauseSwitches::none_paused_spec(),
            forall|op: Operation| !r.get_spec(op),
    {
        PauseSwitches { deposit: false, withdraw: false, borrow: false, repay: false, liquidate: false }
    }

    pub fn get(&self, op: Operation) -> (r: bool)
        ensures
            r == self.get_spec(op),
    {
        match op {
            Operation::Deposit => self.deposit,
            Operation::Withdraw => self.withdraw,
            Operation::Borrow => self.borrow,
            Operation::Repay => self.repay,
            Operation::Liquidate => self.liquidate,
        }
    }

    pub fn set(&mut self, op: Operation, value: bool)
        ensures
            *final(self) == old(self).set_spec(op, value),
    {
        match op {
            Operation::Deposit => self.deposit = value,
            Operation::Withdraw => self.withdraw = value,
            Operation::Borrow => self.borrow = value,
            Operation::Repay => self.repay = value,
            Operation::Liquidate => self.liquidate = value,
        }
    }
}

/// Whole protocol state, read and written atomically by each operation.
pub struct LendingContract {
    pub admin: Option<AccountId>,
    /// `None` until risk management is initialised.
    pub risk_config: Option<RiskConfig>,
    pub pauses: PauseSwitches,
    pub emergency_paused: bool,
    /// Deposit rules per token id.
    pub asset_params: HashMap<u64, AssetParams>,
    pub positions: HashMap<AccountId, Position>,
    pub user_analytics: HashMap<AccountId, UserAnalytics>,
    /// Last user metrics stored by `update_user_metrics`.
    pub user_metrics: HashMap<AccountId, UserMetrics>,
    pub protocol_analytics: ProtocolAnalytics,
    pub total_users: u64,
    pub total_transactions: u64,
    /// Cached protocol metrics; every transaction clears it.
    pub metrics_cache: Option<ProtocolMetrics>,
    /// Oldest entry first.
    pub activity_log: Vec<ActivityEntry>,
}

impl LendingContract {
    /// Invariants every operation relies on and preserves.
    pub open spec fn wf(&self) -> bool {
        &&& forall|u: AccountId| #[trigger] self.positions@.contains_key(u) ==> self.positions@[u].valid()
        &&& forall|u: AccountId| #[trigger] self.user_analytics@.contains_key(u) ==> self.user_analytics@[u].valid()
        &&& forall|t: u64| #[trigger] self.asset_params@.contains_key(t) ==> self.asset_params@[t].valid()
        &&& (self.risk_config matches Some(c) ==> c.valid())
        &&& self.protocol_analytics.valid()
        &&& self.activity_log.len() <= MAX_ACTIVITY_LOG_SIZE
    }

    /// Every field but the activity log and the transaction count is as in `other`.
    pub open spec fn same_except_log(self, other: LendingContract) -> bool {
        &&& self.admin == other.admin
        &&& self.risk_config == other.risk_config
        &&& self.pauses == other.pauses
        &&& self.emergency_paused == other.emergency_paused
        &&& self.asset_params@ == other.asset_params@
        &&& self.positions@ == other.positions@
        &&& self.user_analytics@ == other.user_analytics@
        &&& self.user_metrics@ == other.user_metrics@
        &&& self.protocol_analytics == other.protocol_analytics
        &&& self.total_users == other.total_users
        &&& self.metrics_cache == other.metrics_cache
    }

    /// An empty ledger: no admin, no positions, nothing paused.
    pub fn new() -> (r: LendingContract)
        ensures
            r.wf(),
            (r.admin is None),
            (r.risk_config is None),
            r.pauses == PauseSwitches::none_paused_spec(),
            !r.emergency_paused,
            r.positions@ == Map::<AccountId, Position>::empty(),
            r.user_analytics@ == Map::<AccountId, UserAnalytics>::empty(),
            r.asset_params@ == Map::<u64, AssetParams>::empty(),
            r.protocol_analytics == (ProtocolAnalytics { total_deposits: 0, total_borrows: 0, total_value_locked: 0 }),
            r.total_users == 0,
            r.total_transactions == 0,
            (r.metrics_cache is None),
            r.activity_log@ == Seq::<ActivityEntry>::empty(),
    {
        LendingContract {
            admin: None,
            risk_config: None,
            pauses: PauseSwitches::none_paused(),
            emergency_paused: false,
            asset_params: HashMap::new(),
            positions: HashMap::new(),
            user_analytics: HashMap::new(),
            user_metrics: HashMap::new(),
            protocol_analytics: ProtocolAnalytics::zero(),
            total_users: 0,
            total_transactions: 0,
            metrics_cache: None,
            activity_log: Vec::new(),
        }
    }
}

impl LendingContract {
    /// The rules positions are held to: the governed configuration, or the
    /// conservative one until risk management is initialised.
    pub open spec fn config_spec(self) -> RiskConfig {
        match self.risk_config {
            Some(c) => c,
            None => RiskConfig::uninitialized_spec(),
        }
    }

    /// A user's position; an empty one stamped `now` if the user has none.
    pub open spec fn position_spec(self, user: AccountId, now: u64) -> Position {
        if self.positions@.contains_key(user) {
            self.positions@[user]
        } else {
            Position::empty_spec(now)
        }
    }

    /// The deposit rules that apply to an asset.
    pub open spec fn params_spec(self, asset: Asset) -> AssetParams {
        match asset {
            Asset::Native => AssetParams::unrestricted_spec(),
            Asset::Token(t) => if self.asset_params@.contains_key(t) {
                self.asset_params@[t]
            } else {
                AssetParams::unrestricted_spec()
            },
        }
    }

    /// The position once interest has accrued up to `now`, at the rate the
    /// current utilisation sets.
    pub open spec fn accrual_spec(self, p: Position, now: u64) -> Result<Position, ProtocolError> {
        if p.debt == 0 {
            Ok(accrued_spec(p, 0, now))
        } else if utilization_overflows(self.protocol_analytics) {
            Err(ProtocolError::Overflow)
        } else {
            let rate = borrow_rate_spec(utilization_spec(self.protocol_analytics));
            if accrual_overflows(p, rate, now) {
                Err(ProtocolError::Overflow)
            } else {
                Ok(accrued_spec(p, rate, now))
            }
        }
    }

    /// How a transaction changes the ledger besides its own checks: the
    /// position is stored, the user's and the protocol's counters move, an
    /// entry is logged and the metrics cache is dropped.
    pub open spec fn committed(
        self,
        next: LendingContract,
        user: AccountId,
        kind: ActivityKind,
        asset: Asset,
        amount: i128,
        pool_amount: i128,
        p: Position,
        now: u64,
    ) -> bool {
        let prev = if self.user_analytics@.contains_key(user) {
            self.user_analytics@[user]
        } else {
            UserAnalytics::fresh_spec(now)
        };
        &&& next.positions@ == self.positions@.insert(user, p)
        &&& next.user_analytics@ == self.user_analytics@.insert(
            user,
            user_analytics_after(prev, kind, amount, p, now),
        )
        &&& next.total_users == if self.user_analytics@.contains_key(user) {
            self.total_users
        } else {
            sat_inc_spec(self.total_users)
        }
        &&& next.protocol_analytics == protocol_after(self.protocol_analytics, kind, pool_amount)
        &&& next.activity_log@ == pushed_spec(
            self.activity_log@,
            ActivityEntry { user, activity_type: kind, amount, asset, timestamp: now },
        )
        &&& next.total_transactions == sat_inc_spec(self.total_transactions)
        &&& next.metrics_cache is None
        &&& next.admin == self.admin
        &&& next.risk_config == self.risk_config
        &&& next.pauses == self.pauses
        &&& next.emergency_paused == self.emergency_paused
        &&& next.asset_params@ == self.asset_params@
        &&& next.user_metrics@ == self.user_metrics@
    }

    fn config(&self) -> (r: RiskConfig)
        requires
            self.wf(),
        ensures
            r == self.config_spec(),
            r.valid(),
    {
        match self.risk_config {
            Some(c) => c,
            None => RiskConfig::uninitialized_config(),
        }
    }

    fn position_or_empty(&self, user: AccountId, now: u64) -> (r: Position)
        requires
            self.wf(),
        ensures
            r == self.position_spec(user, now),
            r.valid(),
    {
        match self.positions.get(&user) {
            Some(p) => *p,
            None => Position::empty(now),
        }
    }

    fn params(&self, asset: Asset) -> (r: AssetParams)
        requires
            self.wf(),
        ensures
            r == self.params_spec(asset),
            r.valid(),
    {
        match asset {
            Asset::Native => AssetParams::unrestricted(),
            Asset::Token(t) => match self.asset_params.get(&t) {
                Some(p) => *p,
                None => AssetParams::unrestricted(),
            },
        }
    }

    fn accrue(&self, p: Position, now: u64) -> (r: Result<Position, ProtocolError>)
        requires
            self.wf(),
            p.valid(),
        ensures
            r == self.accrual_spec(p, now),
            r matches Ok(q) ==> q.valid(),
    {
        if p.debt == 0 {
            proof {
                let e = crate::math::elapsed_spec(p.last_accrual_time, now);
                assert(p.debt * 0 * e == 0) by (nonlinear_arith)
                    requires
                        p.debt == 0,
                ;
            }
            return accrue_interest(p, 0, now);
        }
        let utilization = match get_protocol_utilization(&self.protocol_analytics) {
            Ok(u) => u,
            Err(_) => return Err(ProtocolError::Overflow),
        };
        accrue_interest(p, borrow_rate(utilization), now)
    }

    fn commit(
        &mut self,
        user: AccountId,
        kind: ActivityKind,
        asset: Asset,
        amount: i128,
        pool_amount: i128,
        p: Position,
        now: u64,
    )
        requires
            old(self).wf(),
            p.valid(),
            amount >= 0,
            pool_amount >= 0,
        ensures
            final(self).wf(),
            old(self).committed(*final(self), user, kind, asset, amount, pool_amount, p, now),
    {
        self.positions.insert(user, p);
        let prev = match self.user_analytics.get(&user) {
            Some(a) => *a,
            None => {
                self.total_users = sat_inc(self.total_users);
                UserAnalytics::fresh(now)
            },
        };
        let updated = record_user_transaction(prev, kind, amount, p, now);
        self.user_analytics.insert(user, updated);
        self.protocol_analytics = record_protocol_transaction(self.protocol_analytics, kind, pool_amount);
        let _ = record_activity(self, user, kind, amount, asset, now);
        self.metrics_cache = None;
    }

    /// Outcome of a deposit: the new collateral balance, or the first check
    /// that fails.
    pub open spec fn deposit_spec(
        self,
        user: AccountId,
        asset: Asset,
        amount: i128,
        transfer_ok: bool,
    ) -> Result<i128, ProtocolError> {
        let collateral = self.position_spec(user, 0).collateral;
        let params = self.params_spec(asset);
        if amount <= 0 {
            Err(ProtocolError::InvalidAmount)
        } else if self.emergency_paused {
            Err(ProtocolError::EmergencyPaused)
        } else if self.pauses.deposit {
            Err(ProtocolError::DepositPaused)
        } else if !params.deposit_enabled {
            Err(ProtocolError::AssetNotEnabled)
        } else if params.max_deposit > 0 && collateral + amount > params.max_deposit {
            Err(ProtocolError::InvalidAmount)
        } else if !transfer_ok {
            Err(ProtocolError::InsufficientBalance)
        } else if collateral + amount > i128::MAX {
            Err(ProtocolError::Overflow)
        } else {
            Ok((collateral + amount) as i128)
        }
    }

    /// Deposits `amount` of `asset` as collateral for `user` and returns the
    /// new collateral balance. `transfer_ok` is whether the settlement layer
    /// moved the funds in; a failed transfer rejects the deposit.
    pub fn deposit_collateral(
        &mut self,
        user: AccountId,
        asset: Asset,
        amount: i128,
        now: u64,
        transfer_ok: bool,
    ) -> (r: Result<i128, ProtocolError>)
        requires
            old(self).wf(),
        ensures
            final(self).wf(),
            r == old(self).deposit_spec(user, asset, amount, transfer_ok),
            r.is_err() ==> *final(self) == *old(self),
            r.is_ok() ==> old(self).committed(
                *final(self),
                user,
                ActivityKind::Deposit,
                asset,
                amount,
                amount,
                Position { collateral: r.unwrap(), ..old(self).position_spec(user, now) },
                now,
            ),
            r.is_ok() ==> final(self).positions@[user].collateral == old(self).position_spec(
                user,
                now,
            ).collateral + amount,
            r.is_ok() && old(self).protocol_analytics.total_value_locked + amount <= i128::MAX
                ==> final(self).protocol_analytics.total_value_locked
                == old(self).protocol_analytics.total_value_locked + amount,
    {
        if amount <= 0 {
            return Err(ProtocolError::InvalidAmount);
        }
        if self.emergency_paused {
            return Err(ProtocolError::EmergencyPaused);
        }
        if self.pauses.deposit {
            return Err(ProtocolError::DepositPaused);
        }
        let params = self.params(asset);
        if !params.deposit_enabled {
            return Err(ProtocolError::AssetNotEnabled);
        }
        let p = self.position_or_empty(user, now);
        if params.max_deposit > 0 && amount > params.max_deposit - p.collateral {
            return Err(ProtocolError::InvalidAmount);
        }
        if !transfer_ok {
            return Err(ProtocolError::InsufficientBalance);
        }
        let collateral = match p.collateral.checked_add(amount) {
            Some(c) => c,
            None => return Err(ProtocolError::Overflow),
        };
        let next = Position { collateral, ..p };
        self.commit(user, ActivityKind::Deposit, asset, amount, amount, next, now);
        Ok(collateral)
    }

    /// Outcome of a withdrawal: the position it leaves, or the first check
    /// that fails. The ratio check uses the debt with interest accrued to `now`.
    pub open spec fn withdraw_spec(
        self,
        user: AccountId,
        amount: i128,
        now: u64,
        transfer_ok: bool,
    ) -> Result<Position, ProtocolError> {
        if amount <= 0 {
            Err(ProtocolError::InvalidAmount)
        } else if self.emergency_paused {
            Err(ProtocolError::EmergencyPaused)
        } else if self.pauses.withdraw {
            Err(ProtocolError::WithdrawPaused)
        } else {
            match self.accrual_spec(self.position_spec(user, now), now) {
                Err(e) => Err(e),
                Ok(p) => {
                    let rest = p.collateral - amount;
                    if amount > p.collateral {
                        Err(ProtocolError::InsufficientCollateral)
                    } else if p.owed() > i128::MAX {
                        Err(ProtocolError::Overflow)
                    } else if p.owed() > 0 && ratio_overflows(rest, p.owed()) {
                        Err(ProtocolError::Overflow)
                    } else if p.owed() > 0 && ratio_spec(rest, p.owed())
                        < self.config_spec().min_collateral_ratio {
                        Err(ProtocolError::InsufficientCollateralRatio)
                    } else if !transfer_ok {
                        Err(ProtocolError::InsufficientBalance)
                    } else {
                        Ok(Position { collateral: rest as i128, ..p })
                    }
                },
            }
        }
    }

    /// Withdraws `amount` of collateral for `user` and returns the remaining
    /// balance. Interest accrues first; the position must keep the minimum
    /// collateral ratio if it has debt. `transfer_ok` is whether the
    /// settlement layer paid the funds out.
    pub fn withdraw_collateral(
        &mut self,
        user: AccountId,
        asset: Asset,
        amount: i128,
        now: u64,
        transfer_ok: bool,
    ) -> (r: Result<i128, ProtocolError>)
        requires
            old(self).wf(),
        ensures
            final(self).wf(),
            r.is_err() ==> *final(self) == *old(self),
            r.is_err() ==> old(self).withdraw_spec(user, amount, now, transfer_ok) == Err::<
                Position,
                ProtocolError,
            >(r->Err_0),
            r.is_ok() ==> old(self).withdraw_spec(user, amount, now, transfer_ok) is Ok,
            r.is_ok() ==> r->Ok_0 == old(self).withdraw_spec(
                user,
                amount,
                now,
                transfer_ok,
            )->Ok_0.collateral,
            r.is_ok() ==> old(self).committed(
                *final(self),
                user,
                ActivityKind::Withdraw,
                asset,
                amount,
                amount,
                old(self).withdraw_spec(user, amount, now, transfer_ok)->Ok_0,
                now,
            ),
    {
        if amount <= 0 {
            return Err(ProtocolError::InvalidAmount);
        }
        if self.emergency_paused {
            return Err(ProtocolError::EmergencyPaused);
        }
        if self.pauses.withdraw {
            return Err(ProtocolError::WithdrawPaused);
        }
        let p0 = self.position_or_empty(user, now);
        let p = self.accrue(p0, now)?;
        if amount > p.collateral {
            return Err(ProtocolError::InsufficientCollateral);
        }
        let owed = match p.debt.checked_add(p.accrued_interest) {
            Some(o) => o,
            None => return Err(ProtocolError::Overflow),
        };
        let rest = p.collateral - amount;
        if owed > 0 {
            let ratio = collateral_ratio(rest, owed)?;
            if ratio < self.config().min_collateral_ratio {
                return Err(ProtocolError::InsufficientCollateralRatio);
            }
        }
        if !transfer_ok {
            return Err(ProtocolError::InsufficientBalance);
        }
        let next = Position { collateral: rest, ..p };
        self.commit(user, ActivityKind::Withdraw, asset, amount, amount, next, now);
        Ok(rest)
    }

    /// Outcome of a borrow: the position it leaves, or the first check that
    /// fails. Capacity is checked against principal plus accrued interest.
    pub open spec fn borrow_spec(
        self,
        user: AccountId,
        asset: Asset,
        amount: i128,
        now: u64,
    ) -> Result<Position, ProtocolError> {
        if amount <= 0 {
            Err(ProtocolError::InvalidAmount)
        } else if self.emergency_paused {
            Err(ProtocolError::EmergencyPaused)
        } else if self.pauses.borrow {
            Err(ProtocolError::BorrowPaused)
        } else {
            match self.accrual_spec(self.position_spec(user, now), now) {
                Err(e) => Err(e),
                Ok(p) => {
                    let factor = self.params_spec(asset).collateral_factor;
                    if p.collateral == 0 {
                        Err(ProtocolError::InsufficientCollateral)
                    } else if p.collateral * factor > i128::MAX {
                        Err(ProtocolError::Overflow)
                    } else if p.owed() > i128::MAX {
                        Err(ProtocolError::Overflow)
                    } else if p.owed() + amount > max_debt_spec(
                        p.collateral as int,
                        factor as int,
                        self.config_spec().min_collateral_ratio as int,
                    ) {
                        Err(ProtocolError::MaxBorrowExceeded)
                    } else {
                        Ok(Position { debt: (p.debt + amount) as i128, ..p })
                    }
                },
            }
        }
    }

    /// Borrows `amount` against `user`'s collateral and returns the total now
    /// owed (principal plus accrued interest). The total may not exceed
    /// `collateral * factor / 10000 * 10000 / min_collateral_ratio`, with the
    /// collateral factor of `asset`.
    pub fn borrow_asset(&mut self, user: AccountId, asset: Asset, amount: i128, now: u64) -> (r: Result<
        i128,
        ProtocolError,
    >)
        requires
            old(self).wf(),
        ensures
            final(self).wf(),
            r.is_err() ==> *final(self) == *old(self),
            r.is_err() ==> old(self).borrow_spec(user, asset, amount, now) == Err::<
                Position,
                ProtocolError,
            >(r->Err_0),
            r.is_ok() ==> old(self).borrow_spec(user, asset, amount, now) is Ok,
            r.is_ok() ==> r->Ok_0 == old(self).borrow_spec(user, asset, amount, now)->Ok_0.owed(),
            r.is_ok() ==> old(self).committed(
                *final(self),
                user,
                ActivityKind::Borrow,
                asset,
                amount,
                amount,
                old(self).borrow_spec(user, asset, amount, now)->Ok_0,
                now,
            ),
    {
        if amount <= 0 {
            return Err(ProtocolError::InvalidAmount);
        }
        if self.emergency_paused {
            return Err(ProtocolError::EmergencyPaused);
        }
        if self.pauses.borrow {
            return Err(ProtocolError::BorrowPaused);
        }
        let p0 = self.position_or_empty(user, now);
        let p = self.accrue(p0, now)?;
        if p.collateral == 0 {
            return Err(ProtocolError::InsufficientCollateral);
        }
        let factor = self.params(asset).collateral_factor;
        let capacity = max_total_debt(p.collateral, factor, self.config().min_collateral_ratio)?;
        let owed = match p.debt.checked_add(p.accrued_interest) {
            Some(o) => o,
            None => return Err(ProtocolError::Overflow),
        };
        if amount > capacity - owed {
            return Err(ProtocolError::MaxBorrowExceeded);
        }
        let next = Position { debt: p.debt + amount, ..p };
        self.commit(user, ActivityKind::Borrow, asset, amount, amount, next, now);
        Ok(owed + amount)
    }

    /// Outcome of a repayment: the position it leaves, or the first check
    /// that fails.
    pub open spec fn repay_spec(self, user: AccountId, amount: i128, now: u64) -> Result<
        Position,
        ProtocolError,
    > {
        let p0 = self.position_spec(user, now);
        if amount <= 0 {
            Err(ProtocolError::InvalidAmount)
        } else if self.emergency_paused {
            Err(ProtocolError::EmergencyPaused)
        } else if self.pauses.repay {
            Err(ProtocolError::RepayPaused)
        } else if p0.debt == 0 && p0.accrued_interest == 0 {
            Err(ProtocolError::NoDebt)
        } else {
            match self.accrual_spec(p0, now) {
                Err(e) => Err(e),
                Ok(p) => {
                    let split = repay_split_spec(
                        amount as int,
                        p.accrued_interest as int,
                        p.debt as int,
                    );
                    let next = Position {
                        accrued_interest: (p.accrued_interest - split.0) as i128,
                        debt: (p.debt - split.1) as i128,
                        ..p
                    };
                    if next.owed() > i128::MAX {
                        Err(ProtocolError::Overflow)
                    } else {
                        Ok(next)
                    }
                },
            }
        }
    }

    /// What a successful repayment settles: `(interest_paid, principal_paid)`.
    pub open spec fn repay_split(self, user: AccountId, amount: i128, now: u64) -> (int, int) {
        let p = self.accrual_spec(self.position_spec(user, now), now)->Ok_0;
        repay_split_spec(amount as int, p.accrued_interest as int, p.debt as int)
    }

    /// Repays up to `amount` of `user`'s debt, interest first, and returns
    /// `(remaining_debt, interest_paid, principal_paid)`, where the remaining
    /// debt includes unpaid interest. Payment beyond the total owed is not applied.
    pub fn repay_debt(&mut self, user: AccountId, asset: Asset, amount: i128, now: u64) -> (r: Result<
        (i128, i128, i128),
        ProtocolError,
    >)
        requires
            old(self).wf(),
        ensures
            final(self).wf(),
            r.is_err() ==> *final(self) == *old(self),
            r.is_err() ==> old(self).repay_spec(user, amount, now) == Err::<Position, ProtocolError>(
                r->Err_0,
            ),
            r.is_ok() ==> old(self).repay_spec(user, amount, now) is Ok,
            r.is_ok() ==> r->Ok_0.0 == old(self).repay_spec(user, amount, now)->Ok_0.owed(),
            r.is_ok() ==> r->Ok_0.1 == old(self).repay_split(user, amount, now).0,
            r.is_ok() ==> r->Ok_0.2 == old(self).repay_split(user, amount, now).1,
            r.is_ok() ==> old(self).committed(
                *final(self),
                user,
                ActivityKind::Repay,
                asset,
                (r->Ok_0.1 + r->Ok_0.2) as i128,
                r->Ok_0.2,
                old(self).repay_spec(user, amount, now)->Ok_0,
                now,
            ),
    {
        if amount <= 0 {
            return Err(ProtocolError::InvalidAmount);
        }
        if self.emergency_paused {
            return Err(ProtocolError::EmergencyPaused);
        }
        if self.pauses.repay {
            return Err(ProtocolError::RepayPaused);
        }
        let p0 = self.position_or_empty(user, now);
        if p0.debt == 0 && p0.accrued_interest == 0 {
            return Err(ProtocolError::NoDebt);
        }
        let p = self.accrue(p0, now)?;
        let (interest_paid, principal_paid) = split_repayment(amount, p.accrued_interest, p.debt);
        let next = Position {
            accrued_interest: p.accrued_interest - interest_paid,
            debt: p.debt - principal_paid,
            ..p
        };
        let remaining = match next.debt.checked_add(next.accrued_interest) {
            Some(v) => v,
            None => return Err(ProtocolError::Overflow),
        };
        self.commit(
            user,
            ActivityKind::Repay,
            asset,
            interest_paid + principal_paid,
            principal_paid,
            next,
            now,
        );
        Ok((remaining, interest_paid, principal_paid))
    }

    /// Every field but the governance settings is as in `other`.
    pub open spec fn same_ledger(self, other: LendingContract) -> bool {
        &&& self.asset_params@ == other.asset_params@
        &&& self.positions@ == other.positions@
        &&& self.user_analytics@ == other.user_analytics@
        &&& self.user_metrics@ == other.user_metrics@
        &&& self.protocol_analytics == other.protocol_analytics
        &&& self.total_users == other.total_users
        &&& self.total_transactions == other.total_transactions
        &&& self.metrics_cache == other.metrics_cache
        &&& self.activity_log@ == other.activity_log@
    }

    pub open spec fn is_admin(self, caller: AccountId) -> bool {
        self.admin == Some(caller)
    }

    /// The single capability check of every governance operation.
    fn require_admin(&self, caller: AccountId) -> (r: Result<(), ProtocolError>)
        ensures
            r == if self.is_admin(caller) {
                Ok::<(), ProtocolError>(())
            } else {
                Err(ProtocolError::Unauthorized)
            },
    {
        match self.admin {
            Some(a) => if a == caller {
                Ok(())
            } else {
                Err(ProtocolError::Unauthorized)
            },
            None => Err(ProtocolError::Unauthorized),
        }
    }

    /// Initialises risk management: `admin` governs from now on, the default
    /// configuration is installed and every switch is off. Fails
    /// `Unauthorized` once an admin exists.
    pub fn initialize(&mut self, admin: AccountId) -> (r: Result<(), ProtocolError>)
        requires
            old(self).wf(),
        ensures
            final(self).wf(),
            old(self).admin is Some ==> r == Err::<(), _>(ProtocolError::Unauthorized)
                && *final(self) == *old(self),
            old(self).admin is None ==> r == Ok::<(), ProtocolError>(()) && final(self).admin == Some(
                admin,
            ) && final(self).risk_config == Some(RiskConfig::default_spec()) && final(self).pauses
                == PauseSwitches::none_paused_spec() && !final(self).emergency_paused
                && final(self).same_ledger(*old(self)),
    {
        if self.admin.is_some() {
            return Err(ProtocolError::Unauthorized);
        }
        self.admin = Some(admin);
        self.risk_config = Some(RiskConfig::default_config());
        self.pauses = PauseSwitches::none_paused();
        self.emergency_paused = false;
        Ok(())
    }

    /// Outcome of a governed parameter change.
    pub open spec fn risk_update_spec(self, caller: AccountId, u: RiskParamsUpdate) -> Result<
        RiskConfig,
        ProtocolError,
    > {
        if !self.is_admin(caller) {
            Err(ProtocolError::Unauthorized)
        } else if self.emergency_paused {
            Err(ProtocolError::EmergencyPaused)
        } else {
            self.config_spec().update_spec(u)
        }
    }

    /// Changes the provided risk parameters; the others keep their values.
    /// Each provided field may move by at most a tenth of its current value
    /// (`ParameterChangeTooLarge`), must stay within its bounds
    /// (`InvalidParameter`), and the minimum ratio must stay above the
    /// liquidation threshold (`InvalidConfiguration`).
    pub fn set_risk_params(
        &mut self,
        caller: AccountId,
        min_collateral_ratio: Option<i128>,
        liquidation_threshold: Option<i128>,
        close_factor: Option<i128>,
        liquidation_incentive: Option<i128>,
    ) -> (r: Result<(), ProtocolError>)
        requires
            old(self).wf(),
        ensures
            final(self).wf(),
            ({
                let u = RiskParamsUpdate {
                    min_collateral_ratio,
                    liquidation_threshold,
                    close_factor,
                    liquidation_incentive,
                };
                match old(self).risk_update_spec(caller, u) {
                    Ok(c) => r == Ok::<(), ProtocolError>(()) && final(self).risk_config == Some(c)
                        && final(self).admin == old(self).admin && final(self).pauses
                        == old(self).pauses && final(self).emergency_paused
                        == old(self).emergency_paused && final(self).same_ledger(*old(self)),
                    Err(e) => r == Err::<(), ProtocolError>(e) && *final(self) == *old(self),
                }
            }),
    {
        self.require_admin(caller)?;
        if self.emergency_paused {
            return Err(ProtocolError::EmergencyPaused);
        }
        let u = RiskParamsUpdate {
            min_collateral_ratio,
            liquidation_threshold,
            close_factor,
            liquidation_incentive,
        };
        let c = self.config().apply_update(u)?;
        self.risk_config = Some(c);
        Ok(())
    }

    /// Sets one pause switch (admin only).
    pub fn set_pause_switch(&mut self, caller: AccountId, op: Operation, value: bool) -> (r: Result<
        (),
        ProtocolError,
    >)
        requires
            old(self).wf(),
        ensures
            final(self).wf(),
            !old(self).is_admin(caller) ==> r == Err::<(), _>(ProtocolError::Unauthorized)
                && *final(self) == *old(self),
            old(self).is_admin(caller) ==> r == Ok::<(), ProtocolError>(()) && final(self).pauses
                == old(self).pauses.set_spec(op, value) && final(self).admin == old(self).admin
                && final(self).risk_config == old(self).risk_config && final(self).emergency_paused
                == old(self).emergency_paused && final(self).same_ledger(*old(self)),
    {
        self.require_admin(caller)?;
        self.pauses.set(op, value);
        Ok(())
    }

    /// Sets several pause switches in order (admin only); a later entry for
    /// the same operation wins.
    pub fn set_pause_switches(&mut self, caller: AccountId, switches: &Vec<(Operation, bool)>) -> (r:
        Result<(), ProtocolError>)
        requires
            old(self).wf(),
        ensures
            final(self).wf(),
            !old(self).is_admin(caller) ==> r == Err::<(), _>(ProtocolError::Unauthorized)
                && *final(self) == *old(self),
            old(self).is_admin(caller) ==> r == Ok::<(), ProtocolError>(()) && final(self).pauses
                == apply_switches(old(self).pauses, switches@) && final(self).admin
                == old(self).admin && final(self).risk_config == old(self).risk_config
                && final(self).emergency_paused == old(self).emergency_paused
                && final(self).same_ledger(*old(self)),
    {
        self.require_admin(caller)?;
        let mut i: usize = 0;
        while i < switches.len()
            invariant
                old(self).is_admin(caller),
                i <= switches.len(),
                self.pauses == apply_switches(old(self).pauses, switches@.subrange(0, i as int)),
                self.admin == old(self).admin,
                self.risk_config == old(self).risk_config,
                self.emergency_paused == old(self).emergency_paused,
                self.same_ledger(*old(self)),
                self.wf(),
            decreases switches.len() - i,
        {
            let (op, value) = switches[i];
            assert(switches@.subrange(0, i + 1).drop_last() =~= switches@.subrange(0, i as int));
            self.pauses.set(op, value);
            i += 1;
        }
        assert(switches@.subrange(0, switches.len() as int) =~= switches@);
        Ok(())
    }

    /// Turns the protocol-wide circuit breaker on or off (admin only).
    pub fn set_emergency_pause(&mut self, caller: AccountId, value: bool) -> (r: Result<(), ProtocolError>)
        requires
            old(self).wf(),
        ensures
            final(self).wf(),
            !old(self).is_admin(caller) ==> r == Err::<(), _>(ProtocolError::Unauthorized)
                && *final(self) == *old(self),
            old(self).is_admin(caller) ==> r == Ok::<(), ProtocolError>(())
                && final(self).emergency_paused == value && final(self).admin == old(self).admin
                && final(self).risk_config == old(self).risk_config && final(self).pauses
                == old(self).pauses && final(self).same_ledger(*old(self)),
    {
        self.require_admin(caller)?;
        self.emergency_paused = value;
        Ok(())
    }
}

impl LendingContract {
    /// Every field but the metrics cache is as in `other`.
    pub open spec fn same_except_cache(self, other: LendingContract) -> bool {
        &&& self.admin == other.admin
        &&& self.risk_config == other.risk_config
        &&& self.pauses == other.pauses
        &&& self.emergency_paused == other.emergency_paused
        &&& self.asset_params@ == other.asset_params@
        &&& self.positions@ == other.positions@
        &&& self.user_analytics@ == other.user_analytics@
        &&& self.user_metrics@ == other.user_metrics@
        &&& self.protocol_analytics == other.protocol_analytics
        &&& self.total_users == other.total_users
        &&& self.total_transactions == other.total_transactions
        &&& self.activity_log@ == other.activity_log@
    }

    /// The governed configuration, if risk management is initialised.
    pub fn get_risk_config(&self) -> (r: Option<RiskConfig>)
        ensures
            r == self.risk_config,
    {
        self.risk_config
    }

    pub fn get_min_collateral_ratio(&self) -> (r: i128)
        requires
            self.wf(),
        ensures
            r == self.config_spec().min_collateral_ratio,
    {
        self.config().min_collateral_ratio
    }

    pub fn get_liquidation_threshold(&self) -> (r: i128)
        requires
            self.wf(),
        ensures
            r == self.config_spec().liquidation_threshold,
    {
        self.config().liquidation_threshold
    }

    pub fn get_close_factor(&self) -> (r: i128)
        requires
            self.wf(),
        ensures
            r == self.config_spec().close_factor,
    {
        self.config().close_factor
    }

    pub fn get_liquidation_incentive(&self) -> (r: i128)
        requires
            self.wf(),
        ensures
            r == self.config_spec().liquidation_incentive,
    {
        self.config().liquidation_incentive
    }

    pub fn is_operation_paused(&self, op: Operation) -> (r: bool)
        ensures
            r == self.pauses.get_spec(op),
    {
        self.pauses.get(op)
    }

    pub fn is_emergency_paused(&self) -> (r: bool)
        ensures
            r == self.emergency_paused,
    {
        self.emergency_paused
    }

    /// Whether a position may be liquidated under the current threshold:
    /// never without debt, otherwise exactly when its ratio is strictly below it.
    pub fn can_be_liquidated(&self, collateral: i128, debt: i128) -> (r: Result<bool, ProtocolError>)
        requires
            self.wf(),
            collateral >= 0,
            debt >= 0,
        ensures
            ratio_overflows(collateral as int, debt as int) ==> r == Err::<bool, _>(
                ProtocolError::Overflow,
            ),
            !ratio_overflows(collateral as int, debt as int) ==> r == Ok::<bool, ProtocolError>(
                debt > 0 && ratio_spec(collateral as int, debt as int)
                    < self.config_spec().liquidation_threshold,
            ),
    {
        self.config().can_be_liquidated(collateral, debt)
    }

    /// `debt * close_factor / 10000`.
    pub fn get_max_liquidatable_amount(&self, debt: i128) -> (r: Result<i128, ProtocolError>)
        requires
            self.wf(),
            debt >= 0,
        ensures
            debt * self.config_spec().close_factor > i128::MAX ==> r == Err::<i128, _>(
                ProtocolError::Overflow,
            ),
            debt * self.config_spec().close_factor <= i128::MAX ==> r == Ok::<i128, ProtocolError>(
                (debt * self.config_spec().close_factor / 10_000) as i128,
            ),
    {
        self.config().max_liquidatable_amount(debt)
    }

    /// `amount * liquidation_incentive / 10000`.
    pub fn get_liquidation_incentive_amount(&self, amount: i128) -> (r: Result<i128, ProtocolError>)
        requires
            self.wf(),
            amount >= 0,
        ensures
            amount * self.config_spec().liquidation_incentive > i128::MAX ==> r == Err::<i128, _>(
                ProtocolError::Overflow,
            ),
            amount * self.config_spec().liquidation_incentive <= i128::MAX ==> r == Ok::<
                i128,
                ProtocolError,
            >((amount * self.config_spec().liquidation_incentive / 10_000) as i128),
    {
        self.config().liquidation_incentive_amount(amount)
    }

    /// Checks a collateral and debt pair against the minimum collateral ratio.
    pub fn require_min_collateral_ratio(&self, collateral: i128, debt: i128) -> (r: Result<(), ProtocolError>)
        requires
            self.wf(),
            collateral >= 0,
            debt >= 0,
        ensures
            ratio_overflows(collateral as int, debt as int) ==> r == Err::<(), _>(
                ProtocolError::Overflow,
            ),
            !ratio_overflows(collateral as int, debt as int) ==> (r == if debt > 0 && ratio_spec(
                collateral as int,
                debt as int,
            ) < self.config_spec().min_collateral_ratio {
                Err::<(), ProtocolError>(ProtocolError::InsufficientCollateralRatio)
            } else {
                Ok(())
            }),
    {
        self.config().require_min_collateral_ratio(collateral, debt)
    }

    /// Registers the deposit rules of a token (admin only); a collateral
    /// factor outside 0..=10000 or a negative cap is `InvalidParameter`.
    pub fn set_asset_params(&mut self, caller: AccountId, token: u64, params: AssetParams) -> (r: Result<
        (),
        ProtocolError,
    >)
        requires
            old(self).wf(),
        ensures
            final(self).wf(),
            !old(self).is_admin(caller) ==> r == Err::<(), _>(ProtocolError::Unauthorized),
            old(self).is_admin(caller) && !params.valid() ==> r == Err::<(), _>(
                ProtocolError::InvalidParameter,
            ),
            r.is_err() ==> *final(self) == *old(self),
            old(self).is_admin(caller) && params.valid() ==> r == Ok::<(), ProtocolError>(())
                && final(self).asset_params@ == old(self).asset_params@.insert(token, params),
            r.is_ok() ==> final(self).admin == old(self).admin && final(self).risk_config
                == old(self).risk_config && final(self).pauses == old(self).pauses
                && final(self).emergency_paused == old(self).emergency_paused
                && final(self).positions@ == old(self).positions@ && final(self).user_analytics@
                == old(self).user_analytics@ && final(self).protocol_analytics
                == old(self).protocol_analytics && final(self).activity_log@
                == old(self).activity_log@,
    {
        self.require_admin(caller)?;
        if params.collateral_factor < 0 || params.collateral_factor > 10_000 || params.max_deposit < 0 {
            return Err(ProtocolError::InvalidParameter);
        }
        self.asset_params.insert(token, params);
        Ok(())
    }

    /// The stored position of `user`, if any.
    pub fn get_position(&self, user: AccountId) -> (r: Option<Position>)
        ensures
            r == if self.positions@.contains_key(user) {
                Some(self.positions@[user])
            } else {
                None::<Position>
            },
    {
        match self.positions.get(&user) {
            Some(p) => Some(*p),
            None => None,
        }
    }

    /// Stores a position as given; the transaction checks live in the operations above.
    pub fn put_position(&mut self, user: AccountId, p: Position)
        requires
            old(self).wf(),
            p.valid(),
        ensures
            final(self).wf(),
            final(self).positions@ == old(self).positions@.insert(user, p),
            final(self).admin == old(self).admin,
            final(self).risk_config == old(self).risk_config,
            final(self).pauses == old(self).pauses,
            final(self).emergency_paused == old(self).emergency_paused,
            final(self).asset_params@ == old(self).asset_params@,
            final(self).user_analytics@ == old(self).user_analytics@,
            final(self).protocol_analytics == old(self).protocol_analytics,
            final(self).activity_log@ == old(self).activity_log@,
            final(self).metrics_cache == old(self).metrics_cache,
    {
        self.positions.insert(user, p);
    }

    /// Collateral balance of `user`; zero without a position.
    pub fn get_user_collateral(&self, user: AccountId) -> (r: i128)
        requires
            self.wf(),
        ensures
            r == self.position_spec(user, 0).collateral,
    {
        self.position_or_empty(user, 0).collateral
    }

    /// Principal owed by `user`, without accrued interest; zero without a position.
    pub fn get_user_debt(&self, user: AccountId) -> (r: i128)
        requires
            self.wf(),
        ensures
            r == self.position_spec(user, 0).debt,
    {
        self.position_or_empty(user, 0).debt
    }

    pub fn get_user_analytics(&self, user: AccountId) -> (r: Option<UserAnalytics>)
        ensures
            r == if self.user_analytics@.contains_key(user) {
                Some(self.user_analytics@[user])
            } else {
                None::<UserAnalytics>
            },
    {
        match self.user_analytics.get(&user) {
            Some(a) => Some(*a),
            None => None,
        }
    }

    pub fn get_protocol_analytics(&self) -> (r: ProtocolAnalytics)
        ensures
            r == self.protocol_analytics,
    {
        self.protocol_analytics
    }
}

impl LendingContract {
    /// The protocol report; repeated calls with no transaction in between
    /// serve the same cached metrics.
    pub fn get_protocol_report(&mut self, now: u64) -> (r: Result<ProtocolReport, AnalyticsError>)
        requires
            old(self).wf(),
        ensures
            final(self).wf(),
            stats_spec(*old(self), now) is Err ==> r == Err::<ProtocolReport, _>(
                stats_spec(*old(self), now)->Err_0,
            ) && *final(self) == *old(self),
            stats_spec(*old(self), now) is Ok ==> r == Ok::<ProtocolReport, AnalyticsError>(
                ProtocolReport { metrics: stats_spec(*old(self), now)->Ok_0, timestamp: now },
            ) && final(self).metrics_cache == Some(stats_spec(*old(self), now)->Ok_0),
            final(self).same_except_cache(*old(self)),
    {
        generate_protocol_report(self, now)
    }

    /// The report on one user; see [`generate_user_report`].
    pub fn get_user_report(&self, user: AccountId, now: u64) -> (r: Result<UserReport, AnalyticsError>)
        requires
            self.wf(),
        ensures
            r is Ok <==> user_metrics_spec(*self, user) is Ok && self.positions@.contains_key(user),
            user_metrics_spec(*self, user) is Err ==> r == Err::<UserReport, _>(
                user_metrics_spec(*self, user)->Err_0,
            ),
            user_metrics_spec(*self, user) is Ok && !self.positions@.contains_key(user) ==> r
                == Err::<UserReport, _>(AnalyticsError::DataNotFound),
            r matches Ok(rep) ==> rep.user == user && rep.metrics == user_metrics_spec(*self, user)->Ok_0
                && rep.position == self.positions@[user] && rep.timestamp == now
                && rep.recent_activities@ == page(
                newest_first(self.activity_log@, EntryFilter::User(user)),
                USER_REPORT_ACTIVITY_LIMIT as int,
                0,
            ),
    {
        generate_user_report(self, user, now)
    }

    /// Up to `limit` log entries, newest first, after skipping the `offset` most recent.
    pub fn get_recent_activity(&self, limit: u32, offset: u32) -> (r: Vec<ActivityEntry>)
        ensures
            r@ == page(reversed(self.activity_log@), limit as int, offset as int),
    {
        match get_recent_activity(self, limit, offset) {
            Ok(v) => v,
            Err(_) => Vec::new(),
        }
    }

    /// `user`'s log entries, newest first, paginated like [`Self::get_recent_activity`].
    pub fn get_user_activity(&self, user: AccountId, limit: u32, offset: u32) -> (r: Vec<ActivityEntry>)
        ensures
            r@ == page(newest_first(self.activity_log@, EntryFilter::User(user)), limit as int, offset as int),
    {
        match get_user_activity_feed(self, user, limit, offset) {
            Ok(v) => v,
            Err(_) => Vec::new(),
        }
    }
}

/// A report served right after another, with no transaction in between,
/// carries the same metrics, whatever the time of either call.
pub proof fn lemma_report_repeats(before: LendingContract, after: LendingContract, t1: u64, t2: u64)
    requires
        stats_spec(before, t1) is Ok,
        after.metrics_cache == Some(stats_spec(before, t1)->Ok_0),
        after.same_except_cache(before),
    ensures
        stats_spec(after, t2) == stats_spec(before, t1),
{
}

/// After any transaction the next report is computed afresh from the
/// updated counters.
pub proof fn lemma_transaction_refreshes_report(
    before: LendingContract,
    after: LendingContract,
    user: AccountId,
    kind: ActivityKind,
    asset: Asset,
    amount: i128,
    pool_amount: i128,
    p: Position,
    now: u64,
    t: u64,
)
    requires
        before.committed(after, user, kind, asset, amount, pool_amount, p, now),
    ensures
        stats_spec(after, t) == fresh_metrics_spec(after, t),
{
}

/// A change that moves any provided field by more than a tenth of its
/// current value is rejected with `ParameterChangeTooLarge`, whatever else it
/// asks for, once the caller is the admin and the protocol is not paused.
pub proof fn lemma_large_step_rejected(c: LendingContract, caller: AccountId, u: RiskParamsUpdate)
    requires
        c.is_admin(caller),
        !c.emergency_paused,
        c.config_spec().any_step_too_large(u),
    ensures
        c.risk_update_spec(caller, u) == Err::<RiskConfig, ProtocolError>(
            ProtocolError::ParameterChangeTooLarge,
        ),
{
}

/// Pause switches after applying `switches` in order.
pub open spec fn apply_switches(p: PauseSwitches, switches: Seq<(Operation, bool)>) -> PauseSwitches
    decreases switches.len(),
{
    if switches.len() == 0 {
        p
    } else {
        let (op, value) = switches.last();
        apply_switches(p, switches.drop_last()).set_spec(op, value)
    }
}

} // verus!
