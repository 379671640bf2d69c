//! Risk parameters: validation of governed changes and the liquidation calculator.

use vstd::prelude::*;
use vstd::arithmetic::div_mod::{
    lemma_div_is_ordered, lemma_div_is_ordered_by_denominator, lemma_div_multiples_vanish_quotient,
};
use vstd::arithmetic::mul::lemma_mul_inequality;
use crate::math::{collateral_ratio, ratio_overflows, ratio_spec, BASIS_POINTS};
use crate::types::ProtocolError;

verus! {

/// Protocol-wide risk configuration, every field in basis points.
#[derive(Clone, Copy, Debug, PartialEq, Eq, Structural)]
pub struct RiskConfig {
    pub min_collateral_ratio: i128,
    pub liquidation_threshold: i128,
    pub close_factor: i128,
    pub liquidation_incentive: i128,
}

/// The four fields of a parameter change; `None` keeps the current value.
#[derive(Clone, Copy, Debug, PartialEq, Eq, Structural)]
pub struct RiskParamsUpdate {
    pub min_collateral_ratio: Option<i128>,
    pub liquidation_threshold: Option<i128>,
    pub close_factor: Option<i128>,
    pub liquidation_incentive: Option<i128>,
}

/// Value of a field after an optional change.
pub open spec fn updated(old: i128, new: Option<i128>) -> i128 {
    match new {
        Some(v) => v,
        None => old,
    }
}

/// A governed step may move a field by at most a tenth of its current value,
/// the tenth computed as `old * 1000 / 10000`, rounded down.
pub open spec fn step_too_large(old: i128, new: Option<i128>) -> bool {
    match new {
        Some(v) => {
            let limit = old * 1000 / 10_000;
            v - old > limit || old - v > limit
        },
        None => false,
    }
}

impl RiskConfig {
    /// The cross-field and absolute bounds every configuration keeps.
    pub open spec fn valid(self) -> bool {
        &&& self.min_collateral_ratio >= 10_000
        &&& self.liquidation_threshold >= 10_000
        &&& self.min_collateral_ratio > self.liquidation_threshold
        &&& 0 <= self.close_factor <= 10_000
        &&& 0 <= self.liquidation_incentive <= 5_000
    }

    pub open spec fn default_spec() -> RiskConfig {
        RiskConfig {
            min_collateral_ratio: 11_000,
            liquidation_threshold: 10_500,
            close_factor: 5_000,
            liquidation_incentive: 1_000,
        }
    }

    /// The configuration installed when risk management is initialised:
    /// 110% minimum ratio, 105% liquidation threshold, 50% close factor,
    /// 10% liquidation incentive.
    pub fn default_config() -> (c: RiskConfig)
        ensures
            c == RiskConfig::default_spec(),
            c.valid(),
    {
        RiskConfig {
            min_collateral_ratio: 11_000,
            liquidation_threshold: 10_500,
            close_factor: 5_000,
            liquidation_incentive: 1_000,
        }
    }

    pub open spec fn uninitialized_spec() -> RiskConfig {
        RiskConfig { min_collateral_ratio: 15_000, ..RiskConfig::default_spec() }
    }

    /// The rules positions are held to before risk management is initialised:
    /// the default configuration with a conservative 150% minimum ratio.
    pub fn uninitialized_config() -> (c: RiskConfig)
        ensures
            c == RiskConfig::uninitialized_spec(),
            c.valid(),
    {
        RiskConfig { min_collateral_ratio: 15_000, ..RiskConfig::default_config() }
    }

    /// The configuration an update asks for, before any validation.
    pub open spec fn apply_spec(self, u: RiskParamsUpdate) -> RiskConfig {
        RiskConfig {
            min_collateral_ratio: updated(self.min_collateral_ratio, u.min_collateral_ratio),
            liquidation_threshold: updated(self.liquidation_threshold, u.liquidation_threshold),
            close_factor: updated(self.close_factor, u.close_factor),
            liquidation_incentive: updated(self.liquidation_incentive, u.liquidation_incentive),
        }
    }

    /// Whether some provided field moves by more than the governed step.
    pub open spec fn any_step_too_large(self, u: RiskParamsUpdate) -> bool {
        ||| step_too_large(self.min_collateral_ratio, u.min_collateral_ratio)
        ||| step_too_large(self.liquidation_threshold, u.liquidation_threshold)
        ||| step_too_large(self.close_factor, u.close_factor)
        ||| step_too_large(self.liquidation_incentive, u.liquidation_incentive)
    }

    /// Whether some field of the resulting configuration breaks its absolute bound.
    pub open spec fn breaks_bounds(c: RiskConfig) -> bool {
        ||| c.min_collateral_ratio < 10_000
        ||| c.liquidation_threshold < 10_000
        ||| c.close_factor < 0
        ||| c.close_factor > 10_000
        ||| c.liquidation_incentive < 0
        ||| c.liquidation_incentive > 5_000
    }

    /// Outcome of a parameter change: the step limit first, then the
    /// absolute bounds, then the ordering of the two ratios.
    pub open spec fn update_spec(self, u: RiskParamsUpdate) -> Result<RiskConfig, ProtocolError> {
        let c = self.apply_spec(u);
        if self.any_step_too_large(u) {
            Err(ProtocolError::ParameterChangeTooLarge)
        } else if RiskConfig::breaks_bounds(c) {
            Err(ProtocolError::InvalidParameter)
        } else if c.min_collateral_ratio <= c.liquidation_threshold {
            Err(ProtocolError::InvalidConfiguration)
        } else {
            Ok(c)
        }
    }

    /// Validates a partial parameter change against this configuration and
    /// returns the configuration it leads to.
    pub fn apply_update(&self, u: RiskParamsUpdate) -> (r: Result<RiskConfig, ProtocolError>)
        requires
            self.valid(),
        ensures
            r == self.update_spec(u),
            r matches Ok(c) ==> c.valid(),
    {
        if step_exceeds(self.min_collateral_ratio, u.min_collateral_ratio)
            || step_exceeds(self.liquidation_threshold, u.liquidation_threshold)
            || step_exceeds(self.close_factor, u.close_factor)
            || step_exceeds(self.liquidation_incentive, u.liquidation_incentive)
        {
            return Err(ProtocolError::ParameterChangeTooLarge);
        }
        let c = RiskConfig {
            min_collateral_ratio: take_update(self.min_collateral_ratio, u.min_collateral_ratio),
            liquidation_threshold: take_update(self.liquidation_threshold, u.liquidation_threshold),
            close_factor: take_update(self.close_factor, u.close_factor),
            liquidation_incentive: take_update(self.liquidation_incentive, u.liquidation_incentive),
        };
        if c.min_collateral_ratio < 10_000 || c.liquidation_threshold < 10_000 || c.close_factor < 0
            || c.close_factor > 10_000 || c.liquidation_incentive < 0
            || c.liquidation_incentive > 5_000
        {
            return Err(ProtocolError::InvalidParameter);
        }
        if c.min_collateral_ratio <= c.liquidation_threshold {
            return Err(ProtocolError::InvalidConfiguration);
        }
        Ok(c)
    }

    /// Whether a position with this collateral and debt may be liquidated:
    /// never without debt, otherwise exactly when its ratio is strictly
    /// below the liquidation threshold.
    pub fn can_be_liquidated(&self, collateral: i128, debt: i128) -> (r: Result<bool, ProtocolError>)
        requires
            collateral >= 0,
            debt >= 0,
        ensures
            ratio_overflows(collateral as int, debt as int) ==> r == Err::<bool, _>(
                ProtocolError::Overflow,
            ),
            !ratio_overflows(collateral as int, debt as int) ==> r == Ok::<bool, ProtocolError>(
                debt > 0 && ratio_spec(collateral as int, debt as int) < self.liquidation_threshold,
            ),
    {
        if debt == 0 {
            return Ok(false);
        }
        let ratio = collateral_ratio(collateral, debt)?;
        Ok(ratio < self.liquidation_threshold)
    }

    /// Checks that a position meets the minimum collateral ratio; a position
    /// without debt always does.
    pub fn require_min_collateral_ratio(&self, collateral: i128, debt: i128) -> (r: Result<(), ProtocolError>)
        requires
            collateral >= 0,
            debt >= 0,
        ensures
            ratio_overflows(collateral as int, debt as int) ==> r == Err::<(), _>(
                ProtocolError::Overflow,
            ),
            !ratio_overflows(collateral as int, debt as int) ==> (r == if debt > 0 && ratio_spec(
                collateral as int,
                debt as int,
            ) < self.min_collateral_ratio {
                Err::<(), ProtocolError>(ProtocolError::InsufficientCollateralRatio)
            } else {
                Ok(())
            }),
    {
        if debt == 0 {
            return Ok(());
        }
        let ratio = collateral_ratio(collateral, debt)?;
        if ratio < self.min_collateral_ratio {
            Err(ProtocolError::InsufficientCollateralRatio)
        } else {
            Ok(())
        }
    }

    /// Largest part of a debt one liquidation may repay: `debt * close_factor / 10000`.
    pub fn max_liquidatable_amount(&self, debt: i128) -> (r: Result<i128, ProtocolError>)
        requires
            self.valid(),
            debt >= 0,
        ensures
            debt * self.close_factor > i128::MAX ==> r == Err::<i128, _>(ProtocolError::Overflow),
            debt * self.close_factor <= i128::MAX ==> r == Ok::<i128, ProtocolError>(
                (debt * self.close_factor / 10_000) as i128,
            ),
    {
        bps_share(debt, self.close_factor)
    }

    /// Bonus paid to a liquidator: `amount * liquidation_incentive / 10000`.
    pub fn liquidation_incentive_amount(&self, amount: i128) -> (r: Result<i128, ProtocolError>)
        requires
            self.valid(),
            amount >= 0,
        ensures
            amount * self.liquidation_incentive > i128::MAX ==> r == Err::<i128, _>(
                ProtocolError::Overflow,
            ),
            amount * self.liquidation_incentive <= i128::MAX ==> r == Ok::<i128, ProtocolError>(
                (amount * self.liquidation_incentive / 10_000) as i128,
            ),
    {
        bps_share(amount, self.liquidation_incentive)
    }
}

/// `amount * bps / 10000` for non-negative operands.
fn bps_share(amount: i128, bps: i128) -> (r: Result<i128, ProtocolError>)
    requires
        amount >= 0,
        bps >= 0,
    ensures
        amount * bps > i128::MAX ==> r == Err::<i128, _>(ProtocolError::Overflow),
        amount * bps <= i128::MAX ==> r == Ok::<i128, ProtocolError>((amount * bps / 10_000) as i128),
{
    match amount.checked_mul(bps) {
        None => Err(ProtocolError::Overflow),
        Some(v) => {
            proof {
                lemma_mul_inequality(0, amount as int, bps as int);
                lemma_div_is_ordered(v as int, v as int * 10_000, 10_000);
            }
            Ok(v / BASIS_POINTS)
        },
    }
}

/// Whether an optional new value moves `old` by more than a tenth of it.
fn step_exceeds(old: i128, new: Option<i128>) -> (r: bool)
    requires
        old >= 0,
    ensures
        r == step_too_large(old, new),
{
    match new {
        None => false,
        Some(v) => {
            let limit = old / 10;
            assert(limit == old * 1000 / 10_000 && 0 <= limit <= old) by {
                lemma_div_multiples_vanish_quotient(1000, old as int, 10);
                lemma_div_is_ordered_by_denominator(old as int, 1, 10);
            }
            if v >= old {
                v - old > limit
            } else {
                v < old - limit
            }
        },
    }
}

fn take_update(old: i128, new: Option<i128>) -> (r: i128)
    ensures
        r == updated(old, new),
{
    match new {
        Some(v) => v,
        None => old,
    }
}

} // verus!
