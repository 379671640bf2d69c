//! Interest and ratio engine: pure integer arithmetic over basis points.

use vstd::prelude::*;
use vstd::arithmetic::div_mod::{
    lemma_div_is_ordered, lemma_div_is_ordered_by_denominator, lemma_div_multiples_vanish,
    lemma_div_multiples_vanish_quotient, lemma_fundamental_div_mod,
};
use vstd::arithmetic::mul::lemma_mul_inequality;
use crate::types::{Position, ProtocolError};

verus! {

/// 100% in basis points.
pub const BASIS_POINTS: i128 = 10_000;

/// Length of the year over which an annual rate is spread.
pub const SECONDS_PER_YEAR: i128 = 31_536_000;

/// Annual borrow rate at zero utilisation, in basis points.
pub const BASE_BORROW_RATE: i128 = 200;

/// `a + b`, held at `i128::MAX` instead of overflowing.
pub open spec fn sat_add_spec(a: int, b: int) -> int {
    if a + b > i128::MAX { i128::MAX as int } else { a + b }
}

/// `a - b`, held at zero instead of going negative.
pub open spec fn floor_sub_spec(a: int, b: int) -> int {
    if a > b { a - b } else { 0 }
}

/// Adds two non-negative counters, saturating at `i128::MAX`.
pub fn sat_add(a: i128, b: i128) -> (r: i128)
    requires
        a >= 0,
        b >= 0,
    ensures
        r == sat_add_spec(a as int, b as int),
{
    match a.checked_add(b) {
        Some(s) => s,
        None => i128::MAX,
    }
}

/// Subtracts `b` from a counter, never going below zero.
pub fn floor_sub(a: i128, b: i128) -> (r: i128)
    requires
        a >= 0,
        b >= 0,
    ensures
        r == floor_sub_spec(a as int, b as int),
{
    if a > b { a - b } else { 0 }
}

/// Collateral ratio in basis points: `i128::MAX` when there is no debt.
pub open spec fn ratio_spec(collateral: int, debt: int) -> int {
    if debt == 0 { i128::MAX as int } else { collateral * 10_000 / debt }
}

/// Whether computing the ratio overflows the 128-bit width.
pub open spec fn ratio_overflows(collateral: int, debt: int) -> bool {
    debt != 0 && collateral * 10_000 > i128::MAX
}

/// `collateral * 10000 / debt`, or `i128::MAX` when `debt` is zero.
pub fn collateral_ratio(collateral: i128, debt: i128) -> (r: Result<i128, ProtocolError>)
    requires
        collateral >= 0,
        debt >= 0,
    ensures
        ratio_overflows(collateral as int, debt as int) ==> r == Err::<i128, _>(
            ProtocolError::Overflow,
        ),
        !ratio_overflows(collateral as int, debt as int) ==> r == Ok::<i128, ProtocolError>(
            ratio_spec(collateral as int, debt as int) as i128,
        ),
{
    if debt == 0 {
        return Ok(i128::MAX);
    }
    match collateral.checked_mul(BASIS_POINTS) {
        None => Err(ProtocolError::Overflow),
        Some(scaled) => {
            assert(scaled / debt <= scaled) by {
                lemma_div_is_ordered_by_denominator(scaled as int, 1, debt as int);
            }
            Ok(scaled / debt)
        },
    }
}

/// The ratio never increases when the debt grows and the collateral stays.
pub proof fn lemma_collateral_ratio_antitone(collateral: int, d1: int, d2: int)
    requires
        collateral >= 0,
        0 <= d1 <= d2,
        collateral * 10_000 <= i128::MAX,
    ensures
        ratio_spec(collateral, d2) <= ratio_spec(collateral, d1),
{
    if d1 > 0 {
        lemma_div_is_ordered_by_denominator(collateral * 10_000, d1, d2);
    } else if d2 > 0 {
        lemma_div_is_ordered_by_denominator(collateral * 10_000, 1, d2);
    }
}

/// Annual borrow rate for a utilisation given in basis points.
pub open spec fn borrow_rate_spec(utilization: int) -> int {
    200 + utilization * 10 / 10_000
}

/// `200 + utilization * 10 / 10000`: the annual rate that interest accrues at.
pub fn borrow_rate(utilization: i128) -> (r: i128)
    requires
        utilization >= 0,
    ensures
        r == borrow_rate_spec(utilization as int),
        r >= BASE_BORROW_RATE,
{
    assert(utilization * 10 / 10_000 == utilization / 1000) by {
        lemma_div_multiples_vanish_quotient(10, utilization as int, 1000);
    }
    assert(utilization / 1000 <= utilization) by {
        lemma_div_is_ordered_by_denominator(utilization as int, 1, 1000);
    }
    BASE_BORROW_RATE + utilization / 1000
}

/// Seconds between the last accrual and `now`; zero if the clock has not moved on.
pub open spec fn elapsed_spec(last: u64, now: u64) -> int {
    if now > last { now - last } else { 0 }
}

/// Interest on `debt` at an annual `rate` (basis points) over `elapsed` seconds.
pub open spec fn interest_spec(debt: int, rate: int, elapsed: int) -> int {
    debt * rate * elapsed / 315_360_000_000int
}

/// Whether accruing interest on the position overflows.
pub open spec fn accrual_overflows(p: Position, rate: int, now: u64) -> bool {
    let e = elapsed_spec(p.last_accrual_time, now);
    ||| p.debt * rate > i128::MAX
    ||| p.debt * rate * e > i128::MAX
    ||| p.accrued_interest + interest_spec(p.debt as int, rate, e) > i128::MAX
}

/// The position after interest accrues up to `now`.
pub open spec fn accrued_spec(p: Position, rate: int, now: u64) -> Position {
    Position {
        accrued_interest: (p.accrued_interest + interest_spec(
            p.debt as int,
            rate,
            elapsed_spec(p.last_accrual_time, now),
        )) as i128,
        last_accrual_time: now,
        ..p
    }
}

/// Adds the interest that `debt` earned since the last accrual, prorated
/// linearly from the annual `rate`, and moves the accrual time to `now`.
pub fn accrue_interest(p: Position, rate: i128, now: u64) -> (r: Result<Position, ProtocolError>)
    requires
        p.valid(),
        rate >= 0,
    ensures
        accrual_overflows(p, rate as int, now) ==> r == Err::<Position, _>(ProtocolError::Overflow),
        !accrual_overflows(p, rate as int, now) ==> r == Ok::<Position, ProtocolError>(
            accrued_spec(p, rate as int, now),
        ),
        r matches Ok(q) ==> q.valid(),
{
    let elapsed: i128 = if now > p.last_accrual_time {
        (now - p.last_accrual_time) as i128
    } else {
        0
    };
    let per_year = match p.debt.checked_mul(rate) {
        Some(v) => v,
        None => return Err(ProtocolError::Overflow),
    };
    let scaled = match per_year.checked_mul(elapsed) {
        Some(v) => v,
        None => return Err(ProtocolError::Overflow),
    };
    proof {
        lemma_mul_inequality(0, p.debt as int, rate as int);
        lemma_mul_inequality(0, per_year as int, elapsed as int);
    }
    let interest = scaled / (BASIS_POINTS * SECONDS_PER_YEAR);
    let accrued = match p.accrued_interest.checked_add(interest) {
        Some(v) => v,
        None => return Err(ProtocolError::Overflow),
    };
    Ok(Position { accrued_interest: accrued, last_accrual_time: now, ..p })
}

/// Largest total debt that `collateral` supports:
/// `collateral * factor / 10000 * 10000 / min_ratio`.
pub open spec fn max_debt_spec(collateral: int, factor: int, min_ratio: int) -> int {
    collateral * factor / 10_000 * 10_000 / min_ratio
}

/// Borrow capacity of a collateral balance under a collateral factor and a
/// minimum collateral ratio, both in basis points.
pub fn max_total_debt(collateral: i128, factor: i128, min_ratio: i128) -> (r: Result<i128, ProtocolError>)
    requires
        collateral >= 0,
        0 <= factor <= 10_000,
        min_ratio >= 10_000,
    ensures
        collateral * factor > i128::MAX ==> r == Err::<i128, _>(ProtocolError::Overflow),
        collateral * factor <= i128::MAX ==> r == Ok::<i128, ProtocolError>(
            max_debt_spec(collateral as int, factor as int, min_ratio as int) as i128,
        ),
        r matches Ok(m) ==> 0 <= m <= collateral,
{
    let weighted = match collateral.checked_mul(factor) {
        Some(v) => v,
        None => return Err(ProtocolError::Overflow),
    };
    proof {
        lemma_mul_inequality(0, collateral as int, factor as int);
        lemma_mul_inequality(factor as int, 10_000, collateral as int);
        lemma_div_is_ordered(weighted as int, collateral * 10_000, 10_000);
        lemma_div_multiples_vanish(collateral as int, 10_000);
        lemma_fundamental_div_mod(weighted as int, 10_000);
    }
    let counted = weighted / BASIS_POINTS;
    let scaled = counted * BASIS_POINTS;
    proof {
        lemma_div_is_ordered(scaled as int, collateral * 10_000, min_ratio as int);
        lemma_div_is_ordered_by_denominator(collateral * 10_000, 10_000, min_ratio as int);
    }
    Ok(scaled / min_ratio)
}

/// How a repayment of `amount` splits: interest first, then principal.
pub open spec fn repay_split_spec(amount: int, interest: int, debt: int) -> (int, int) {
    let interest_paid = if amount < interest { amount } else { interest };
    let rest = amount - interest_paid;
    let principal_paid = if rest < debt { rest } else { debt };
    (interest_paid, principal_paid)
}

/// Splits a repayment into `(interest_paid, principal_paid)`: interest is
/// settled first, and what exceeds the total owed is not applied.
pub fn split_repayment(amount: i128, interest: i128, debt: i128) -> (r: (i128, i128))
    requires
        amount > 0,
        interest >= 0,
        debt >= 0,
    ensures
        r.0 == repay_split_spec(amount as int, interest as int, debt as int).0,
        r.1 == repay_split_spec(amount as int, interest as int, debt as int).1,
        0 <= r.0 <= interest,
        0 <= r.1 <= debt,
        r.0 + r.1 <= amount,
{
    let interest_paid = if amount < interest { amount } else { interest };
    let rest = amount - interest_paid;
    let principal_paid = if rest < debt { rest } else { debt };
    (interest_paid, principal_paid)
}

} // verus!
