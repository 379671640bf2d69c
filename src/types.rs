//! Plain data shared by the ledger, the risk engine and the analytics.

use vstd::prelude::*;

verus! {

/// Identity of an account (a user or the admin) as the host authenticates it.
pub type AccountId = u64;

/// The asset a transaction moves: the chain's native coin or a token contract.
#[derive(Clone, Copy, Debug, PartialEq, Eq, Structural)]
pub enum Asset {
    Native,
    Token(u64),
}

/// Per-user borrowing position.
///
/// `collateral`, `debt` and `accrued_interest` are never negative in a
/// well-formed ledger (see [`Position::valid`]).
#[derive(Clone, Copy, Debug, PartialEq, Eq, Structural)]
pub struct Position {
    pub collateral: i128,
    pub debt: i128,
    pub accrued_interest: i128,
    pub last_accrual_time: u64,
}

impl Position {
    pub open spec fn valid(self) -> bool {
        &&& self.collateral >= 0
        &&& self.debt >= 0
        &&& self.accrued_interest >= 0
    }

    /// Principal plus accrued interest.
    pub open spec fn owed(self) -> int {
        self.debt + self.accrued_interest
    }

    /// The position a user has before any transaction.
    pub fn empty(now: u64) -> (p: Position)
        ensures
            p == Position::empty_spec(now),
            p.valid(),
    {
        Position { collateral: 0, debt: 0, accrued_interest: 0, last_accrual_time: now }
    }

    pub open spec fn empty_spec(now: u64) -> Position {
        Position { collateral: 0, debt: 0, accrued_interest: 0, last_accrual_time: now }
    }
}

/// Deposit rules of a token used as collateral.
#[derive(Clone, Copy, Debug, PartialEq, Eq, Structural)]
pub struct AssetParams {
    pub deposit_enabled: bool,
    /// Share of the collateral that counts towards borrowing, in basis points.
    pub collateral_factor: i128,
    /// Largest collateral balance a deposit may reach; zero means unlimited.
    pub max_deposit: i128,
}

impl AssetParams {
    pub open spec fn valid(self) -> bool {
        &&& 0 <= self.collateral_factor <= 10_000
        &&& self.max_deposit >= 0
    }

    /// Rules of an asset that has none registered: the native coin, or a token
    /// the admin never configured.
    pub fn unrestricted() -> (p: AssetParams)
        ensures
            p == AssetParams::unrestricted_spec(),
            p.valid(),
    {
        AssetParams { deposit_enabled: true, collateral_factor: 10_000, max_deposit: 0 }
    }

    pub open spec fn unrestricted_spec() -> AssetParams {
        AssetParams { deposit_enabled: true, collateral_factor: 10_000, max_deposit: 0 }
    }
}

/// The state-changing operations a pause switch can stop.
#[derive(Clone, Copy, Debug, PartialEq, Eq, Structural)]
pub enum Operation {
    Deposit,
    Withdraw,
    Borrow,
    Repay,
    Liquidate,
}

/// Kind of a logged transaction.
#[derive(Clone, Copy, Debug, PartialEq, Eq, Structural)]
pub enum ActivityKind {
    Deposit,
    Withdraw,
    Borrow,
    Repay,
}

/// Failures of the ledger and of governance.
#[derive(Clone, Copy, Debug, PartialEq, Eq, Structural)]
pub enum ProtocolError {
    InvalidAmount,
    InvalidParameter,
    InvalidConfiguration,
    ParameterChangeTooLarge,
    Unauthorized,
    AssetNotEnabled,
    InsufficientBalance,
    InsufficientCollateral,
    InsufficientCollateralRatio,
    MaxBorrowExceeded,
    NoDebt,
    DepositPaused,
    WithdrawPaused,
    BorrowPaused,
    RepayPaused,
    LiquidatePaused,
    EmergencyPaused,
    DataNotFound,
    Overflow,
}

} // verus!
