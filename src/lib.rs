//! Accounting and risk-control core of a collateralised lending protocol.
//!
//! The crate keeps per-user positions, governs the protocol's risk
//! parameters, computes collateral ratios, interest and liquidation bounds,
//! and aggregates analytics over a bounded activity log. Storage, the clock,
//! caller authentication and token settlement belong to the host: every
//! operation here receives their outcome as plain values.

pub mod types;
pub mod math;
pub mod risk;
pub mod activity;
pub mod analytics;
pub mod contract;
