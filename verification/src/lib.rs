//! A governed fungible-value ledger overlay.
//!
//! The crate manages a single mutable policy record that controls a tax on
//! value transfers, and an atomic transfer-with-deduction operation that
//! routes a fixed share of every taxed amount to three beneficiary accounts.
//!
//! The account-balance ledger itself is an external collaborator: the engine
//! consumes it through a single move primitive. [`ledger::Ledger`] models
//! that collaborator as a keyed balance store, so the engine's behaviour is
//! proved against it end to end.

use vstd::prelude::*;

pub mod config;
pub mod engine;
pub mod ledger;

verus! {

/// Total token supply: 100 million units at 9 decimals.
pub const TOTAL_SUPPLY: u64 = 100_000_000 * 1_000_000_000;

/// Number of decimals of the underlying unit.
pub const DECIMALS: u8 = 9;

/// Launch default sell tax: 500 basis points (5%).
pub const SELL_TAX_BPS: u16 = 500;

/// Launch default transfer tax: 500 basis points (5%).
pub const TRANSFER_TAX_BPS: u16 = 500;

/// Basis-point denominator: 10000 bps = 100%.
pub const BPS_DENOMINATOR: u16 = 10000;

/// Treasury share of collected tax: 200 of the 500-bps base scale (2/5).
pub const TREASURY_BPS: u16 = 200;

/// Liquidity share of collected tax: 200 of the 500-bps base scale (2/5).
pub const LIQUIDITY_BPS: u16 = 200;

/// Marketing share of collected tax: 100 of the 500-bps base scale (1/5).
pub const MARKETING_BPS: u16 = 100;

/// Hard ceiling on configurable tax rates: 1000 bps = 10%.
pub const MAX_TAX_BPS: u16 = 1000;

} // verus!
