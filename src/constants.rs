use vstd::prelude::*;

verus! {

/// Default maximum loan-to-value ratio (50%).
pub const DEFAULT_LTV_MAX_BPS: u16 = 5000;

/// Default liquidation threshold (60%).
pub const DEFAULT_LIQUIDATION_THRESHOLD_BPS: u16 = 6000;

/// Default liquidation bonus (6%).
pub const DEFAULT_LIQUIDATION_BONUS_BPS: u16 = 600;

/// Default annual interest rate (12%).
pub const DEFAULT_INTEREST_RATE_BPS: u16 = 1200;

/// Largest value of a risk parameter given in basis points (100%).
pub const MAX_BPS: u16 = 10000;

/// Largest liquidation bonus (20%).
pub const MAX_LIQUIDATION_BONUS_BPS: u16 = 2000;

/// Health factor that a position must keep after a voluntary withdrawal (1.10).
pub const HEALTH_FACTOR_BUFFER_BPS: u64 = 11000;

/// Largest confidence interval of an oracle price, relative to the price (2%).
pub const MAX_CONFIDENCE_DEVIATION_BPS: u64 = 200;

/// Largest number of slots by which an oracle price may lag behind the clock.
pub const MAX_ORACLE_STALENESS_SLOTS: u64 = 30;

/// Basis-point denominator: 10_000 bps is 100% (and a health factor of 1.0).
pub const BPS_PRECISION: u64 = 10000;

/// One in the borrow index's fixed-point representation (27 decimals).
pub const RAY_PRECISION: u128 = 1_000_000_000_000_000_000_000_000_000;

/// Length of the interest year: 365 days.
pub const SECONDS_PER_YEAR: u64 = 31_536_000;

/// Length of the daily spending window.
pub const SECONDS_PER_DAY: i64 = 86400;

/// Length of the monthly spending window (30 days).
pub const SECONDS_PER_MONTH: i64 = 2592000;

/// Decimals of the borrowed stable asset and of every price.
pub const USDC_DECIMALS: u8 = 6;

/// Decimals of SOL-based collateral.
pub const SOL_DECIMALS: u8 = 9;

/// Decimals of jitoSOL collateral.
pub const JITO_SOL_DECIMALS: u8 = 9;

/// Units of collateral in one whole collateral token (10^9).
pub const COLLATERAL_UNIT: u128 = 1_000_000_000;

/// Smallest collateral deposit (0.1 SOL).
pub const MIN_DEPOSIT_AMOUNT: u64 = 100_000_000;

/// Smallest repayment (1 USDC).
pub const MIN_REPAY_AMOUNT: u64 = 1_000_000;

/// Daily spending limit of a new debit account ($1,000).
pub const DEFAULT_DAILY_LIMIT: u64 = 1_000_000_000;

/// Monthly spending limit of a new debit account ($10,000).
pub const DEFAULT_MONTHLY_LIMIT: u64 = 10_000_000_000;

/// Price used when the oracle cannot be read and the fallback is allowed ($100).
pub const MOCK_SOL_PRICE: u64 = 100_000_000;

/// Lower bound, exclusive, of a plausible SOL price ($10).
pub const MIN_SANE_PRICE: i64 = 10_000_000;

/// Upper bound, exclusive, of a plausible SOL price ($10,000).
pub const MAX_SANE_PRICE: i64 = 10_000_000_000;

/// jitoSOL mint address, in its usual text form.
pub const JITO_SOL_MINT: &'static str = "J1toso1uCk3RLmjorhTtrVwY9HJ7X8V9yYac6Y7kGCPn";

/// Wrapped SOL mint address, in its usual text form.
pub const WSOL_MINT: &'static str = "So11111111111111111111111111111111111111112";

} // verus!
