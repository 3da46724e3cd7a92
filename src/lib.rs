// Accounting core of a collateralized-credit protocol: interest accrual,
// oracle price validation, position health, liquidation, and a prepaid
// spending ledger with holds and rolling limits.
pub mod config;
pub mod constants;
pub mod debit_account;
pub mod errors;
pub mod instructions;
pub mod oracle;
pub mod types;
pub mod user_position;
pub mod utils;
