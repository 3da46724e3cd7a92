pub mod admin_set_params;
pub mod admin_set_paused;
pub mod debit_deposit;
pub mod debit_release;
pub mod debit_settle;
pub mod debit_spend;
pub mod deposit_collateral;
pub mod deposit_collateral_wsol;
pub mod init_position;
pub mod initialize;
pub mod liquidate;
pub mod record_debt;
pub mod repay_usdc;
pub mod withdraw_collateral;
