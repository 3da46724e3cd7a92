use vstd::prelude::*;
use crate::config::{Config, InitializeParams};
use crate::constants::{MAX_BPS, MAX_LIQUIDATION_BONUS_BPS, RAY_PRECISION};
use crate::errors::CreditError;
use crate::types::{Address, Clock};

verus! {

/// Whether `params` hold risk parameters in range with the loan-to-value
/// ratio below the liquidation threshold.
pub open spec fn params_valid(params: InitializeParams) -> bool {
    &&& params.ltv_max_bps <= MAX_BPS
    &&& params.liquidation_threshold_bps <= MAX_BPS
    &&& params.liquidation_bonus_bps <= MAX_LIQUIDATION_BONUS_BPS
    &&& params.interest_rate_bps <= MAX_BPS
    &&& params.ltv_max_bps < params.liquidation_threshold_bps
}

/// Creates the configuration of a new deployment administered by `admin`:
/// running, with the given parameters, an index of one updated at `clock`,
/// and zero totals. Out-of-range or misordered parameters fail with
/// `InvalidPercentage`.
pub fn handler(admin: &Address, params: &InitializeParams, clock: &Clock) -> (r: Result<Config, CreditError>)
    ensures
        params_valid(*params) <==> r is Ok,
        !params_valid(*params) ==> r == Err::<Config, CreditError>(CreditError::InvalidPercentage),
        r matches Ok(c) ==> {
            &&& c.wf()
            &&& c == Config {
                admin: *admin,
                paused: false,
                ltv_max_bps: params.ltv_max_bps,
                liquidation_threshold_bps: params.liquidation_threshold_bps,
                liquidation_bonus_bps: params.liquidation_bonus_bps,
                interest_rate_bps: params.interest_rate_bps,
                sol_usd_oracle: params.sol_usd_oracle,
                jito_sol_usd_oracle: params.jito_sol_usd_oracle,
                usdc_mint: params.usdc_mint,
                jito_sol_mint: params.jito_sol_mint,
                wsol_mint: params.wsol_mint,
                global_borrow_index: RAY_PRECISION,
                last_update_timestamp: clock.unix_timestamp,
                total_debt_usdc: 0,
                total_collateral: 0,
                enforce_credit_limit: false,
            }
        },
{
    if params.ltv_max_bps > MAX_BPS || params.liquidation_threshold_bps > MAX_BPS
        || params.liquidation_bonus_bps > MAX_LIQUIDATION_BONUS_BPS || params.interest_rate_bps
        > MAX_BPS || params.ltv_max_bps >= params.liquidation_threshold_bps {
        return Err(CreditError::InvalidPercentage);
    }
    Ok(
        Config {
            admin: *admin,
            paused: false,
            ltv_max_bps: params.ltv_max_bps,
            liquidation_threshold_bps: params.liquidation_threshold_bps,
            liquidation_bonus_bps: params.liquidation_bonus_bps,
            interest_rate_bps: params.interest_rate_bps,
            sol_usd_oracle: params.sol_usd_oracle,
            jito_sol_usd_oracle: params.jito_sol_usd_oracle,
            usdc_mint: params.usdc_mint,
            jito_sol_mint: params.jito_sol_mint,
            wsol_mint: params.wsol_mint,
            global_borrow_index: RAY_PRECISION,
            last_update_timestamp: clock.unix_timestamp,
            total_debt_usdc: 0,
            total_collateral: 0,
            enforce_credit_limit: false,
        },
    )
}

} // verus!
