use vstd::prelude::*;
use crate::config::{Config, UpdateParams};
use crate::constants::{MAX_BPS, MAX_LIQUIDATION_BONUS_BPS};
use crate::errors::CreditError;
use crate::types::Address;

verus! {

/// The configuration after `params`, applied field by field in declaration
/// order, each risk parameter checked against the values current at its turn.
pub open spec fn set_params_spec(config: Config, params: UpdateParams) -> Result<Config, CreditError> {
    let ltv_ok = match params.ltv_max_bps {
        Some(v) => v <= MAX_BPS && v < config.liquidation_threshold_bps,
        None => true,
    };
    let c1 = match params.ltv_max_bps {
        Some(v) => Config { ltv_max_bps: v, ..config },
        None => config,
    };
    let threshold_ok = match params.liquidation_threshold_bps {
        Some(v) => v <= MAX_BPS && v > c1.ltv_max_bps,
        None => true,
    };
    let c2 = match params.liquidation_threshold_bps {
        Some(v) => Config { liquidation_threshold_bps: v, ..c1 },
        None => c1,
    };
    let bonus_ok = match params.liquidation_bonus_bps {
        Some(v) => v <= MAX_LIQUIDATION_BONUS_BPS,
        None => true,
    };
    let rate_ok = match params.interest_rate_bps {
        Some(v) => v <= MAX_BPS,
        None => true,
    };
    if !ltv_ok || !threshold_ok || !bonus_ok || !rate_ok {
        Err(CreditError::InvalidPercentage)
    } else {
        Ok(
            Config {
                liquidation_bonus_bps: match params.liquidation_bonus_bps {
                    Some(v) => v,
                    None => c2.liquidation_bonus_bps,
                },
                interest_rate_bps: match params.interest_rate_bps {
                    Some(v) => v,
                    None => c2.interest_rate_bps,
                },
                sol_usd_oracle: match params.sol_usd_oracle {
                    Some(v) => v,
                    None => c2.sol_usd_oracle,
                },
                jito_sol_usd_oracle: match params.jito_sol_usd_oracle {
                    Some(v) => v,
                    None => c2.jito_sol_usd_oracle,
                },
                admin: match params.new_admin {
                    Some(v) => v,
                    None => c2.admin,
                },
                enforce_credit_limit: match params.enforce_credit_limit {
                    Some(v) => v,
                    None => c2.enforce_credit_limit,
                },
                ..c2
            },
        )
    }
}

/// Applies the given parameter changes; only the configured admin may.
/// Each risk parameter must be in range, the loan-to-value ratio staying
/// below the liquidation threshold; any failure applies nothing.
pub fn handler(config: &mut Config, admin: &Address, params: &UpdateParams) -> (r: Result<(), CreditError>)
    ensures
        admin@ != old(config).admin@ ==> r == Err::<(), CreditError>(CreditError::Unauthorized)
            && *final(config) == *old(config),
        admin@ == old(config).admin@ ==> match set_params_spec(*old(config), *params) {
            Ok(c) => r is Ok && *final(config) == c,
            Err(e) => r == Err::<(), CreditError>(e) && *final(config) == *old(config),
        },
        old(config).wf() ==> final(config).wf(),
{
    if *admin != config.admin {
        return Err(CreditError::Unauthorized);
    }
    let mut cfg = *config;
    if let Some(ltv_max_bps) = params.ltv_max_bps {
        if ltv_max_bps > MAX_BPS || ltv_max_bps >= cfg.liquidation_threshold_bps {
            return Err(CreditError::InvalidPercentage);
        }
        cfg.ltv_max_bps = ltv_max_bps;
    }
    if let Some(liquidation_threshold_bps) = params.liquidation_threshold_bps {
        if liquidation_threshold_bps > MAX_BPS || liquidation_threshold_bps <= cfg.ltv_max_bps {
            return Err(CreditError::InvalidPercentage);
        }
        cfg.liquidation_threshold_bps = liquidation_threshold_bps;
    }
    if let Some(liquidation_bonus_bps) = params.liquidation_bonus_bps {
        if liquidation_bonus_bps > MAX_LIQUIDATION_BONUS_BPS {
            return Err(CreditError::InvalidPercentage);
        }
        cfg.liquidation_bonus_bps = liquidation_bonus_bps;
    }
    if let Some(interest_rate_bps) = params.interest_rate_bps {
        if interest_rate_bps > MAX_BPS {
            return Err(CreditError::InvalidPercentage);
        }
        cfg.interest_rate_bps = interest_rate_bps;
    }
    if let Some(sol_usd_oracle) = params.sol_usd_oracle {
        cfg.sol_usd_oracle = sol_usd_oracle;
    }
    if let Some(jito_sol_usd_oracle) = params.jito_sol_usd_oracle {
        cfg.jito_sol_usd_oracle = jito_sol_usd_oracle;
    }
    if let Some(new_admin) = params.new_admin {
        cfg.admin = new_admin;
    }
    if let Some(enforce_credit_limit) = params.enforce_credit_limit {
        cfg.enforce_credit_limit = enforce_credit_limit;
    }
    *config = cfg;
    Ok(())
}

} // verus!
