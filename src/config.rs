use vstd::prelude::*;
use crate::constants::{MAX_BPS, MAX_LIQUIDATION_BONUS_BPS, RAY_PRECISION};
use crate::errors::CreditError;
use crate::types::Address;
use crate::utils::{accrue_result, calculate_borrow_index, elapsed_seconds};

verus! {

/// The protocol's single configuration record: risk parameters, trusted
/// identities, the global borrow index and protocol-wide totals.
#[derive(Clone, Copy, Debug)]
pub struct Config {
    /// Identity allowed to change risk parameters.
    pub admin: Address,
    /// When set, every operation but the admin ones fails.
    pub paused: bool,
    pub ltv_max_bps: u16,
    pub liquidation_threshold_bps: u16,
    pub liquidation_bonus_bps: u16,
    /// Annual interest rate.
    pub interest_rate_bps: u16,
    pub sol_usd_oracle: Address,
    pub jito_sol_usd_oracle: Address,
    pub usdc_mint: Address,
    pub jito_sol_mint: Address,
    pub wsol_mint: Address,
    /// Fixed-point (27 decimals) compounding index; starts at one.
    pub global_borrow_index: u128,
    pub last_update_timestamp: i64,
    pub total_debt_usdc: u64,
    pub total_collateral: u64,
    /// Whether recording debt is limited by the position's credit limit.
    pub enforce_credit_limit: bool,
}

/// Risk parameters and identities of a new deployment.
#[derive(Clone, Copy, Debug)]
pub struct InitializeParams {
    pub ltv_max_bps: u16,
    pub liquidation_threshold_bps: u16,
    pub liquidation_bonus_bps: u16,
    pub interest_rate_bps: u16,
    pub sol_usd_oracle: Address,
    pub jito_sol_usd_oracle: Address,
    pub usdc_mint: Address,
    pub jito_sol_mint: Address,
    pub wsol_mint: Address,
}

/// Parameter changes; only the fields given are applied.
#[derive(Clone, Copy, Debug)]
pub struct UpdateParams {
    pub ltv_max_bps: Option<u16>,
    pub liquidation_threshold_bps: Option<u16>,
    pub liquidation_bonus_bps: Option<u16>,
    pub interest_rate_bps: Option<u16>,
    pub sol_usd_oracle: Option<Address>,
    pub jito_sol_usd_oracle: Option<Address>,
    pub new_admin: Option<Address>,
    pub enforce_credit_limit: Option<bool>,
}

impl Config {
    /// The risk parameters are in range and ordered, and the index is at
    /// least one.
    pub open spec fn wf(self) -> bool {
        &&& self.ltv_max_bps < self.liquidation_threshold_bps
        &&& self.liquidation_threshold_bps <= MAX_BPS
        &&& self.liquidation_bonus_bps <= MAX_LIQUIDATION_BONUS_BPS
        &&& self.interest_rate_bps <= MAX_BPS
        &&& self.global_borrow_index >= RAY_PRECISION
    }

    /// The configuration with its index refreshed to `now`.
    pub open spec fn refreshed(self, now: i64) -> Result<Config, CreditError> {
        match accrue_result(
            self.global_borrow_index as int,
            self.interest_rate_bps as int,
            elapsed_seconds(self.last_update_timestamp, now),
        ) {
            Ok(index) => Ok(Config { global_borrow_index: index, last_update_timestamp: now, ..self }),
            Err(e) => Err(e),
        }
    }

    /// Accrues interest up to `now` and records `now` as the last update.
    /// On failure the configuration is left unchanged.
    pub fn refresh_index(&mut self, now: i64) -> (r: Result<(), CreditError>)
        ensures
            match old(self).refreshed(now) {
                Ok(c) => r is Ok && *final(self) == c,
                Err(e) => r == Err::<(), CreditError>(e) && *final(self) == *old(self),
            },
            r is Ok ==> final(self).global_borrow_index >= old(self).global_borrow_index,
    {
        let index = calculate_borrow_index(
            self.last_update_timestamp,
            now,
            self.global_borrow_index,
            self.interest_rate_bps,
        )?;
        proof {
            crate::utils::lemma_accrual_monotonic(
                self.global_borrow_index as int,
                self.interest_rate_bps as int,
                elapsed_seconds(self.last_update_timestamp, now),
            );
        }
        self.global_borrow_index = index;
        self.last_update_timestamp = now;
        Ok(())
    }
}

/// Refreshing the index a second time at the same moment changes nothing.
pub proof fn lemma_refresh_idempotent(config: Config, now: i64)
    requires
        config.refreshed(now) is Ok,
    ensures
        config.refreshed(now)->Ok_0.refreshed(now) == config.refreshed(now),
{
    let c = config.refreshed(now)->Ok_0;
    assert(elapsed_seconds(c.last_update_timestamp, now) == 0);
    crate::utils::lemma_accrual_zero_elapsed(c.global_borrow_index as int, c.interest_rate_bps as int);
    assert(c.refreshed(now)->Ok_0 == c);
}

} // verus!
