use vstd::prelude::*;
use crate::config::Config;
use crate::constants::HEALTH_FACTOR_BUFFER_BPS;
use crate::errors::CreditError;
use crate::instructions::deposit_collateral::credit_limit_spec;
use crate::oracle::PriceOracle;
use crate::types::{Address, Clock};
use crate::user_position::UserPosition;
use crate::utils::calculate_credit_limit;

verus! {

/// A withdrawal once the index is refreshed (`c`) and the debt rebased (`p`).
pub open spec fn withdraw_effect(
    c: Config,
    p: UserPosition,
    amount: u64,
    clock: Clock,
    price: u64,
) -> Result<(Config, UserPosition), CreditError> {
    let remaining = (p.collateral_amount - amount) as u64;
    let after = UserPosition { collateral_amount: remaining, ..p };
    if p.debt_usdc > 0 && after.health_at(price, c.liquidation_threshold_bps, p.debt_usdc)
        < HEALTH_FACTOR_BUFFER_BPS {
        Err(CreditError::HealthFactorTooLow)
    } else if c.total_collateral < amount {
        Err(CreditError::MathOverflow)
    } else {
        let limit = if remaining == 0 {
            Ok(0u64)
        } else {
            credit_limit_spec(c, remaining, price)
        };
        match limit {
            Err(e) => Err(e),
            Ok(l) => Ok(
                (
                    Config { total_collateral: (c.total_collateral - amount) as u64, ..c },
                    UserPosition {
                        collateral_amount: remaining,
                        last_update_slot: clock.slot,
                        last_update_timestamp: clock.unix_timestamp,
                        credit_limit: l,
                        ..p
                    },
                ),
            ),
        }
    }
}

/// Outcome of `handler`. The oracle is read only when some debt or
/// collateral remains; otherwise any price serves, as none is used.
pub open spec fn withdraw_spec(
    config: Config,
    position: UserPosition,
    owner: Address,
    amount: u64,
    clock: Clock,
    oracle: PriceOracle,
) -> Result<(Config, UserPosition), CreditError> {
    if config.paused {
        Err(CreditError::ProtocolPaused)
    } else if owner@ != position.owner@ {
        Err(CreditError::Unauthorized)
    } else if amount == 0 {
        Err(CreditError::AmountTooSmall)
    } else if amount > position.collateral_amount {
        Err(CreditError::InsufficientCollateral)
    } else {
        match config.refreshed(clock.unix_timestamp) {
            Err(e) => Err(e),
            Ok(c) => match position.rebased(c.global_borrow_index) {
                Err(e) => Err(e),
                Ok(p) => if p.debt_usdc > 0 || p.collateral_amount > amount {
                    match oracle.price_spec(clock) {
                        Err(e) => Err(e),
                        Ok(price) => withdraw_effect(c, p, amount, clock, price),
                    }
                } else {
                    withdraw_effect(c, p, amount, clock, 0)
                },
            },
        }
    }
}

/// A successful withdrawal that leaves debt leaves a health factor of at
/// least 1.10 at the oracle price.
pub proof fn lemma_withdraw_keeps_health(
    config: Config,
    position: UserPosition,
    owner: Address,
    amount: u64,
    clock: Clock,
    oracle: PriceOracle,
)
    requires
        withdraw_spec(config, position, owner, amount, clock, oracle) is Ok,
        withdraw_spec(config, position, owner, amount, clock, oracle)->Ok_0.1.debt_usdc > 0,
    ensures
        ({
            let (c, p) = withdraw_spec(config, position, owner, amount, clock, oracle)->Ok_0;
            &&& oracle.price_spec(clock) is Ok
            &&& p.health_at(oracle.price_spec(clock)->Ok_0, c.liquidation_threshold_bps, p.debt_usdc)
                >= HEALTH_FACTOR_BUFFER_BPS
        }),
{
}

/// Withdraws `amount` units of collateral to `owner`: the protocol must run,
/// `owner` must own the position, and `amount` must be positive and at most
/// the collateral. After refreshing the index and rebasing the debt, a
/// position that keeps debt must keep a health factor of at least 1.10.
/// The credit limit is recomputed (zero once no collateral is left). The
/// caller moves the collateral out of custody. On failure nothing changes.
pub fn handler(
    config: &mut Config,
    user_position: &mut UserPosition,
    owner: &Address,
    amount: u64,
    clock: &Clock,
    oracle: &PriceOracle,
) -> (r: Result<(), CreditError>)
    ensures
        match withdraw_spec(*old(config), *old(user_position), *owner, amount, *clock, *oracle) {
            Ok((c, p)) => r is Ok && *final(config) == c && *final(user_position) == p,
            Err(e) => r == Err::<(), CreditError>(e) && *final(config) == *old(config)
                && *final(user_position) == *old(user_position),
        },
        old(config).wf() ==> final(config).wf(),
{
    if config.paused {
        return Err(CreditError::ProtocolPaused);
    }
    if *owner != user_position.owner {
        return Err(CreditError::Unauthorized);
    }
    if amount == 0 {
        return Err(CreditError::AmountTooSmall);
    }
    if amount > user_position.collateral_amount {
        return Err(CreditError::InsufficientCollateral);
    }
    let mut cfg = *config;
    let mut pos = *user_position;
    cfg.refresh_index(clock.unix_timestamp)?;
    let current_debt = pos.rebase_debt(cfg.global_borrow_index)?;
    let remaining_collateral = pos.collateral_amount - amount;
    let price: u64 = if current_debt > 0 || remaining_collateral > 0 {
        oracle.price(clock)?
    } else {
        0
    };
    if current_debt > 0 {
        let mut after = pos;
        after.collateral_amount = remaining_collateral;
        let health_factor = after.calculate_health_factor(
            price,
            cfg.liquidation_threshold_bps,
            current_debt,
        )?;
        if health_factor < HEALTH_FACTOR_BUFFER_BPS {
            return Err(CreditError::HealthFactorTooLow);
        }
    }
    let total_collateral = match cfg.total_collateral.checked_sub(amount) {
        Some(v) => v,
        None => {
            return Err(CreditError::MathOverflow);
        },
    };
    let credit_limit = if remaining_collateral == 0 {
        0
    } else {
        calculate_credit_limit(remaining_collateral, price, cfg.ltv_max_bps)?
    };
    cfg.total_collateral = total_collateral;
    pos.collateral_amount = remaining_collateral;
    pos.last_update_slot = clock.slot;
    pos.last_update_timestamp = clock.unix_timestamp;
    pos.credit_limit = credit_limit;
    *config = cfg;
    *user_position = pos;
    Ok(())
}

} // verus!
