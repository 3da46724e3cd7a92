use vstd::prelude::*;
use crate::config::Config;
use crate::constants::{BPS_PRECISION, COLLATERAL_UNIT};
use crate::errors::CreditError;
use crate::oracle::PriceOracle;
use crate::types::{Address, Clock};
use crate::user_position::UserPosition;
use crate::utils::{calculate_liquidation_bonus, usdc_to_collateral};

verus! {

/// Record of one liquidation, for indexers.
#[derive(Clone, Copy, Debug)]
pub struct PositionLiquidated {
    pub user: Address,
    pub liquidator: Address,
    /// Debt repaid by the liquidator.
    pub repay_amount: u64,
    /// Collateral handed to the liquidator.
    pub collateral_seized: u64,
    pub remaining_debt: u64,
    pub remaining_collateral: u64,
    pub timestamp: i64,
}

/// What a liquidation does once its checks pass: repay up to half the debt,
/// seize that value plus the bonus in collateral (at most what the position
/// holds), and update the position and the protocol totals.
pub open spec fn settle_liquidation(
    c: Config,
    p: UserPosition,
    liquidator: Address,
    repay_amount: u64,
    debt: u64,
    price: u64,
    clock: Clock,
) -> Result<(Config, UserPosition, PositionLiquidated), CreditError> {
    let half = debt / 2;
    let actual: u64 = if repay_amount < half {
        repay_amount
    } else {
        half as u64
    };
    let bonus = actual as int * c.liquidation_bonus_bps as int / 10_000;
    let total = actual as int + bonus;
    if bonus > u64::MAX || total > u64::MAX {
        Err(CreditError::MathOverflow)
    } else if total * COLLATERAL_UNIT as int / price as int > u64::MAX {
        Err(CreditError::MathOverflow)
    } else {
        let to_seize = total * COLLATERAL_UNIT as int / price as int;
        let seized: u64 = if to_seize < p.collateral_amount {
            to_seize as u64
        } else {
            p.collateral_amount
        };
        if p.liquidation_count + 1 > u32::MAX {
            Err(CreditError::MathOverflow)
        } else if c.total_collateral < seized {
            Err(CreditError::MathOverflow)
        } else {
            let remaining_debt = (debt - actual) as u64;
            let remaining_collateral = (p.collateral_amount - seized) as u64;
            Ok(
                (
                    Config {
                        total_debt_usdc: if c.total_debt_usdc >= actual {
                            (c.total_debt_usdc - actual) as u64
                        } else {
                            0
                        },
                        total_collateral: (c.total_collateral - seized) as u64,
                        ..c
                    },
                    UserPosition {
                        debt_usdc: remaining_debt,
                        collateral_amount: remaining_collateral,
                        borrow_index_snapshot: c.global_borrow_index,
                        liquidation_count: (p.liquidation_count + 1) as u32,
                        last_update_slot: clock.slot,
                        last_update_timestamp: clock.unix_timestamp,
                        ..p
                    },
                    PositionLiquidated {
                        user: p.owner,
                        liquidator,
                        repay_amount: actual,
                        collateral_seized: seized,
                        remaining_debt,
                        remaining_collateral,
                        timestamp: clock.unix_timestamp,
                    },
                ),
            )
        }
    }
}

/// Outcome of `handler`: the new configuration, position and event, or the
/// first check that fails.
pub open spec fn liquidate_spec(
    config: Config,
    position: UserPosition,
    user_being_liquidated: Address,
    liquidator: Address,
    repay_amount: u64,
    clock: Clock,
    oracle: PriceOracle,
) -> Result<(Config, UserPosition, PositionLiquidated), CreditError> {
    if config.paused {
        Err(CreditError::ProtocolPaused)
    } else if user_being_liquidated@ != position.owner@ {
        Err(CreditError::Unauthorized)
    } else if repay_amount == 0 {
        Err(CreditError::AmountTooSmall)
    } else {
        match config.refreshed(clock.unix_timestamp) {
            Err(e) => Err(e),
            Ok(c) => match position.debt_at(c.global_borrow_index) {
                Err(e) => Err(e),
                Ok(debt) => if debt == 0 {
                    Err(CreditError::RepayExceedsDebt)
                } else {
                    match oracle.price_spec(clock) {
                        Err(e) => Err(e),
                        Ok(price) => if position.health_at(
                            price,
                            c.liquidation_threshold_bps,
                            debt,
                        ) >= 10_000 {
                            Err(CreditError::PositionHealthy)
                        } else {
                            settle_liquidation(c, position, liquidator, repay_amount, debt, price, clock)
                        },
                    }
                },
            },
        }
    }
}

/// A successful liquidation repays at most half of the debt (interest
/// included) and seizes at most the collateral the position held; debt and
/// collateral fall by exactly those amounts.
pub proof fn lemma_liquidation_bound(
    config: Config,
    position: UserPosition,
    user_being_liquidated: Address,
    liquidator: Address,
    repay_amount: u64,
    clock: Clock,
    oracle: PriceOracle,
)
    requires
        liquidate_spec(config, position, user_being_liquidated, liquidator, repay_amount, clock, oracle) is Ok,
    ensures
        ({
            let (c, p, ev) = liquidate_spec(
                config,
                position,
                user_being_liquidated,
                liquidator,
                repay_amount,
                clock,
                oracle,
            )->Ok_0;
            let pre_debt = position.debt_at(c.global_borrow_index)->Ok_0;
            &&& position.debt_at(c.global_borrow_index) is Ok
            &&& ev.repay_amount <= pre_debt / 2
            &&& ev.repay_amount <= repay_amount
            &&& p.debt_usdc == pre_debt - ev.repay_amount
            &&& ev.collateral_seized <= position.collateral_amount
            &&& p.collateral_amount == position.collateral_amount - ev.collateral_seized
        }),
{
}

/// Liquidates part of an unhealthy position: checks that the protocol runs,
/// that `user_being_liquidated` owns the position and that `repay_amount` is
/// positive; refreshes the index; requires debt and a health factor below
/// 1.0 at the oracle price; then repays `min(repay_amount, debt / 2)` and
/// seizes its value plus the liquidation bonus in collateral, capped at the
/// position's collateral. The caller moves the repaid amount from the
/// liquidator into custody and the seized collateral to the liquidator.
/// On failure nothing changes.
pub fn handler(
    config: &mut Config,
    user_position: &mut UserPosition,
    user_being_liquidated: &Address,
    liquidator: &Address,
    repay_amount: u64,
    clock: &Clock,
    oracle: &PriceOracle,
) -> (r: Result<PositionLiquidated, CreditError>)
    ensures
        match liquidate_spec(
            *old(config),
            *old(user_position),
            *user_being_liquidated,
            *liquidator,
            repay_amount,
            *clock,
            *oracle,
        ) {
            Ok((c, p, ev)) => r == Ok::<PositionLiquidated, CreditError>(ev) && *final(config) == c
                && *final(user_position) == p,
            Err(e) => r == Err::<PositionLiquidated, CreditError>(e) && *final(config) == *old(
                config,
            ) && *final(user_position) == *old(user_position),
        },
        old(config).wf() ==> final(config).wf(),
{
    if config.paused {
        return Err(CreditError::ProtocolPaused);
    }
    if *user_being_liquidated != user_position.owner {
        return Err(CreditError::Unauthorized);
    }
    if repay_amount == 0 {
        return Err(CreditError::AmountTooSmall);
    }
    let mut cfg = *config;
    cfg.refresh_index(clock.unix_timestamp)?;
    let current_debt = user_position.calculate_debt_with_interest(cfg.global_borrow_index)?;
    if current_debt == 0 {
        return Err(CreditError::RepayExceedsDebt);
    }
    let price = oracle.price(clock)?;
    let health_factor = user_position.calculate_health_factor(
        price,
        cfg.liquidation_threshold_bps,
        current_debt,
    )?;
    if health_factor >= BPS_PRECISION {
        return Err(CreditError::PositionHealthy);
    }
    let max_liquidation = current_debt / 2;
    let actual_repay_amount = if repay_amount < max_liquidation {
        repay_amount
    } else {
        max_liquidation
    };
    let bonus_amount = calculate_liquidation_bonus(actual_repay_amount, cfg.liquidation_bonus_bps)?;
    let total_value_to_seize = match actual_repay_amount.checked_add(bonus_amount) {
        Some(v) => v,
        None => {
            return Err(CreditError::MathOverflow);
        },
    };
    let collateral_to_seize = usdc_to_collateral(total_value_to_seize, price)?;
    let actual_collateral_seized = if collateral_to_seize < user_position.collateral_amount {
        collateral_to_seize
    } else {
        user_position.collateral_amount
    };
    let liquidation_count = match user_position.liquidation_count.checked_add(1) {
        Some(v) => v,
        None => {
            return Err(CreditError::MathOverflow);
        },
    };
    let total_collateral = match cfg.total_collateral.checked_sub(actual_collateral_seized) {
        Some(v) => v,
        None => {
            return Err(CreditError::MathOverflow);
        },
    };
    let new_debt = current_debt - actual_repay_amount;
    let new_collateral = user_position.collateral_amount - actual_collateral_seized;
    cfg.total_debt_usdc = cfg.total_debt_usdc.saturating_sub(actual_repay_amount);
    cfg.total_collateral = total_collateral;
    let mut pos = *user_position;
    pos.debt_usdc = new_debt;
    pos.collateral_amount = new_collateral;
    pos.borrow_index_snapshot = cfg.global_borrow_index;
    pos.liquidation_count = liquidation_count;
    pos.last_update_slot = clock.slot;
    pos.last_update_timestamp = clock.unix_timestamp;
    *config = cfg;
    *user_position = pos;
    Ok(
        PositionLiquidated {
            user: pos.owner,
            liquidator: *liquidator,
            repay_amount: actual_repay_amount,
            collateral_seized: actual_collateral_seized,
            remaining_debt: new_debt,
            remaining_collateral: new_collateral,
            timestamp: clock.unix_timestamp,
        },
    )
}

} // verus!
