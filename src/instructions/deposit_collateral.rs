use vstd::prelude::*;
use crate::config::Config;
use crate::constants::MIN_DEPOSIT_AMOUNT;
use crate::errors::CreditError;
use crate::oracle::PriceOracle;
use crate::types::{Address, Clock};
use crate::user_position::UserPosition;
use crate::utils::{calculate_credit_limit, checked_u64, collateral_value, max_borrow};

verus! {

/// Credit limit of `collateral` units at `price` under `config`.
pub open spec fn credit_limit_spec(config: Config, collateral: u64, price: u64) -> Result<u64, CreditError> {
    checked_u64(max_borrow(collateral_value(collateral as int, price as int), config.ltv_max_bps as int))
}

/// A deposit of `amount` once the caller's checks passed: refresh the index,
/// rebase the debt, add the collateral to the position and to the protocol
/// total, and recompute the credit limit at the oracle price.
pub open spec fn deposit_effect(
    config: Config,
    position: UserPosition,
    amount: u64,
    clock: Clock,
    oracle: PriceOracle,
) -> Result<(Config, UserPosition), CreditError> {
    match config.refreshed(clock.unix_timestamp) {
        Err(e) => Err(e),
        Ok(c) => match position.rebased(c.global_borrow_index) {
            Err(e) => Err(e),
            Ok(p) => if p.collateral_amount + amount > u64::MAX || c.total_collateral + amount
                > u64::MAX {
                Err(CreditError::MathOverflow)
            } else {
                let collateral = (p.collateral_amount + amount) as u64;
                match oracle.price_spec(clock) {
                    Err(e) => Err(e),
                    Ok(price) => match credit_limit_spec(c, collateral, price) {
                        Err(e) => Err(e),
                        Ok(limit) => Ok(
                            (
                                Config { total_collateral: (c.total_collateral + amount) as u64, ..c },
                                UserPosition {
                                    collateral_amount: collateral,
                                    last_update_slot: clock.slot,
                                    last_update_timestamp: clock.unix_timestamp,
                                    credit_limit: limit,
                                    ..p
                                },
                            ),
                        ),
                    },
                }
            },
        },
    }
}

/// Outcome of `handler`.
pub open spec fn deposit_spec(
    config: Config,
    position: UserPosition,
    owner: Address,
    amount: u64,
    clock: Clock,
    oracle: PriceOracle,
) -> Result<(Config, UserPosition), CreditError> {
    if config.paused {
        Err(CreditError::ProtocolPaused)
    } else if owner@ != position.owner@ {
        Err(CreditError::Unauthorized)
    } else if amount < MIN_DEPOSIT_AMOUNT {
        Err(CreditError::AmountTooSmall)
    } else {
        deposit_effect(config, position, amount, clock, oracle)
    }
}

/// Applies `deposit_effect`; on failure nothing changes.
pub(crate) fn apply_deposit(
    config: &mut Config,
    user_position: &mut UserPosition,
    amount: u64,
    clock: &Clock,
    oracle: &PriceOracle,
) -> (r: Result<(), CreditError>)
    ensures
        match deposit_effect(*old(config), *old(user_position), amount, *clock, *oracle) {
            Ok((c, p)) => r is Ok && *final(config) == c && *final(user_position) == p,
            Err(e) => r == Err::<(), CreditError>(e) && *final(config) == *old(config)
                && *final(user_position) == *old(user_position),
        },
        old(config).wf() ==> final(config).wf(),
{
    let mut cfg = *config;
    let mut pos = *user_position;
    cfg.refresh_index(clock.unix_timestamp)?;
    pos.rebase_debt(cfg.global_borrow_index)?;
    let collateral = match pos.collateral_amount.checked_add(amount) {
        Some(v) => v,
        None => {
            return Err(CreditError::MathOverflow);
        },
    };
    let total_collateral = match cfg.total_collateral.checked_add(amount) {
        Some(v) => v,
        None => {
            return Err(CreditError::MathOverflow);
        },
    };
    let price = oracle.price(clock)?;
    let credit_limit = calculate_credit_limit(collateral, price, cfg.ltv_max_bps)?;
    cfg.total_collateral = total_collateral;
    pos.collateral_amount = collateral;
    pos.last_update_slot = clock.slot;
    pos.last_update_timestamp = clock.unix_timestamp;
    pos.credit_limit = credit_limit;
    *config = cfg;
    *user_position = pos;
    Ok(())
}

/// Deposits `amount` units of collateral for `owner`: the protocol must run,
/// `owner` must own the position and `amount` must reach the minimum deposit.
/// The caller moves the collateral from the owner into custody.
/// On failure nothing changes.
pub fn handler(
    config: &mut Config,
    user_position: &mut UserPosition,
    owner: &Address,
    amount: u64,
    clock: &Clock,
    oracle: &PriceOracle,
) -> (r: Result<(), CreditError>)
    ensures
        match deposit_spec(*old(config), *old(user_position), *owner, amount, *clock, *oracle) {
            Ok((c, p)) => r is Ok && *final(config) == c && *final(user_position) == p,
            Err(e) => r == Err::<(), CreditError>(e) && *final(config) == *old(config)
                && *final(user_position) == *old(user_position),
        },
        old(config).wf() ==> final(config).wf(),
{
    if config.paused {
        return Err(CreditError::ProtocolPaused);
    }
    if *owner != user_position.owner {
        return Err(CreditError::Unauthorized);
    }
    if amount < MIN_DEPOSIT_AMOUNT {
        return Err(CreditError::AmountTooSmall);
    }
    apply_deposit(config, user_position, amount, clock, oracle)
}

} // verus!
