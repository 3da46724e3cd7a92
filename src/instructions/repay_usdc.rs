use vstd::prelude::*;
use crate::config::Config;
use crate::errors::CreditError;
use crate::types::{Address, Clock};
use crate::user_position::UserPosition;

verus! {

/// Outcome of `handler`, with the amount actually repaid.
pub open spec fn repay_spec(
    config: Config,
    position: UserPosition,
    owner: Address,
    usdc_amount: u64,
    clock: Clock,
) -> Result<(Config, UserPosition, u64), CreditError> {
    if config.paused {
        Err(CreditError::ProtocolPaused)
    } else if owner@ != position.owner@ {
        Err(CreditError::Unauthorized)
    } else {
        match config.refreshed(clock.unix_timestamp) {
            Err(e) => Err(e),
            Ok(c) => match position.rebased(c.global_borrow_index) {
                Err(e) => Err(e),
                Ok(p) => {
                    let repaid: u64 = if usdc_amount < p.debt_usdc {
                        usdc_amount
                    } else {
                        p.debt_usdc
                    };
                    if p.lifetime_repayments + repaid > u64::MAX {
                        Err(CreditError::MathOverflow)
                    } else {
                        Ok(
                            (
                                Config {
                                    total_debt_usdc: if c.total_debt_usdc >= repaid {
                                        (c.total_debt_usdc - repaid) as u64
                                    } else {
                                        0
                                    },
                                    ..c
                                },
                                UserPosition {
                                    debt_usdc: (p.debt_usdc - repaid) as u64,
                                    lifetime_repayments: (p.lifetime_repayments + repaid) as u64,
                                    last_update_timestamp: clock.unix_timestamp,
                                    ..p
                                },
                                repaid,
                            ),
                        )
                    }
                },
            },
        }
    }
}

/// Repays up to `usdc_amount` of `owner`'s debt after refreshing the index
/// and rebasing it: exactly `min(usdc_amount, current debt)` is deducted and
/// returned, so the debt never goes below zero. The protocol total falls by
/// the same amount, stopping at zero. The caller moves the returned amount
/// from the owner into custody. On failure nothing changes.
pub fn handler(
    config: &mut Config,
    user_position: &mut UserPosition,
    owner: &Address,
    usdc_amount: u64,
    clock: &Clock,
) -> (r: Result<u64, CreditError>)
    ensures
        match repay_spec(*old(config), *old(user_position), *owner, usdc_amount, *clock) {
            Ok((c, p, repaid)) => r == Ok::<u64, CreditError>(repaid) && *final(config) == c
                && *final(user_position) == p,
            Err(e) => r == Err::<u64, CreditError>(e) && *final(config) == *old(config)
                && *final(user_position) == *old(user_position),
        },
        old(config).wf() ==> final(config).wf(),
{
    if config.paused {
        return Err(CreditError::ProtocolPaused);
    }
    if *owner != user_position.owner {
        return Err(CreditError::Unauthorized);
    }
    let mut cfg = *config;
    let mut pos = *user_position;
    cfg.refresh_index(clock.unix_timestamp)?;
    let current_debt = pos.rebase_debt(cfg.global_borrow_index)?;
    let repay_amount = if usdc_amount < current_debt {
        usdc_amount
    } else {
        current_debt
    };
    let lifetime_repayments = match pos.lifetime_repayments.checked_add(repay_amount) {
        Some(v) => v,
        None => {
            return Err(CreditError::MathOverflow);
        },
    };
    pos.debt_usdc = current_debt - repay_amount;
    pos.lifetime_repayments = lifetime_repayments;
    pos.last_update_timestamp = clock.unix_timestamp;
    cfg.total_debt_usdc = cfg.total_debt_usdc.saturating_sub(repay_amount);
    *config = cfg;
    *user_position = pos;
    Ok(repay_amount)
}

} // verus!
