use vstd::prelude::*;
use crate::config::Config;
use crate::errors::CreditError;
use crate::types::{Address, Clock};
use crate::user_position::UserPosition;

verus! {

/// Outcome of `handler`.
pub open spec fn record_debt_spec(
    config: Config,
    position: UserPosition,
    owner: Address,
    usdc_amount: u64,
    clock: Clock,
) -> Result<(Config, UserPosition), CreditError> {
    if config.paused {
        Err(CreditError::ProtocolPaused)
    } else if owner@ != position.owner@ {
        Err(CreditError::Unauthorized)
    } else {
        match config.refreshed(clock.unix_timestamp) {
            Err(e) => Err(e),
            Ok(c) => match position.rebased(c.global_borrow_index) {
                Err(e) => Err(e),
                Ok(p) => if p.debt_usdc + usdc_amount > u64::MAX {
                    Err(CreditError::MathOverflow)
                } else if c.enforce_credit_limit && p.debt_usdc + usdc_amount > p.credit_limit {
                    Err(CreditError::DebtLimitExceeded)
                } else if c.total_debt_usdc + usdc_amount > u64::MAX || p.lifetime_borrows
                    + usdc_amount > u64::MAX {
                    Err(CreditError::MathOverflow)
                } else {
                    Ok(
                        (
                            Config {
                                total_debt_usdc: (c.total_debt_usdc + usdc_amount) as u64,
                                ..c
                            },
                            UserPosition {
                                debt_usdc: (p.debt_usdc + usdc_amount) as u64,
                                lifetime_borrows: (p.lifetime_borrows + usdc_amount) as u64,
                                last_update_timestamp: clock.unix_timestamp,
                                ..p
                            },
                        ),
                    )
                },
            },
        }
    }
}

/// Records `usdc_amount` of new debt for `owner`, after refreshing the index
/// and rebasing the existing debt. The amount is taken as authorized
/// upstream: it is checked against the credit limit only when the
/// configuration says so. On failure nothing changes.
pub fn handler(
    config: &mut Config,
    user_position: &mut UserPosition,
    owner: &Address,
    usdc_amount: u64,
    clock: &Clock,
) -> (r: Result<(), CreditError>)
    ensures
        match record_debt_spec(*old(config), *old(user_position), *owner, usdc_amount, *clock) {
            Ok((c, p)) => r is Ok && *final(config) == c && *final(user_position) == p,
            Err(e) => r == Err::<(), CreditError>(e) && *final(config) == *old(config)
                && *final(user_position) == *old(user_position),
        },
        old(config).wf() ==> final(config).wf(),
{
    if config.paused {
        return Err(CreditError::ProtocolPaused);
    }
    if *owner != user_position.owner {
        return Err(CreditError::Unauthorized);
    }
    let mut cfg = *config;
    let mut pos = *user_position;
    cfg.refresh_index(clock.unix_timestamp)?;
    pos.rebase_debt(cfg.global_borrow_index)?;
    let debt = match pos.debt_usdc.checked_add(usdc_amount) {
        Some(v) => v,
        None => {
            return Err(CreditError::MathOverflow);
        },
    };
    if cfg.enforce_credit_limit && debt > pos.credit_limit {
        return Err(CreditError::DebtLimitExceeded);
    }
    let total_debt = match cfg.total_debt_usdc.checked_add(usdc_amount) {
        Some(v) => v,
        None => {
            return Err(CreditError::MathOverflow);
        },
    };
    let lifetime_borrows = match pos.lifetime_borrows.checked_add(usdc_amount) {
        Some(v) => v,
        None => {
            return Err(CreditError::MathOverflow);
        },
    };
    cfg.total_debt_usdc = total_debt;
    pos.debt_usdc = debt;
    pos.lifetime_borrows = lifetime_borrows;
    pos.last_update_timestamp = clock.unix_timestamp;
    *config = cfg;
    *user_position = pos;
    Ok(())
}

} // verus!
