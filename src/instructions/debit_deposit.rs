use vstd::prelude::*;
use crate::config::Config;
use crate::constants::{DEFAULT_DAILY_LIMIT, DEFAULT_MONTHLY_LIMIT};
use crate::debit_account::{DebitAccount, DebitStatus};
use crate::errors::CreditError;
use crate::types::{Address, Clock};

verus! {

/// The account as a first deposit opens it for `user`: active, with the
/// default limits and both windows starting at `now`.
pub open spec fn opened(account: DebitAccount, user: Address, now: i64) -> DebitAccount {
    DebitAccount {
        owner: user,
        daily_limit: DEFAULT_DAILY_LIMIT,
        monthly_limit: DEFAULT_MONTHLY_LIMIT,
        status: DebitStatus::Active,
        is_initialized: true,
        last_daily_reset: now,
        last_monthly_reset: now,
        ..account
    }
}

/// Outcome of `handler`.
pub open spec fn debit_deposit_spec(
    config: Config,
    account: DebitAccount,
    user: Address,
    amount: u64,
    clock: Clock,
) -> Result<DebitAccount, CreditError> {
    if config.paused {
        Err(CreditError::ProtocolPaused)
    } else if account.is_initialized && account.owner@ != user@ {
        Err(CreditError::Unauthorized)
    } else {
        let a = if account.is_initialized {
            account
        } else {
            opened(account, user, clock.unix_timestamp)
        };
        if a.usdc_deposited + amount > u64::MAX || a.usdc_available + amount > u64::MAX
            || a.lifetime_deposits + amount > u64::MAX {
            Err(CreditError::MathOverflow)
        } else {
            Ok(
                DebitAccount {
                    usdc_deposited: (a.usdc_deposited + amount) as u64,
                    usdc_available: (a.usdc_available + amount) as u64,
                    lifetime_deposits: (a.lifetime_deposits + amount) as u64,
                    ..a
                },
            )
        }
    }
}

/// Credits `amount` to `user`'s debit account, opening it on the first
/// deposit. The caller moves the amount from the user into custody.
/// On failure nothing changes.
pub fn handler(
    config: &Config,
    debit_account: &mut DebitAccount,
    user: &Address,
    amount: u64,
    clock: &Clock,
) -> (r: Result<(), CreditError>)
    ensures
        match debit_deposit_spec(*config, *old(debit_account), *user, amount, *clock) {
            Ok(a) => r is Ok && *final(debit_account) == a,
            Err(e) => r == Err::<(), CreditError>(e) && *final(debit_account) == *old(debit_account),
        },
{
    if config.paused {
        return Err(CreditError::ProtocolPaused);
    }
    if debit_account.is_initialized && debit_account.owner != *user {
        return Err(CreditError::Unauthorized);
    }
    let mut a = *debit_account;
    if !a.is_initialized {
        a.owner = *user;
        a.daily_limit = DEFAULT_DAILY_LIMIT;
        a.monthly_limit = DEFAULT_MONTHLY_LIMIT;
        a.status = DebitStatus::Active;
        a.is_initialized = true;
        a.last_daily_reset = clock.unix_timestamp;
        a.last_monthly_reset = clock.unix_timestamp;
    }
    let deposited = match a.usdc_deposited.checked_add(amount) {
        Some(v) => v,
        None => {
            return Err(CreditError::MathOverflow);
        },
    };
    let available = match a.usdc_available.checked_add(amount) {
        Some(v) => v,
        None => {
            return Err(CreditError::MathOverflow);
        },
    };
    let lifetime_deposits = match a.lifetime_deposits.checked_add(amount) {
        Some(v) => v,
        None => {
            return Err(CreditError::MathOverflow);
        },
    };
    a.usdc_deposited = deposited;
    a.usdc_available = available;
    a.lifetime_deposits = lifetime_deposits;
    *debit_account = a;
    Ok(())
}

} // verus!
