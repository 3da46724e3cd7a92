use vstd::prelude::*;
use crate::config::Config;
use crate::debit_account::{DebitAccount, DebitStatus};
use crate::errors::CreditError;
use crate::types::{Address, Clock};

verus! {

/// Outcome of `handler`.
pub open spec fn debit_spend_spec(
    config: Config,
    account: DebitAccount,
    authority: Address,
    amount: u64,
    clock: Clock,
) -> Result<DebitAccount, CreditError> {
    if authority@ != config.admin@ {
        Err(CreditError::Unauthorized)
    } else if config.paused {
        Err(CreditError::ProtocolPaused)
    } else if account.status != DebitStatus::Active {
        Err(CreditError::AccountNotActive)
    } else if !account.can_spend_spec(amount, clock.unix_timestamp) {
        Err(CreditError::SpendingNotAllowed)
    } else {
        account.reserve_spec(amount)
    }
}

/// Places a hold of `amount` for an authorized spend; only the configured
/// admin may. The account must be active, and the spend must fit the
/// available balance and the daily and monthly limits. On success exactly
/// `amount` moves from available to reserved; on failure nothing changes.
pub fn handler(
    config: &Config,
    debit_account: &mut DebitAccount,
    authority: &Address,
    amount: u64,
    clock: &Clock,
) -> (r: Result<(), CreditError>)
    ensures
        match debit_spend_spec(*config, *old(debit_account), *authority, amount, *clock) {
            Ok(a) => r is Ok && *final(debit_account) == a,
            Err(e) => r == Err::<(), CreditError>(e) && *final(debit_account) == *old(debit_account),
        },
        r is Ok ==> final(debit_account).usdc_available == old(debit_account).usdc_available - amount
            && final(debit_account).usdc_reserved == old(debit_account).usdc_reserved + amount,
{
    if *authority != config.admin {
        return Err(CreditError::Unauthorized);
    }
    if config.paused {
        return Err(CreditError::ProtocolPaused);
    }
    if debit_account.status != DebitStatus::Active {
        return Err(CreditError::AccountNotActive);
    }
    let allowed = debit_account.can_spend(amount, clock.unix_timestamp)?;
    if !allowed {
        return Err(CreditError::SpendingNotAllowed);
    }
    debit_account.reserve_funds(amount)
}

} // verus!
