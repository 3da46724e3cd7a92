use vstd::prelude::*;
use crate::config::Config;
use crate::debit_account::DebitAccount;
use crate::errors::CreditError;
use crate::types::{Address, Clock};

verus! {

/// Outcome of `handler`.
pub open spec fn debit_settle_spec(
    config: Config,
    account: DebitAccount,
    authority: Address,
    amount: u64,
    clock: Clock,
) -> Result<DebitAccount, CreditError> {
    if authority@ != config.admin@ {
        Err(CreditError::Unauthorized)
    } else if config.paused {
        Err(CreditError::ProtocolPaused)
    } else {
        account.commit_spec(amount, clock.unix_timestamp)
    }
}

/// Settles `amount` of held funds as spent; only the configured admin may.
/// On failure nothing changes.
pub fn handler(
    config: &Config,
    debit_account: &mut DebitAccount,
    authority: &Address,
    amount: u64,
    clock: &Clock,
) -> (r: Result<(), CreditError>)
    ensures
        match debit_settle_spec(*config, *old(debit_account), *authority, amount, *clock) {
            Ok(a) => r is Ok && *final(debit_account) == a,
            Err(e) => r == Err::<(), CreditError>(e) && *final(debit_account) == *old(debit_account),
        },
{
    if *authority != config.admin {
        return Err(CreditError::Unauthorized);
    }
    if config.paused {
        return Err(CreditError::ProtocolPaused);
    }
    debit_account.commit_reserved(amount, clock.unix_timestamp)
}

} // verus!
