use vstd::prelude::*;
use crate::config::Config;
use crate::debit_account::DebitAccount;
use crate::errors::CreditError;
use crate::types::Address;

verus! {

/// Outcome of `handler`.
pub open spec fn debit_release_spec(
    config: Config,
    account: DebitAccount,
    authority: Address,
    amount: u64,
) -> Result<DebitAccount, CreditError> {
    if authority@ != config.admin@ {
        Err(CreditError::Unauthorized)
    } else if config.paused {
        Err(CreditError::ProtocolPaused)
    } else {
        account.release_spec(amount)
    }
}

/// Cancels a hold of `amount`, returning it to the available balance; only
/// the configured admin may. On failure nothing changes.
pub fn handler(config: &Config, debit_account: &mut DebitAccount, authority: &Address, amount: u64) -> (r: Result<(), CreditError>)
    ensures
        match debit_release_spec(*config, *old(debit_account), *authority, amount) {
            Ok(a) => r is Ok && *final(debit_account) == a,
            Err(e) => r == Err::<(), CreditError>(e) && *final(debit_account) == *old(debit_account),
        },
{
    if *authority != config.admin {
        return Err(CreditError::Unauthorized);
    }
    if config.paused {
        return Err(CreditError::ProtocolPaused);
    }
    debit_account.release_reserved(amount)
}

} // verus!
