use vstd::prelude::*;
use crate::config::Config;
use crate::errors::CreditError;
use crate::types::{Address, Clock};

verus! {

/// Record of a change of the circuit breaker, for monitoring.
#[derive(Clone, Copy, Debug)]
pub struct ProtocolPausedStateChanged {
    pub admin: Address,
    pub paused: bool,
    pub timestamp: i64,
}

/// Sets the circuit breaker; only the configured admin may.
pub fn handler(config: &mut Config, admin: &Address, paused: bool, clock: &Clock) -> (r: Result<
    ProtocolPausedStateChanged,
    CreditError,
>)
    ensures
        admin@ != old(config).admin@ ==> r == Err::<ProtocolPausedStateChanged, CreditError>(
            CreditError::Unauthorized,
        ) && *final(config) == *old(config),
        admin@ == old(config).admin@ ==> r == Ok::<ProtocolPausedStateChanged, CreditError>(
            ProtocolPausedStateChanged { admin: *admin, paused, timestamp: clock.unix_timestamp },
        ) && *final(config) == (Config { paused, ..*old(config) }),
        old(config).wf() ==> final(config).wf(),
{
    if *admin != config.admin {
        return Err(CreditError::Unauthorized);
    }
    config.paused = paused;
    Ok(ProtocolPausedStateChanged { admin: *admin, paused, timestamp: clock.unix_timestamp })
}

} // verus!
