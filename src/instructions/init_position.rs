use vstd::prelude::*;
use crate::config::Config;
use crate::errors::CreditError;
use crate::types::{Address, Clock};
use crate::user_position::UserPosition;

verus! {

/// Opens `owner`'s position: no collateral and no debt, jitoSOL as the
/// collateral type, the snapshot at the current global index. Fails with
/// `ProtocolPaused` while the protocol is paused.
pub fn handler(config: &Config, owner: &Address, clock: &Clock) -> (r: Result<UserPosition, CreditError>)
    ensures
        config.paused ==> r == Err::<UserPosition, CreditError>(CreditError::ProtocolPaused),
        !config.paused ==> r == Ok::<UserPosition, CreditError>(
            UserPosition {
                owner: *owner,
                collateral_mint: config.jito_sol_mint,
                collateral_amount: 0,
                debt_usdc: 0,
                borrow_index_snapshot: config.global_borrow_index,
                last_update_slot: clock.slot,
                last_update_timestamp: clock.unix_timestamp,
                lifetime_borrows: 0,
                lifetime_repayments: 0,
                liquidation_count: 0,
                is_initialized: true,
                credit_limit: 0,
            },
        ),
{
    if config.paused {
        return Err(CreditError::ProtocolPaused);
    }
    Ok(
        UserPosition {
            owner: *owner,
            collateral_mint: config.jito_sol_mint,
            collateral_amount: 0,
            debt_usdc: 0,
            borrow_index_snapshot: config.global_borrow_index,
            last_update_slot: clock.slot,
            last_update_timestamp: clock.unix_timestamp,
            lifetime_borrows: 0,
            lifetime_repayments: 0,
            liquidation_count: 0,
            is_initialized: true,
            credit_limit: 0,
        },
    )
}

} // verus!
