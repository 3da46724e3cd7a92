use vstd::prelude::*;
use crate::config::Config;
use crate::constants::MIN_DEPOSIT_AMOUNT;
use crate::errors::CreditError;
use crate::instructions::deposit_collateral::{apply_deposit, deposit_effect};
use crate::oracle::PriceOracle;
use crate::types::{Address, Clock};
use crate::user_position::UserPosition;

verus! {

/// Outcome of `handler`.
pub open spec fn deposit_wsol_spec(
    config: Config,
    position: UserPosition,
    owner: Address,
    wsol_mint: Address,
    amount: u64,
    clock: Clock,
    oracle: PriceOracle,
) -> Result<(Config, UserPosition), CreditError> {
    if config.paused {
        Err(CreditError::ProtocolPaused)
    } else if wsol_mint@ != config.wsol_mint@ {
        Err(CreditError::InvalidCollateralMint)
    } else if owner@ != position.owner@ {
        Err(CreditError::Unauthorized)
    } else if !position.collateral_mint.is_zero_spec() && position.collateral_mint@ != wsol_mint@ {
        Err(CreditError::InvalidCollateralMint)
    } else if amount < MIN_DEPOSIT_AMOUNT {
        Err(CreditError::AmountTooSmall)
    } else {
        match deposit_effect(
            config,
            UserPosition { collateral_mint: wsol_mint, ..position },
            amount,
            clock,
            oracle,
        ) {
            Ok((c, p)) => Ok((c, p)),
            Err(e) => Err(e),
        }
    }
}

/// Deposits `amount` of wrapped SOL as collateral: as a plain deposit, and
/// besides, `wsol_mint` must be the configured wrapped-SOL mint and the
/// position must hold no other collateral type; a position without one
/// takes wrapped SOL as its collateral type. On failure nothing changes.
pub fn handler(
    config: &mut Config,
    user_position: &mut UserPosition,
    owner: &Address,
    wsol_mint: &Address,
    amount: u64,
    clock: &Clock,
    oracle: &PriceOracle,
) -> (r: Result<(), CreditError>)
    ensures
        match deposit_wsol_spec(
            *old(config),
            *old(user_position),
            *owner,
            *wsol_mint,
            amount,
            *clock,
            *oracle,
        ) {
            Ok((c, p)) => r is Ok && *final(config) == c && *final(user_position) == p,
            Err(e) => r == Err::<(), CreditError>(e) && *final(config) == *old(config)
                && *final(user_position) == *old(user_position),
        },
        old(config).wf() ==> final(config).wf(),
{
    if config.paused {
        return Err(CreditError::ProtocolPaused);
    }
    if *wsol_mint != config.wsol_mint {
        return Err(CreditError::InvalidCollateralMint);
    }
    if *owner != user_position.owner {
        return Err(CreditError::Unauthorized);
    }
    if !user_position.collateral_mint.is_zero() && user_position.collateral_mint != *wsol_mint {
        return Err(CreditError::InvalidCollateralMint);
    }
    if amount < MIN_DEPOSIT_AMOUNT {
        return Err(CreditError::AmountTooSmall);
    }
    let mut pos = *user_position;
    pos.collateral_mint = *wsol_mint;
    apply_deposit(config, &mut pos, amount, clock, oracle)?;
    *user_position = pos;
    Ok(())
}

} // verus!
