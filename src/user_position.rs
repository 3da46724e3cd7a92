use vstd::prelude::*;
use crate::errors::CreditError;
use crate::types::Address;
use crate::utils::{
    collateral_value, collateral_value_of, health_factor, health_factor_of_value, liquidation_value,
    mul_div_floor,
};

verus! {

/// One borrower's credit position.
#[derive(Clone, Copy, Debug)]
pub struct UserPosition {
    pub owner: Address,
    pub collateral_mint: Address,
    /// Collateral units held in custody for the owner (9 decimals).
    pub collateral_amount: u64,
    /// Debt as of `borrow_index_snapshot` (6 decimals).
    pub debt_usdc: u64,
    /// Global borrow index when `debt_usdc` was last rebased.
    pub borrow_index_snapshot: u128,
    pub last_update_slot: u64,
    pub last_update_timestamp: i64,
    pub lifetime_borrows: u64,
    pub lifetime_repayments: u64,
    pub liquidation_count: u32,
    pub is_initialized: bool,
    /// Cached borrowing limit; advisory only.
    pub credit_limit: u64,
}

/// Debt of `debt` taken at index `snapshot`, grown to index `index`:
/// `floor(debt * index / snapshot)`, formed exactly.
pub open spec fn debt_with_interest(debt: int, index: int, snapshot: int) -> Result<u64, CreditError> {
    if debt == 0 {
        Ok(0)
    } else if snapshot == 0 {
        Err(CreditError::MathOverflow)
    } else if debt * index / snapshot > u64::MAX {
        Err(CreditError::MathOverflow)
    } else {
        Ok((debt * index / snapshot) as u64)
    }
}

impl UserPosition {
    /// What `calculate_debt_with_interest` returns at `index`.
    pub open spec fn debt_at(self, index: u128) -> Result<u64, CreditError> {
        debt_with_interest(self.debt_usdc as int, index as int, self.borrow_index_snapshot as int)
    }

    /// The position with its debt grown to `index` and its snapshot moved there.
    pub open spec fn rebased(self, index: u128) -> Result<UserPosition, CreditError> {
        match self.debt_at(index) {
            Ok(d) => Ok(UserPosition { debt_usdc: d, borrow_index_snapshot: index, ..self }),
            Err(e) => Err(e),
        }
    }

    /// Health factor of this position at `price` against `debt`.
    pub open spec fn health_at(self, price: u64, threshold_bps: u16, debt: u64) -> int {
        health_factor(
            collateral_value(self.collateral_amount as int, price as int),
            debt as int,
            threshold_bps as int,
        )
    }

    /// Current debt, interest included, at global index `current_borrow_index`:
    /// zero without debt; otherwise `floor(debt * index / snapshot)`.
    pub fn calculate_debt_with_interest(&self, current_borrow_index: u128) -> (r: Result<u64, CreditError>)
        ensures
            r == self.debt_at(current_borrow_index),
            r matches Ok(d) ==> (current_borrow_index >= self.borrow_index_snapshot ==> d
                >= self.debt_usdc),
    {
        if self.debt_usdc == 0 {
            return Ok(0);
        }
        if self.borrow_index_snapshot == 0 {
            return Err(CreditError::MathOverflow);
        }
        let debt = self.debt_usdc;
        proof {
            if current_borrow_index >= self.borrow_index_snapshot {
                assert(debt * current_borrow_index >= debt * self.borrow_index_snapshot)
                    by (nonlinear_arith)
                    requires
                        current_borrow_index >= self.borrow_index_snapshot,
                        debt >= 0,
                ;
                vstd::arithmetic::div_mod::lemma_div_is_ordered(
                    debt * self.borrow_index_snapshot,
                    debt * current_borrow_index,
                    self.borrow_index_snapshot as int,
                );
                vstd::arithmetic::div_mod::lemma_div_multiples_vanish(
                    debt as int,
                    self.borrow_index_snapshot as int,
                );
                assert(debt * self.borrow_index_snapshot == self.borrow_index_snapshot * debt)
                    by (nonlinear_arith);
            }
        }
        match mul_div_floor(debt, current_borrow_index, self.borrow_index_snapshot) {
            Some(grown) => Ok(grown),
            None => Err(CreditError::MathOverflow),
        }
    }

    /// Grows the debt to `current_borrow_index` and moves the snapshot there.
    /// On failure the position is left unchanged.
    pub fn rebase_debt(&mut self, current_borrow_index: u128) -> (r: Result<u64, CreditError>)
        ensures
            match old(self).rebased(current_borrow_index) {
                Ok(p) => r == Ok::<u64, CreditError>(p.debt_usdc) && *final(self) == p,
                Err(e) => r == Err::<u64, CreditError>(e) && *final(self) == *old(self),
            },
    {
        let debt = self.calculate_debt_with_interest(current_borrow_index)?;
        self.debt_usdc = debt;
        self.borrow_index_snapshot = current_borrow_index;
        Ok(debt)
    }

    /// Whether the discounted collateral value at `collateral_price` covers
    /// `current_debt`; always true without debt.
    pub fn is_healthy(&self, collateral_price: u64, liquidation_threshold_bps: u16, current_debt: u64) -> (r: Result<bool, CreditError>)
        ensures
            r == Ok::<bool, CreditError>(
                current_debt == 0 || liquidation_value(
                    collateral_value(self.collateral_amount as int, collateral_price as int),
                    liquidation_threshold_bps as int,
                ) >= current_debt,
            ),
            r == Ok::<bool, CreditError>(
                self.health_at(collateral_price, liquidation_threshold_bps, current_debt) >= 10_000,
            ),
    {
        if current_debt == 0 {
            return Ok(true);
        }
        let value = collateral_value_of(self.collateral_amount, collateral_price);
        proof {
            assert(value * liquidation_threshold_bps < 0x10_0000_0000_0000_0000_0000_0000 * 0x10000)
                by (nonlinear_arith)
                requires
                    value < 0x10_0000_0000_0000_0000_0000_0000,
                    liquidation_threshold_bps <= 0xffff,
            ;
        }
        let lv = value * liquidation_threshold_bps as u128 / 10_000;
        proof {
            let l = lv as int;
            let d = current_debt as int;
            assert(l * 10_000 / d >= 10_000 <==> l >= d) by {
                if l >= d {
                    vstd::arithmetic::div_mod::lemma_div_is_ordered(d * 10_000, l * 10_000, d);
                    vstd::arithmetic::div_mod::lemma_div_multiples_vanish(10_000, d);
                    assert(d * 10_000 == d * 10_000int);
                } else {
                    vstd::arithmetic::div_mod::lemma_multiply_divide_lt(l * 10_000, d, 10_000);
                }
            }
            assert(u64::MAX >= 10_000);
        }
        Ok(lv >= current_debt as u128)
    }

    /// Health factor, in basis points, at `collateral_price` against
    /// `current_debt`: `u64::MAX` without debt, and saturating there.
    pub fn calculate_health_factor(&self, collateral_price: u64, liquidation_threshold_bps: u16, current_debt: u64) -> (r: Result<u64, CreditError>)
        ensures
            r == Ok::<u64, CreditError>(
                self.health_at(collateral_price, liquidation_threshold_bps, current_debt) as u64,
            ),
    {
        let value = collateral_value_of(self.collateral_amount, collateral_price);
        Ok(health_factor_of_value(value, current_debt, liquidation_threshold_bps))
    }
}

/// Rebasing a second time at the same index changes nothing: the debt and
/// the snapshot stay as the first rebase left them.
pub proof fn lemma_rebase_idempotent(position: UserPosition, index: u128)
    requires
        position.rebased(index) is Ok,
    ensures
        position.rebased(index)->Ok_0.rebased(index) == position.rebased(index),
{
    let p = position.rebased(index)->Ok_0;
    assert(p.borrow_index_snapshot == index);
    if p.debt_usdc != 0 {
        assert(index != 0);
        vstd::arithmetic::div_mod::lemma_div_multiples_vanish(p.debt_usdc as int, index as int);
        assert(p.debt_usdc as int * index as int == index as int * p.debt_usdc as int)
            by (nonlinear_arith);
    }
    assert(p.rebased(index)->Ok_0 == p);
}

} // verus!
