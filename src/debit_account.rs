use vstd::prelude::*;
use crate::constants::{SECONDS_PER_DAY, SECONDS_PER_MONTH};
use crate::errors::CreditError;
use crate::types::Address;

verus! {

/// Whether a debit account may spend.
#[derive(Clone, Copy, Debug, PartialEq, Eq, Structural)]
pub enum DebitStatus {
    Inactive,
    Active,
    Frozen,
}

/// A prepaid spending balance with holds and rolling daily and monthly limits.
#[derive(Clone, Copy, Debug)]
pub struct DebitAccount {
    pub owner: Address,
    pub usdc_deposited: u64,
    /// Balance free to be reserved.
    pub usdc_available: u64,
    /// Balance held for authorized, unsettled spends.
    pub usdc_reserved: u64,
    pub lifetime_deposits: u64,
    pub lifetime_spent: u64,
    pub daily_limit: u64,
    pub daily_spent: u64,
    pub last_daily_reset: i64,
    pub monthly_limit: u64,
    pub monthly_spent: u64,
    pub last_monthly_reset: i64,
    pub status: DebitStatus,
    pub is_initialized: bool,
}

/// Whether `now` falls in another window of length `window` than `last`:
/// the two times, divided by the window length, give different quotients.
pub open spec fn window_crossed(last: i64, now: i64, window: i64) -> bool {
    now as int / window as int != last as int / window as int
}

/// Amount already spent in the current window: none once a window boundary
/// was crossed.
pub open spec fn spent_in_window(spent: u64, last: i64, now: i64, window: i64) -> int {
    if window_crossed(last, now, window) {
        0
    } else {
        spent as int
    }
}

/// A spend operation on one account, as a step of a trace.
pub enum LedgerOp {
    Reserve(u64),
    Commit(u64, i64),
    Release(u64),
}

impl DebitAccount {
    /// Balance still held by the account: available plus reserved.
    pub open spec fn held(self) -> int {
        self.usdc_available as int + self.usdc_reserved as int
    }

    pub open spec fn can_spend_spec(self, amount: u64, now: i64) -> bool {
        &&& self.status == DebitStatus::Active
        &&& self.usdc_available >= amount
        &&& spent_in_window(self.daily_spent, self.last_daily_reset, now, SECONDS_PER_DAY) + amount
            <= self.daily_limit
        &&& spent_in_window(self.monthly_spent, self.last_monthly_reset, now, SECONDS_PER_MONTH)
            + amount <= self.monthly_limit
    }

    pub open spec fn reserve_spec(self, amount: u64) -> Result<DebitAccount, CreditError> {
        if self.usdc_available < amount {
            Err(CreditError::InsufficientBalance)
        } else if self.usdc_reserved + amount > u64::MAX {
            Err(CreditError::MathOverflow)
        } else {
            Ok(
                DebitAccount {
                    usdc_available: (self.usdc_available - amount) as u64,
                    usdc_reserved: (self.usdc_reserved + amount) as u64,
                    ..self
                },
            )
        }
    }

    pub open spec fn commit_spec(self, amount: u64, now: i64) -> Result<DebitAccount, CreditError> {
        let daily_crossed = window_crossed(self.last_daily_reset, now, SECONDS_PER_DAY);
        let monthly_crossed = window_crossed(self.last_monthly_reset, now, SECONDS_PER_MONTH);
        if self.usdc_reserved < amount {
            Err(CreditError::InsufficientBalance)
        } else if self.lifetime_spent + amount > u64::MAX {
            Err(CreditError::MathOverflow)
        } else if !daily_crossed && self.daily_spent + amount > u64::MAX {
            Err(CreditError::MathOverflow)
        } else if !monthly_crossed && self.monthly_spent + amount > u64::MAX {
            Err(CreditError::MathOverflow)
        } else {
            Ok(
                DebitAccount {
                    usdc_reserved: (self.usdc_reserved - amount) as u64,
                    lifetime_spent: (self.lifetime_spent + amount) as u64,
                    daily_spent: if daily_crossed {
                        amount
                    } else {
                        (self.daily_spent + amount) as u64
                    },
                    last_daily_reset: if daily_crossed {
                        now
                    } else {
                        self.last_daily_reset
                    },
                    monthly_spent: if monthly_crossed {
                        amount
                    } else {
                        (self.monthly_spent + amount) as u64
                    },
                    last_monthly_reset: if monthly_crossed {
                        now
                    } else {
                        self.last_monthly_reset
                    },
                    ..self
                },
            )
        }
    }

    pub open spec fn release_spec(self, amount: u64) -> Result<DebitAccount, CreditError> {
        if self.usdc_reserved < amount {
            Err(CreditError::InsufficientBalance)
        } else if self.usdc_available + amount > u64::MAX {
            Err(CreditError::MathOverflow)
        } else {
            Ok(
                DebitAccount {
                    usdc_reserved: (self.usdc_reserved - amount) as u64,
                    usdc_available: (self.usdc_available + amount) as u64,
                    ..self
                },
            )
        }
    }

    pub open spec fn apply_op(self, op: LedgerOp) -> Result<DebitAccount, CreditError> {
        match op {
            LedgerOp::Reserve(a) => self.reserve_spec(a),
            LedgerOp::Commit(a, now) => self.commit_spec(a, now),
            LedgerOp::Release(a) => self.release_spec(a),
        }
    }

    /// The account after each operation of `ops` in turn; an operation that
    /// fails leaves the account as it was.
    pub open spec fn apply_ops(self, ops: Seq<LedgerOp>) -> DebitAccount
        decreases ops.len(),
    {
        if ops.len() == 0 {
            self
        } else {
            let next = match self.apply_op(ops[0]) {
                Ok(a) => a,
                Err(_) => self,
            };
            next.apply_ops(ops.drop_first())
        }
    }

    /// Whether the daily window has rolled over since the last daily reset.
    pub fn needs_daily_reset(&self, current_timestamp: i64) -> (r: bool)
        ensures
            r == window_crossed(self.last_daily_reset, current_timestamp, SECONDS_PER_DAY),
    {
        current_timestamp.checked_div_euclid(SECONDS_PER_DAY) != self.last_daily_reset.checked_div_euclid(
            SECONDS_PER_DAY,
        )
    }

    /// Whether the monthly window has rolled over since the last monthly reset.
    pub fn needs_monthly_reset(&self, current_timestamp: i64) -> (r: bool)
        ensures
            r == window_crossed(self.last_monthly_reset, current_timestamp, SECONDS_PER_MONTH),
    {
        current_timestamp.checked_div_euclid(SECONDS_PER_MONTH)
            != self.last_monthly_reset.checked_div_euclid(SECONDS_PER_MONTH)
    }

    /// Whether a spend of `amount` at `current_timestamp` is allowed: the
    /// account is active, the balance covers it, and neither the daily nor the
    /// monthly limit would be exceeded, counting a crossed window as empty.
    pub fn can_spend(&self, amount: u64, current_timestamp: i64) -> (r: Result<bool, CreditError>)
        ensures
            r == Ok::<bool, CreditError>(self.can_spend_spec(amount, current_timestamp)),
    {
        if self.status != DebitStatus::Active {
            return Ok(false);
        }
        if self.usdc_available < amount {
            return Ok(false);
        }
        let daily_spent: u64 = if self.needs_daily_reset(current_timestamp) {
            0
        } else {
            self.daily_spent
        };
        if daily_spent as u128 + amount as u128 > self.daily_limit as u128 {
            return Ok(false);
        }
        let monthly_spent: u64 = if self.needs_monthly_reset(current_timestamp) {
            0
        } else {
            self.monthly_spent
        };
        if monthly_spent as u128 + amount as u128 > self.monthly_limit as u128 {
            return Ok(false);
        }
        Ok(true)
    }

    /// Moves `amount` from available to reserved.
    pub fn reserve_funds(&mut self, amount: u64) -> (r: Result<(), CreditError>)
        ensures
            match old(self).reserve_spec(amount) {
                Ok(a) => r is Ok && *final(self) == a,
                Err(e) => r == Err::<(), CreditError>(e) && *final(self) == *old(self),
            },
    {
        if self.usdc_available < amount {
            return Err(CreditError::InsufficientBalance);
        }
        let reserved = match self.usdc_reserved.checked_add(amount) {
            Some(v) => v,
            None => {
                return Err(CreditError::MathOverflow);
            },
        };
        self.usdc_available = self.usdc_available - amount;
        self.usdc_reserved = reserved;
        Ok(())
    }

    /// Settles `amount` of the reserved balance as spent at `current_timestamp`,
    /// rolling the daily and monthly totals: a total whose window was crossed
    /// restarts at `amount`, otherwise `amount` is added to it.
    pub fn commit_reserved(&mut self, amount: u64, current_timestamp: i64) -> (r: Result<(), CreditError>)
        ensures
            match old(self).commit_spec(amount, current_timestamp) {
                Ok(a) => r is Ok && *final(self) == a,
                Err(e) => r == Err::<(), CreditError>(e) && *final(self) == *old(self),
            },
    {
        if self.usdc_reserved < amount {
            return Err(CreditError::InsufficientBalance);
        }
        let lifetime_spent = match self.lifetime_spent.checked_add(amount) {
            Some(v) => v,
            None => {
                return Err(CreditError::MathOverflow);
            },
        };
        let daily_reset = self.needs_daily_reset(current_timestamp);
        let monthly_reset = self.needs_monthly_reset(current_timestamp);
        let daily_spent = if daily_reset {
            amount
        } else {
            match self.daily_spent.checked_add(amount) {
                Some(v) => v,
                None => {
                    return Err(CreditError::MathOverflow);
                },
            }
        };
        let monthly_spent = if monthly_reset {
            amount
        } else {
            match self.monthly_spent.checked_add(amount) {
                Some(v) => v,
                None => {
                    return Err(CreditError::MathOverflow);
                },
            }
        };
        self.usdc_reserved = self.usdc_reserved - amount;
        self.lifetime_spent = lifetime_spent;
        self.daily_spent = daily_spent;
        if daily_reset {
            self.last_daily_reset = current_timestamp;
        }
        self.monthly_spent = monthly_spent;
        if monthly_reset {
            self.last_monthly_reset = current_timestamp;
        }
        Ok(())
    }

    /// Returns `amount` of the reserved balance to available (a cancelled hold).
    pub fn release_reserved(&mut self, amount: u64) -> (r: Result<(), CreditError>)
        ensures
            match old(self).release_spec(amount) {
                Ok(a) => r is Ok && *final(self) == a,
                Err(e) => r == Err::<(), CreditError>(e) && *final(self) == *old(self),
            },
    {
        if self.usdc_reserved < amount {
            return Err(CreditError::InsufficientBalance);
        }
        let available = match self.usdc_available.checked_add(amount) {
            Some(v) => v,
            None => {
                return Err(CreditError::MathOverflow);
            },
        };
        self.usdc_reserved = self.usdc_reserved - amount;
        self.usdc_available = available;
        Ok(())
    }
}

/// Over any sequence of reserves, commits and releases on one account, the
/// held balance (available plus reserved) falls by exactly what moved into
/// `lifetime_spent`, and by nothing else; it never goes below zero.
pub proof fn lemma_reservation_conservation(account: DebitAccount, ops: Seq<LedgerOp>)
    ensures
        account.apply_ops(ops).held() + account.apply_ops(ops).lifetime_spent == account.held()
            + account.lifetime_spent,
        account.apply_ops(ops).lifetime_spent >= account.lifetime_spent,
        account.apply_ops(ops).held() <= account.held(),
        account.apply_ops(ops).held() >= 0,
    decreases ops.len(),
{
    if ops.len() > 0 {
        let next = match account.apply_op(ops[0]) {
            Ok(a) => a,
            Err(_) => account,
        };
        lemma_reservation_conservation(next, ops.drop_first());
    }
}

} // verus!
