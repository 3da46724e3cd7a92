use vstd::prelude::*;
use vstd::arithmetic::div_mod::{lemma_fundamental_div_mod, lemma_fundamental_div_mod_converse};
use crate::constants::{BPS_PRECISION, COLLATERAL_UNIT, RAY_PRECISION, SECONDS_PER_YEAR};
use crate::errors::CreditError;

verus! {

/// Growth of the borrow index over `elapsed` seconds at `rate_bps` a year,
/// in the index's fixed-point representation, before adding one.
pub open spec fn index_growth(rate_bps: int, elapsed: int) -> int {
    rate_bps * RAY_PRECISION / 10_000 * elapsed / SECONDS_PER_YEAR as int
}

/// The multiplier `1 + rate * elapsed / year` in fixed point.
pub open spec fn growth_factor(rate_bps: int, elapsed: int) -> int {
    RAY_PRECISION + index_growth(rate_bps, elapsed)
}

/// The borrow index after accruing interest for `elapsed` seconds.
pub open spec fn accrued_index(index: int, rate_bps: int, elapsed: int) -> int {
    index * growth_factor(rate_bps, elapsed) / RAY_PRECISION as int
}

/// Whether `accrue` can represent every intermediate and the final value.
pub open spec fn accrual_fits(index: int, rate_bps: int, elapsed: int) -> bool {
    growth_factor(rate_bps, elapsed) <= u128::MAX && accrued_index(index, rate_bps, elapsed)
        <= u128::MAX
}

/// Seconds elapsed from `last` to `now`; a clock that went backwards counts as none.
pub open spec fn elapsed_seconds(last: i64, now: i64) -> int {
    if now >= last {
        now - last
    } else {
        0
    }
}

proof fn lemma_div_add_multiple(q: int, r: int, d: int)
    requires
        d > 0,
        r >= 0,
    ensures
        (q * d + r) / d == q + r / d,
{
    lemma_fundamental_div_mod(r, d);
    assert(q * d + r == (q + r / d) * d + r % d) by (nonlinear_arith)
        requires
            r == d * (r / d) + r % d,
    ;
    lemma_fundamental_div_mod_converse(q * d + r, d, q + r / d, r % d);
}

proof fn lemma_product_digits(
    a: int,
    b: int,
    a0: int,
    a1: int,
    a2: int,
    b0: int,
    b1: int,
    b2: int,
)
    requires
        a == a2 * 1_000_000_000_000_000_000 + a1 * 1_000_000_000 + a0,
        b == b2 * 1_000_000_000_000_000_000 + b1 * 1_000_000_000 + b0,
    ensures
        a * b == (a2 * b2 * 1_000_000_000 + (a1 * b2 + a2 * b1)) * 1_000_000_000_000_000_000_000_000_000
            + ((a0 * b2 + a1 * b1 + a2 * b0) * 1_000_000_000_000_000_000 + (a0 * b1 + a1 * b0)
            * 1_000_000_000 + a0 * b0),
{
    assert(a * b == (a2 * b2 * 1_000_000_000 + (a1 * b2 + a2 * b1)) * 1_000_000_000_000_000_000_000_000_000
        + ((a0 * b2 + a1 * b1 + a2 * b0) * 1_000_000_000_000_000_000 + (a0 * b1 + a1 * b0)
        * 1_000_000_000 + a0 * b0)) by (nonlinear_arith)
        requires
            a == a2 * 1_000_000_000_000_000_000 + a1 * 1_000_000_000 + a0,
            b == b2 * 1_000_000_000_000_000_000 + b1 * 1_000_000_000 + b0,
    ;
}

/// `floor(a * b / RAY)` for two values below RAY, whose product would not fit
/// in 128 bits: the product is formed in base-10^9 digits.
fn mul_ray_small(a: u128, b: u128) -> (r: u128)
    requires
        a < RAY_PRECISION,
        b < RAY_PRECISION,
    ensures
        r == (a as int) * (b as int) / RAY_PRECISION as int,
{
    let e: u128 = 1_000_000_000;
    let a0 = a % e;
    let a1 = (a / e) % e;
    let a2 = a / e / e;
    let b0 = b % e;
    let b1 = (b / e) % e;
    let b2 = b / e / e;
    proof {
        lemma_fundamental_div_mod(a as int, e as int);
        lemma_fundamental_div_mod((a / e) as int, e as int);
        lemma_fundamental_div_mod(b as int, e as int);
        lemma_fundamental_div_mod((b / e) as int, e as int);
        assert(a2 < e) by {
            vstd::arithmetic::div_mod::lemma_div_denominator(a as int, e as int, e as int);
        }
        assert(b2 < e) by {
            vstd::arithmetic::div_mod::lemma_div_denominator(b as int, e as int, e as int);
        }
        assert(a0 * b0 < e * e) by (nonlinear_arith) requires a0 < e, b0 < e;
        assert(a0 * b1 < e * e) by (nonlinear_arith) requires a0 < e, b1 < e;
        assert(a1 * b0 < e * e) by (nonlinear_arith) requires a1 < e, b0 < e;
        assert(a0 * b2 < e * e) by (nonlinear_arith) requires a0 < e, b2 < e;
        assert(a1 * b1 < e * e) by (nonlinear_arith) requires a1 < e, b1 < e;
        assert(a2 * b0 < e * e) by (nonlinear_arith) requires a2 < e, b0 < e;
        assert(a1 * b2 < e * e) by (nonlinear_arith) requires a1 < e, b2 < e;
        assert(a2 * b1 < e * e) by (nonlinear_arith) requires a2 < e, b1 < e;
        assert(a2 * b2 < e * e) by (nonlinear_arith) requires a2 < e, b2 < e;
        assert(a == a2 * 1_000_000_000_000_000_000 + a1 * 1_000_000_000 + a0);
        assert(b == b2 * 1_000_000_000_000_000_000 + b1 * 1_000_000_000 + b0);
    }
    let c0 = a0 * b0;
    let c1 = a0 * b1 + a1 * b0;
    let c2 = a0 * b2 + a1 * b1 + a2 * b0;
    let c3 = a1 * b2 + a2 * b1;
    let c4 = a2 * b2;
    let low = c2 * 1_000_000_000_000_000_000 + c1 * 1_000_000_000 + c0;
    proof {
        lemma_product_digits(a as int, b as int, a0 as int, a1 as int, a2 as int, b0 as int, b1 as int, b2 as int);
        lemma_div_add_multiple((c4 * e + c3) as int, low as int, RAY_PRECISION as int);
    }
    c4 * e + c3 + low / RAY_PRECISION
}

/// Grows a borrow index by `rate_bps` a year over `elapsed` seconds:
/// `index * (RAY + rate_bps * RAY / 10_000 * elapsed / year) / RAY`, with every
/// product formed exactly. Fails with `MathOverflow` exactly when the growth
/// factor or the new index does not fit in 128 bits.
pub fn accrue(index: u128, rate_bps: u16, elapsed: u64) -> (r: Result<u128, CreditError>)
    ensures
        r == accrue_result(index as int, rate_bps as int, elapsed as int),
        elapsed == 0 ==> r == Ok::<u128, CreditError>(index),
        r matches Ok(v) ==> v >= index,
{
    let ray: u128 = RAY_PRECISION;
    let x: u128 = rate_bps as u128 * 100_000_000_000_000_000_000_000;
    let year: u64 = SECONDS_PER_YEAR;
    let eq = elapsed / year;
    let er = elapsed % year;
    let ghost g_spec = index_growth(rate_bps as int, elapsed as int);
    proof {
        if elapsed == 0 {
            lemma_accrual_zero_elapsed(index as int, rate_bps as int);
        }
        lemma_accrual_monotonic(index as int, rate_bps as int, elapsed as int);
        lemma_fundamental_div_mod_converse(
            rate_bps as int * RAY_PRECISION as int,
            10_000,
            x as int,
            0,
        );
        lemma_fundamental_div_mod(elapsed as int, year as int);
        assert(x * elapsed == (x * eq) * year + x * er) by (nonlinear_arith)
            requires
                elapsed == year * eq + er,
        ;
        lemma_div_add_multiple((x * eq) as int, (x * er) as int, year as int);
        assert(x * er <= x * year) by (nonlinear_arith)
            requires er < year;
        assert(g_spec == x * eq + (x * er) / (year as int));
    }
    let whole_years = match x.checked_mul(eq as u128) {
        Some(v) => v,
        None => {
            return Err(CreditError::MathOverflow);
        },
    };
    let g = match whole_years.checked_add(x * er as u128 / year as u128) {
        Some(v) => v,
        None => {
            return Err(CreditError::MathOverflow);
        },
    };
    if g > u128::MAX - ray {
        return Err(CreditError::MathOverflow);
    }
    // index * (RAY + g) / RAY == index + index * g / RAY, with index and g
    // split at RAY so that no product exceeds 128 bits unless the result does.
    let iq = index / ray;
    let ir = index % ray;
    let gq = g / ray;
    let gr = g % ray;
    let ghost acc = accrued_index(index as int, rate_bps as int, elapsed as int);
    proof {
        lemma_fundamental_div_mod(index as int, ray as int);
        lemma_fundamental_div_mod(g as int, ray as int);
        assert(index * (ray + g) == (index + iq * g + ir * gq) * ray + ir * gr) by (nonlinear_arith)
            requires
                index == ray * iq + ir,
                g == ray * gq + gr,
        ;
        assert(ir * gr >= 0) by (nonlinear_arith) requires ir >= 0, gr >= 0;
        lemma_div_add_multiple((index + iq * g + ir * gq) as int, (ir * gr) as int, ray as int);
        assert(iq * g >= 0 && ir * gq >= 0) by (nonlinear_arith)
            requires iq >= 0, g >= 0, ir >= 0, gq >= 0;
        assert(acc == index + iq * g + ir * gq + (ir * gr) / (ray as int));
    }
    let t1 = match iq.checked_mul(g) {
        Some(v) => v,
        None => {
            return Err(CreditError::MathOverflow);
        },
    };
    let t2 = match ir.checked_mul(gq) {
        Some(v) => v,
        None => {
            return Err(CreditError::MathOverflow);
        },
    };
    let t3 = mul_ray_small(ir, gr);
    let s1 = match index.checked_add(t1) {
        Some(v) => v,
        None => {
            return Err(CreditError::MathOverflow);
        },
    };
    let s2 = match s1.checked_add(t2) {
        Some(v) => v,
        None => {
            return Err(CreditError::MathOverflow);
        },
    };
    match s2.checked_add(t3) {
        Some(v) => Ok(v),
        None => Err(CreditError::MathOverflow),
    }
}


/// No time, no interest: accruing over zero seconds leaves any index as it
/// is, and then fits exactly when the index does.
pub proof fn lemma_accrual_zero_elapsed(index: int, rate_bps: int)
    requires
        0 <= index,
        0 <= rate_bps,
    ensures
        accrued_index(index, rate_bps, 0) == index,
        accrual_fits(index, rate_bps, 0) <==> index <= u128::MAX,
{
    assert(index_growth(rate_bps, 0) == 0) by (nonlinear_arith);
    lemma_div_add_multiple(index, 0, RAY_PRECISION as int);
    assert(index * growth_factor(rate_bps, 0) == index * RAY_PRECISION as int);
}

/// Accruing over any non-negative time at any non-negative rate never
/// lowers the index.
pub proof fn lemma_accrual_monotonic(index: int, rate_bps: int, elapsed: int)
    requires
        0 <= index,
        0 <= rate_bps,
        0 <= elapsed,
    ensures
        accrued_index(index, rate_bps, elapsed) >= index,
{
    let g = index_growth(rate_bps, elapsed);
    assert(g >= 0) by (nonlinear_arith)
        requires
            rate_bps >= 0,
            elapsed >= 0,
            g == rate_bps * RAY_PRECISION / 10_000 * elapsed / SECONDS_PER_YEAR as int,
    ;
    assert(index * growth_factor(rate_bps, elapsed) == index * RAY_PRECISION as int + index * g) by (nonlinear_arith)
        requires growth_factor(rate_bps, elapsed) == RAY_PRECISION + g;
    assert(index * g >= 0) by (nonlinear_arith) requires index >= 0, g >= 0;
    lemma_div_add_multiple(index, index * g, RAY_PRECISION as int);
    assert((index * g) / (RAY_PRECISION as int) >= 0) by (nonlinear_arith) requires index * g >= 0;
}

/// Refreshes a borrow index last updated at `last_update_timestamp` to
/// `current_timestamp`. A clock that moved backwards accrues nothing.
pub fn calculate_borrow_index(
    last_update_timestamp: i64,
    current_timestamp: i64,
    borrow_index: u128,
    interest_rate_bps: u16,
) -> (r: Result<u128, CreditError>)
    ensures
        r == accrue_result(
            borrow_index as int,
            interest_rate_bps as int,
            elapsed_seconds(last_update_timestamp, current_timestamp),
        ),
{
    let elapsed: u64 = if current_timestamp >= last_update_timestamp {
        (current_timestamp as i128 - last_update_timestamp as i128) as u64
    } else {
        0
    };
    accrue(borrow_index, interest_rate_bps, elapsed)
}

/// What `accrue` returns, as a value.
pub open spec fn accrue_result(index: int, rate_bps: int, elapsed: int) -> Result<u128, CreditError> {
    if accrual_fits(index, rate_bps, elapsed) {
        Ok(accrued_index(index, rate_bps, elapsed) as u128)
    } else {
        Err(CreditError::MathOverflow)
    }
}

/// Value, in price units, of `amount` collateral units at `price` per whole token.
pub open spec fn collateral_value(amount: int, price: int) -> int {
    amount * price / COLLATERAL_UNIT as int
}

/// Part of a collateral value that counts against debt.
pub open spec fn liquidation_value(value: int, threshold_bps: int) -> int {
    value * threshold_bps / 10_000
}

/// Health factor in basis points: discounted collateral value over debt,
/// saturating at `u64::MAX`, which also stands for "no debt".
pub open spec fn health_factor(value: int, debt: int, threshold_bps: int) -> int {
    if debt == 0 {
        u64::MAX as int
    } else {
        let hf = liquidation_value(value, threshold_bps) * 10_000 / debt;
        if hf > u64::MAX {
            u64::MAX as int
        } else {
            hf
        }
    }
}

/// Largest amount that may be borrowed against `value` at `ltv_bps`.
pub open spec fn max_borrow(value: int, ltv_bps: int) -> int {
    value * ltv_bps / 10_000
}

/// Result of a checked computation whose exact value is `v`.
pub open spec fn checked_u64(v: int) -> Result<u64, CreditError> {
    if 0 <= v <= u64::MAX {
        Ok(v as u64)
    } else {
        Err(CreditError::MathOverflow)
    }
}

/// Health factor from a collateral value held in 128 bits.
pub(crate) fn health_factor_of_value(value: u128, debt: u64, threshold_bps: u16) -> (r: u64)
    requires
        value < 0x10_0000_0000_0000_0000_0000_0000,
    ensures
        r == health_factor(value as int, debt as int, threshold_bps as int),
{
    if debt == 0 {
        return u64::MAX;
    }
    proof {
        assert(value * threshold_bps < 0x1_0000_0000_0000_0000_0000_0000_0000_0000) by (nonlinear_arith)
            requires
                value < 0x10_0000_0000_0000_0000_0000_0000,
                threshold_bps < 0x10000,
        ;
        lemma_fundamental_div_mod((value * threshold_bps) as int, 10_000);
    }
    let lv = value * threshold_bps as u128 / BPS_PRECISION as u128;
    let hf = lv * BPS_PRECISION as u128 / debt as u128;
    if hf > u64::MAX as u128 {
        u64::MAX
    } else {
        hf as u64
    }
}

/// Health factor, in basis points, of collateral worth `collateral_value_usdc`
/// against `debt_usdc`: `u64::MAX` when there is no debt.
pub fn calculate_health_factor(collateral_value_usdc: u64, debt_usdc: u64, liquidation_threshold_bps: u16) -> (r: Result<u64, CreditError>)
    ensures
        r == Ok::<u64, CreditError>(
            health_factor(
                collateral_value_usdc as int,
                debt_usdc as int,
                liquidation_threshold_bps as int,
            ) as u64,
        ),
{
    Ok(health_factor_of_value(collateral_value_usdc as u128, debt_usdc, liquidation_threshold_bps))
}

/// Value of `collateral_amount` units at `price`, held in 128 bits.
pub(crate) fn collateral_value_of(collateral_amount: u64, price: u64) -> (r: u128)
    ensures
        r == collateral_value(collateral_amount as int, price as int),
        r < 0x10_0000_0000_0000_0000_0000_0000,
{
    proof {
        assert(collateral_amount * price <= 0xffff_ffff_ffff_ffff * 0xffff_ffff_ffff_ffff) by (nonlinear_arith)
            requires collateral_amount <= 0xffff_ffff_ffff_ffff, price <= 0xffff_ffff_ffff_ffff;
    }
    collateral_amount as u128 * price as u128 / COLLATERAL_UNIT
}

/// Largest amount that may be borrowed against collateral worth
/// `collateral_value_usdc` at `ltv_max_bps`.
pub fn calculate_max_borrow(collateral_value_usdc: u64, ltv_max_bps: u16) -> (r: Result<u64, CreditError>)
    ensures
        r == checked_u64(max_borrow(collateral_value_usdc as int, ltv_max_bps as int)),
{
    proof {
        assert(collateral_value_usdc * ltv_max_bps <= 0xffff_ffff_ffff_ffff * 0xffff) by (nonlinear_arith)
            requires collateral_value_usdc <= 0xffff_ffff_ffff_ffff, ltv_max_bps <= 0xffff;
    }
    let v = collateral_value_usdc as u128 * ltv_max_bps as u128 / BPS_PRECISION as u128;
    if v > u64::MAX as u128 {
        Err(CreditError::MathOverflow)
    } else {
        Ok(v as u64)
    }
}

/// Credit limit of `collateral_amount` units at `price` and `ltv_max_bps`.
pub fn calculate_credit_limit(collateral_amount: u64, price: u64, ltv_max_bps: u16) -> (r: Result<u64, CreditError>)
    ensures
        r == checked_u64(
            max_borrow(collateral_value(collateral_amount as int, price as int), ltv_max_bps as int),
        ),
{
    let value = collateral_value_of(collateral_amount, price);
    proof {
        assert(value * ltv_max_bps < 0x10_0000_0000_0000_0000_0000_0000 * 0x10000) by (nonlinear_arith)
            requires value < 0x10_0000_0000_0000_0000_0000_0000, ltv_max_bps <= 0xffff;
    }
    let v = value * ltv_max_bps as u128 / BPS_PRECISION as u128;
    if v > u64::MAX as u128 {
        Err(CreditError::MathOverflow)
    } else {
        Ok(v as u64)
    }
}

/// Bonus, in price units, that a liquidator earns on `repay_amount`.
pub fn calculate_liquidation_bonus(repay_amount: u64, liquidation_bonus_bps: u16) -> (r: Result<u64, CreditError>)
    ensures
        r == checked_u64(repay_amount as int * liquidation_bonus_bps as int / 10_000),
{
    proof {
        assert(repay_amount * liquidation_bonus_bps <= 0xffff_ffff_ffff_ffff * 0xffff) by (nonlinear_arith)
            requires repay_amount <= 0xffff_ffff_ffff_ffff, liquidation_bonus_bps <= 0xffff;
    }
    let v = repay_amount as u128 * liquidation_bonus_bps as u128 / BPS_PRECISION as u128;
    if v > u64::MAX as u128 {
        Err(CreditError::MathOverflow)
    } else {
        Ok(v as u64)
    }
}

/// Collateral units worth `value` at `price` per whole token, rounded down.
/// Fails with `MathOverflow` on a zero price or a result beyond 64 bits.
pub fn usdc_to_collateral(value: u64, price: u64) -> (r: Result<u64, CreditError>)
    ensures
        price == 0 ==> r == Err::<u64, CreditError>(CreditError::MathOverflow),
        price > 0 ==> r == checked_u64(value as int * COLLATERAL_UNIT as int / price as int),
{
    if price == 0 {
        return Err(CreditError::MathOverflow);
    }
    let v = value as u128 * COLLATERAL_UNIT / price as u128;
    if v > u64::MAX as u128 {
        Err(CreditError::MathOverflow)
    } else {
        Ok(v as u64)
    }
}


/// `a * r == q * d + rem` with `rem < d`, for `r < d`: the product is
/// divided one bit of `a` at a time, so nothing exceeds 128 bits.
fn mul_div_rem(a: u64, r: u128, d: u128) -> (res: (u128, u128))
    requires
        r < d,
    ensures
        a as int * r as int == res.0 as int * d as int + res.1 as int,
        res.1 < d,
        res.0 <= a,
    decreases a,
{
    if a == 0 {
        proof {
            assert(a as int * r as int == 0) by (nonlinear_arith) requires a == 0;
        }
        return (0, 0);
    }
    let h = a / 2;
    let bit = a % 2;
    let (q0, rem0) = mul_div_rem(h, r, d);
    // Double: 2 * h * r == 2 * q0 * d + 2 * rem0.
    let (q1, rem1) = if rem0 >= d - rem0 {
        (2 * q0 + 1, rem0 - (d - rem0))
    } else {
        (2 * q0, 2 * rem0)
    };
    proof {
        assert(2 * (h as int * r as int) == q1 * d + rem1) by (nonlinear_arith)
            requires
                h as int * r as int == q0 * d + rem0,
                (q1 == 2 * q0 + 1 && rem1 == 2 * rem0 - d) || (q1 == 2 * q0 && rem1 == 2 * rem0),
        ;
    }
    // Add r when the bit is set.
    let (q2, rem2) = if bit == 1 {
        if rem1 >= d - r {
            (q1 + 1, rem1 - (d - r))
        } else {
            (q1, rem1 + r)
        }
    } else {
        (q1, rem1)
    };
    proof {
        assert(a as int * r as int == 2 * (h as int * r as int) + bit as int * r as int)
            by (nonlinear_arith)
            requires
                a == 2 * h + bit,
        ;
        assert(a as int * r as int == q2 * d + rem2) by (nonlinear_arith)
            requires
                a as int * r as int == 2 * (h as int * r as int) + bit as int * r as int,
                2 * (h as int * r as int) == q1 * d + rem1,
                (bit == 1 && ((q2 == q1 + 1 && rem2 == rem1 + r - d) || (q2 == q1 && rem2 == rem1
                    + r))) || (bit == 0 && q2 == q1 && rem2 == rem1),
        ;
        assert(q2 <= a) by (nonlinear_arith)
            requires
                a as int * r as int == q2 * d + rem2,
                r < d,
                rem2 >= 0,
                a >= 1,
        ;
    }
    (q2, rem2)
}

/// `floor(a * b / d)` when it fits in 64 bits, computed exactly.
pub(crate) fn mul_div_floor(a: u64, b: u128, d: u128) -> (res: Option<u64>)
    requires
        d > 0,
    ensures
        res == (if a as int * b as int / d as int <= u64::MAX {
            Some((a as int * b as int / d as int) as u64)
        } else {
            None::<u64>
        }),
{
    let q = b / d;
    let r = b % d;
    let (q2, rem2) = mul_div_rem(a, r, d);
    proof {
        lemma_fundamental_div_mod(b as int, d as int);
        assert(a as int * b as int == (a * q + q2) * d + rem2) by (nonlinear_arith)
            requires
                b == d * q + r,
                a as int * r as int == q2 * d + rem2,
        ;
        lemma_fundamental_div_mod_converse(a as int * b as int, d as int, a * q + q2, rem2 as int);
        assert(a * q >= 0) by (nonlinear_arith) requires a >= 0, q >= 0;
    }
    let whole = match (a as u128).checked_mul(q) {
        Some(v) => v,
        None => {
            return None;
        },
    };
    match whole.checked_add(q2) {
        Some(v) => if v > u64::MAX as u128 {
            None
        } else {
            Some(v as u64)
        },
        None => None,
    }
}

} // verus!
