use credit_core::config::{Config, InitializeParams, UpdateParams};
use credit_core::constants::{RAY_PRECISION, SECONDS_PER_YEAR};
use credit_core::errors::CreditError;
use credit_core::instructions::{
    admin_set_params, admin_set_paused, deposit_collateral, deposit_collateral_wsol, init_position,
    initialize, liquidate, record_debt, repay_usdc, withdraw_collateral,
};
use credit_core::oracle::{PriceFeed, PriceOracle, PriceSource};
use credit_core::types::{Address, Clock};
use credit_core::user_position::UserPosition;
use credit_core::utils::{
    accrue, calculate_borrow_index, calculate_credit_limit, calculate_health_factor,
    calculate_liquidation_bonus, calculate_max_borrow, usdc_to_collateral,
};

const ONE_SOL: u64 = 1_000_000_000;
const ONE_USD: u64 = 1_000_000;

fn addr(b: u8) -> Address {
    Address::new([b; 32])
}

fn clock(slot: u64, ts: i64) -> Clock {
    Clock { slot, unix_timestamp: ts }
}

fn params() -> InitializeParams {
    InitializeParams {
        ltv_max_bps: 5000,
        liquidation_threshold_bps: 6000,
        liquidation_bonus_bps: 600,
        interest_rate_bps: 1200,
        sol_usd_oracle: addr(10),
        jito_sol_usd_oracle: addr(11),
        usdc_mint: addr(12),
        jito_sol_mint: addr(13),
        wsol_mint: addr(14),
    }
}

fn new_config() -> Config {
    initialize::handler(&addr(1), &params(), &clock(100, 1_000)).unwrap()
}

fn oracle_at(price_usd: i64, slot: u64) -> PriceOracle {
    PriceOracle {
        source: PriceSource::TrustedFeed,
        trusted_owner: addr(99),
        feed: Ok(PriceFeed {
            owner: addr(99),
            status: 1,
            price: price_usd * 100_000_000,
            conf: 0,
            expo: -8,
            publish_slot: slot,
        }),
    }
}

fn no_updates() -> UpdateParams {
    UpdateParams {
        ltv_max_bps: None,
        liquidation_threshold_bps: None,
        liquidation_bonus_bps: None,
        interest_rate_bps: None,
        sol_usd_oracle: None,
        jito_sol_usd_oracle: None,
        new_admin: None,
        enforce_credit_limit: None,
    }
}

fn position_for(owner: Address, config: &Config) -> UserPosition {
    init_position::handler(config, &owner, &clock(100, 1_000)).unwrap()
}

#[test]
fn accrue_with_no_elapsed_time_is_identity() {
    assert_eq!(accrue(RAY_PRECISION, 1200, 0), Ok(RAY_PRECISION));
    assert_eq!(accrue(123_456_789, 10_000, 0), Ok(123_456_789));
    assert_eq!(calculate_borrow_index(500, 500, RAY_PRECISION * 3, 1200), Ok(RAY_PRECISION * 3));
}

#[test]
fn accrue_one_year_at_twelve_percent() {
    let grown = accrue(RAY_PRECISION, 1200, SECONDS_PER_YEAR).unwrap();
    assert_eq!(grown, 1_120_000_000_000_000_000_000_000_000);
    assert!(grown >= RAY_PRECISION);
}

#[test]
fn accrue_one_day_is_monotonic_and_exact() {
    // 1e27 * (1e27 + 1200e23 * 86400 / 31536000) / 1e27
    let grown = accrue(RAY_PRECISION, 1200, 86_400).unwrap();
    assert_eq!(grown, RAY_PRECISION + 328_767_123_287_671_232_876_712);
    assert!(grown > RAY_PRECISION);
}

#[test]
fn accrue_on_large_index_stays_exact() {
    let index: u128 = 300_000_000_000_000_000_000_000_000_000_000_000;
    assert_eq!(accrue(index, 1000, SECONDS_PER_YEAR), Ok(330_000_000_000_000_000_000_000_000_000_000_000));
}

#[test]
fn accrue_overflow_is_reported() {
    assert_eq!(accrue(u128::MAX, 1200, SECONDS_PER_YEAR), Err(CreditError::MathOverflow));
}

#[test]
fn backwards_clock_accrues_nothing() {
    assert_eq!(calculate_borrow_index(2_000, 1_000, RAY_PRECISION, 1200), Ok(RAY_PRECISION));
}

#[test]
fn credit_limit_is_half_of_collateral_value() {
    assert_eq!(calculate_credit_limit(10 * ONE_SOL, 100 * ONE_USD, 5000), Ok(500 * ONE_USD));
    assert_eq!(calculate_max_borrow(1000 * ONE_USD, 5000), Ok(500 * ONE_USD));
}

#[test]
fn deposit_sets_credit_limit() {
    let mut config = new_config();
    let mut position = position_for(addr(2), &config);
    deposit_collateral::handler(
        &mut config,
        &mut position,
        &addr(2),
        10 * ONE_SOL,
        &clock(100, 1_000),
        &oracle_at(100, 100),
    )
    .unwrap();
    assert_eq!(position.credit_limit, 500 * ONE_USD);
    assert_eq!(position.collateral_amount, 10 * ONE_SOL);
    assert_eq!(config.total_collateral, 10 * ONE_SOL);
}

#[test]
fn debt_grows_with_the_index() {
    let config = new_config();
    let mut position = position_for(addr(2), &config);
    position.debt_usdc = 1000;
    position.borrow_index_snapshot = RAY_PRECISION;
    assert_eq!(
        position.calculate_debt_with_interest(1_100_000_000_000_000_000_000_000_000),
        Ok(1100)
    );
}

#[test]
fn large_debt_with_interest_is_exact() {
    let config = new_config();
    let mut position = position_for(addr(2), &config);
    position.debt_usdc = 10_000_000 * ONE_USD;
    position.borrow_index_snapshot = RAY_PRECISION;
    assert_eq!(
        position.calculate_debt_with_interest(1_100_000_000_000_000_000_000_000_000),
        Ok(11_000_000 * ONE_USD)
    );
}

#[test]
fn debt_with_interest_zero_debt_and_zero_snapshot() {
    let config = new_config();
    let mut position = position_for(addr(2), &config);
    position.borrow_index_snapshot = 0;
    assert_eq!(position.calculate_debt_with_interest(RAY_PRECISION), Ok(0));
    position.debt_usdc = 5;
    assert_eq!(position.calculate_debt_with_interest(RAY_PRECISION), Err(CreditError::MathOverflow));
}

#[test]
fn rebase_twice_leaves_debt_unchanged() {
    let config = new_config();
    let mut position = position_for(addr(2), &config);
    position.debt_usdc = 1000;
    position.borrow_index_snapshot = RAY_PRECISION;
    let index = 1_100_000_000_000_000_000_000_000_000;
    assert_eq!(position.rebase_debt(index), Ok(1100));
    assert_eq!(position.rebase_debt(index), Ok(1100));
    assert_eq!(position.debt_usdc, 1100);
    assert_eq!(position.borrow_index_snapshot, index);
}

#[test]
fn health_factor_below_one_is_liquidatable() {
    assert_eq!(calculate_health_factor(1000 * ONE_USD, 700 * ONE_USD, 6000), Ok(8571));
    assert_eq!(calculate_health_factor(1000 * ONE_USD, 0, 6000), Ok(u64::MAX));
    let config = new_config();
    let mut position = position_for(addr(2), &config);
    position.collateral_amount = 10 * ONE_SOL;
    assert_eq!(position.calculate_health_factor(100 * ONE_USD, 6000, 700 * ONE_USD), Ok(8571));
    assert_eq!(position.is_healthy(100 * ONE_USD, 6000, 700 * ONE_USD), Ok(false));
    assert_eq!(position.is_healthy(100 * ONE_USD, 6000, 600 * ONE_USD), Ok(true));
}

#[test]
fn liquidation_helpers() {
    assert_eq!(calculate_liquidation_bonus(1000, 600), Ok(60));
    assert_eq!(usdc_to_collateral(100 * ONE_USD, 100 * ONE_USD), Ok(ONE_SOL));
    assert_eq!(usdc_to_collateral(1, 0), Err(CreditError::MathOverflow));
    assert_eq!(usdc_to_collateral(u64::MAX, 1), Err(CreditError::MathOverflow));
}

#[test]
fn initialize_rejects_bad_parameters() {
    let mut p = params();
    p.ltv_max_bps = 6000;
    assert_eq!(initialize::handler(&addr(1), &p, &clock(0, 0)).err(), Some(CreditError::InvalidPercentage));
    let mut p = params();
    p.liquidation_bonus_bps = 2500;
    assert_eq!(initialize::handler(&addr(1), &p, &clock(0, 0)).err(), Some(CreditError::InvalidPercentage));
    let config = new_config();
    assert_eq!(config.global_borrow_index, RAY_PRECISION);
    assert!(!config.paused);
}

#[test]
fn set_params_keeps_ltv_below_threshold() {
    let mut config = new_config();
    let mut update = no_updates();
    update.ltv_max_bps = Some(6000);
    assert_eq!(admin_set_params::handler(&mut config, &addr(1), &update), Err(CreditError::InvalidPercentage));
    assert_eq!(config.ltv_max_bps, 5000);
    let mut update = no_updates();
    update.liquidation_threshold_bps = Some(8000);
    update.ltv_max_bps = Some(7000);
    // The loan-to-value ratio is checked first, against the old threshold.
    assert_eq!(admin_set_params::handler(&mut config, &addr(1), &update), Err(CreditError::InvalidPercentage));
    let mut update = no_updates();
    update.liquidation_threshold_bps = Some(8000);
    update.interest_rate_bps = Some(500);
    assert_eq!(admin_set_params::handler(&mut config, &addr(1), &update), Ok(()));
    assert_eq!(config.liquidation_threshold_bps, 8000);
    assert_eq!(config.interest_rate_bps, 500);
    assert_eq!(admin_set_params::handler(&mut config, &addr(2), &no_updates()), Err(CreditError::Unauthorized));
}

#[test]
fn pause_blocks_operations() {
    let mut config = new_config();
    let event = admin_set_paused::handler(&mut config, &addr(1), true, &clock(5, 77)).unwrap();
    assert!(event.paused);
    assert_eq!(event.timestamp, 77);
    assert!(config.paused);
    assert_eq!(admin_set_paused::handler(&mut config, &addr(3), false, &clock(5, 77)).err(), Some(CreditError::Unauthorized));
    let owner = addr(2);
    assert_eq!(init_position::handler(&config, &owner, &clock(0, 0)).err(), Some(CreditError::ProtocolPaused));
    let mut position = UserPosition {
        owner,
        collateral_mint: addr(13),
        collateral_amount: ONE_SOL,
        debt_usdc: 0,
        borrow_index_snapshot: RAY_PRECISION,
        last_update_slot: 0,
        last_update_timestamp: 0,
        lifetime_borrows: 0,
        lifetime_repayments: 0,
        liquidation_count: 0,
        is_initialized: true,
        credit_limit: 0,
    };
    assert_eq!(
        record_debt::handler(&mut config, &mut position, &owner, 10, &clock(0, 1_000)),
        Err(CreditError::ProtocolPaused)
    );
}

#[test]
fn deposit_checks() {
    let mut config = new_config();
    let mut position = position_for(addr(2), &config);
    let c = clock(100, 1_000);
    assert_eq!(
        deposit_collateral::handler(&mut config, &mut position, &addr(3), ONE_SOL, &c, &oracle_at(100, 100)),
        Err(CreditError::Unauthorized)
    );
    assert_eq!(
        deposit_collateral::handler(&mut config, &mut position, &addr(2), 1_000, &c, &oracle_at(100, 100)),
        Err(CreditError::AmountTooSmall)
    );
    let mut stale = oracle_at(100, 10);
    assert_eq!(
        deposit_collateral::handler(&mut config, &mut position, &addr(2), ONE_SOL, &c, &stale),
        Err(CreditError::StaleOracle)
    );
    assert_eq!(position.collateral_amount, 0);
    assert_eq!(config.total_collateral, 0);
    stale.source = PriceSource::FallbackConstant;
    assert_eq!(
        deposit_collateral::handler(&mut config, &mut position, &addr(2), ONE_SOL, &c, &stale),
        Ok(())
    );
    // The fallback price is $100: one SOL gives a $50 limit.
    assert_eq!(position.credit_limit, 50 * ONE_USD);
}

#[test]
fn wsol_deposit_sets_and_checks_the_mint() {
    let mut config = new_config();
    let mut position = position_for(addr(2), &config);
    position.collateral_mint = Address::zero();
    let c = clock(100, 1_000);
    let o = oracle_at(100, 100);
    assert_eq!(
        deposit_collateral_wsol::handler(&mut config, &mut position, &addr(2), &addr(13), ONE_SOL, &c, &o),
        Err(CreditError::InvalidCollateralMint)
    );
    assert_eq!(
        deposit_collateral_wsol::handler(&mut config, &mut position, &addr(2), &addr(14), ONE_SOL, &c, &o),
        Ok(())
    );
    assert_eq!(position.collateral_mint, addr(14));
    assert_eq!(position.collateral_amount, ONE_SOL);
    let mut other = position_for(addr(3), &config);
    assert_eq!(other.collateral_mint, addr(13));
    assert_eq!(
        deposit_collateral_wsol::handler(&mut config, &mut other, &addr(3), &addr(14), ONE_SOL, &c, &o),
        Err(CreditError::InvalidCollateralMint)
    );
}

fn funded_position(config: &mut Config, collateral: u64, debt: u64) -> UserPosition {
    let mut position = position_for(addr(2), config);
    deposit_collateral::handler(config, &mut position, &addr(2), collateral, &clock(100, 1_000), &oracle_at(100, 100))
        .unwrap();
    record_debt::handler(config, &mut position, &addr(2), debt, &clock(100, 1_000)).unwrap();
    position
}

#[test]
fn withdraw_keeps_health_buffer() {
    let mut config = new_config();
    // $1000 of collateral against $500 of debt: health 1.2.
    let mut position = funded_position(&mut config, 10 * ONE_SOL, 500 * ONE_USD);
    let c = clock(100, 1_000);
    let o = oracle_at(100, 100);
    // Withdrawing 2 SOL would leave health 0.96.
    assert_eq!(
        withdraw_collateral::handler(&mut config, &mut position, &addr(2), 2 * ONE_SOL, &c, &o),
        Err(CreditError::HealthFactorTooLow)
    );
    assert_eq!(position.collateral_amount, 10 * ONE_SOL);
    // Withdrawing 0.5 SOL leaves 9.5 SOL: health 1.14.
    assert_eq!(
        withdraw_collateral::handler(&mut config, &mut position, &addr(2), ONE_SOL / 2, &c, &o),
        Ok(())
    );
    assert_eq!(position.collateral_amount, 9 * ONE_SOL + ONE_SOL / 2);
    assert_eq!(position.credit_limit, 475 * ONE_USD);
    assert!(position.calculate_health_factor(100 * ONE_USD, 6000, position.debt_usdc).unwrap() >= 11_000);
    assert_eq!(
        withdraw_collateral::handler(&mut config, &mut position, &addr(2), 0, &c, &o),
        Err(CreditError::AmountTooSmall)
    );
    assert_eq!(
        withdraw_collateral::handler(&mut config, &mut position, &addr(2), 100 * ONE_SOL, &c, &o),
        Err(CreditError::InsufficientCollateral)
    );
}

#[test]
fn withdraw_everything_without_debt_clears_credit_limit() {
    let mut config = new_config();
    let mut position = funded_position(&mut config, 2 * ONE_SOL, 0);
    withdraw_collateral::handler(&mut config, &mut position, &addr(2), 2 * ONE_SOL, &clock(100, 1_000), &oracle_at(100, 100))
        .unwrap();
    assert_eq!(position.collateral_amount, 0);
    assert_eq!(position.credit_limit, 0);
    assert_eq!(config.total_collateral, 0);
}

#[test]
fn record_debt_accrues_and_optionally_checks_limit() {
    let mut config = new_config();
    let mut position = funded_position(&mut config, 10 * ONE_SOL, 1000 * ONE_USD);
    assert_eq!(position.debt_usdc, 1000 * ONE_USD);
    assert_eq!(config.total_debt_usdc, 1000 * ONE_USD);
    // One year later at 12%, the debt has grown to $1120 before $10 is added.
    let later = clock(200, 1_000 + SECONDS_PER_YEAR as i64);
    record_debt::handler(&mut config, &mut position, &addr(2), 10 * ONE_USD, &later).unwrap();
    assert_eq!(position.debt_usdc, 1130 * ONE_USD);
    assert_eq!(position.borrow_index_snapshot, config.global_borrow_index);
    let mut update = no_updates();
    update.enforce_credit_limit = Some(true);
    admin_set_params::handler(&mut config, &addr(1), &update).unwrap();
    assert_eq!(
        record_debt::handler(&mut config, &mut position, &addr(2), ONE_USD, &later),
        Err(CreditError::DebtLimitExceeded)
    );
}

#[test]
fn overpayment_repays_only_the_debt() {
    let mut config = new_config();
    let mut position = funded_position(&mut config, 10 * ONE_SOL, 100 * ONE_USD);
    let repaid = repay_usdc::handler(&mut config, &mut position, &addr(2), 150 * ONE_USD, &clock(100, 1_000)).unwrap();
    assert_eq!(repaid, 100 * ONE_USD);
    assert_eq!(position.debt_usdc, 0);
    assert_eq!(config.total_debt_usdc, 0);
    assert_eq!(position.lifetime_repayments, 100 * ONE_USD);
}

#[test]
fn partial_repay() {
    let mut config = new_config();
    let mut position = funded_position(&mut config, 10 * ONE_SOL, 100 * ONE_USD);
    let repaid = repay_usdc::handler(&mut config, &mut position, &addr(2), 40 * ONE_USD, &clock(100, 1_000)).unwrap();
    assert_eq!(repaid, 40 * ONE_USD);
    assert_eq!(position.debt_usdc, 60 * ONE_USD);
}

#[test]
fn liquidation_is_bounded() {
    let mut config = new_config();
    // $1000 of collateral and $700 of debt at $100: health 0.857.
    let mut position = funded_position(&mut config, 10 * ONE_SOL, 700 * ONE_USD);
    let c = clock(100, 1_000);
    let o = oracle_at(100, 100);
    let before = position;
    let event = liquidate::handler(&mut config, &mut position, &addr(2), &addr(7), 1_000 * ONE_USD, &c, &o).unwrap();
    assert_eq!(event.repay_amount, 350 * ONE_USD);
    // $350 plus a 6% bonus is $371, or 3.71 SOL.
    assert_eq!(event.collateral_seized, 3_710_000_000);
    assert_eq!(position.debt_usdc, 350 * ONE_USD);
    assert_eq!(position.collateral_amount, before.collateral_amount - 3_710_000_000);
    assert_eq!(position.liquidation_count, 1);
    assert_eq!(event.remaining_debt, 350 * ONE_USD);
    assert_eq!(event.liquidator, addr(7));
    assert_eq!(config.total_debt_usdc, 350 * ONE_USD);
    assert_eq!(config.total_collateral, before.collateral_amount - 3_710_000_000);
}

#[test]
fn liquidation_seizes_at_most_the_collateral() {
    let mut config = new_config();
    let mut position = funded_position(&mut config, ONE_SOL, 1000 * ONE_USD);
    let event = liquidate::handler(&mut config, &mut position, &addr(2), &addr(7), 500 * ONE_USD, &clock(100, 1_000), &oracle_at(100, 100))
        .unwrap();
    assert_eq!(event.repay_amount, 500 * ONE_USD);
    assert_eq!(event.collateral_seized, ONE_SOL);
    assert_eq!(position.collateral_amount, 0);
}

#[test]
fn liquidation_rejections() {
    let mut config = new_config();
    let mut healthy = funded_position(&mut config, 10 * ONE_SOL, 100 * ONE_USD);
    let c = clock(100, 1_000);
    let o = oracle_at(100, 100);
    assert_eq!(
        liquidate::handler(&mut config, &mut healthy, &addr(2), &addr(7), ONE_USD, &c, &o).err(),
        Some(CreditError::PositionHealthy)
    );
    assert_eq!(
        liquidate::handler(&mut config, &mut healthy, &addr(5), &addr(7), ONE_USD, &c, &o).err(),
        Some(CreditError::Unauthorized)
    );
    assert_eq!(
        liquidate::handler(&mut config, &mut healthy, &addr(2), &addr(7), 0, &c, &o).err(),
        Some(CreditError::AmountTooSmall)
    );
    let mut empty = position_for(addr(2), &config);
    assert_eq!(
        liquidate::handler(&mut config, &mut empty, &addr(2), &addr(7), ONE_USD, &c, &o).err(),
        Some(CreditError::RepayExceedsDebt)
    );
}

#[test]
fn growth_factor_overflow_is_reported() {
    assert_eq!(accrue(1, u16::MAX, u64::MAX), Err(CreditError::MathOverflow));
    assert_eq!(accrue(0, 10_000, 1_000 * SECONDS_PER_YEAR), Ok(0));
}

#[test]
fn record_debt_overflow_changes_nothing() {
    let mut config = new_config();
    let mut position = funded_position(&mut config, 10 * ONE_SOL, 1000 * ONE_USD);
    let before = position;
    assert_eq!(
        record_debt::handler(&mut config, &mut position, &addr(2), u64::MAX, &clock(100, 1_000)),
        Err(CreditError::MathOverflow)
    );
    assert_eq!(position.debt_usdc, before.debt_usdc);
    assert_eq!(config.total_debt_usdc, 1000 * ONE_USD);
}

#[test]
fn protocol_totals_match_the_positions() {
    let mut config = new_config();
    let c = clock(100, 1_000);
    let o = oracle_at(100, 100);
    let mut alice = position_for(addr(2), &config);
    let mut bob = position_for(addr(3), &config);
    deposit_collateral::handler(&mut config, &mut alice, &addr(2), 4 * ONE_SOL, &c, &o).unwrap();
    deposit_collateral::handler(&mut config, &mut bob, &addr(3), 6 * ONE_SOL, &c, &o).unwrap();
    record_debt::handler(&mut config, &mut alice, &addr(2), 100 * ONE_USD, &c).unwrap();
    record_debt::handler(&mut config, &mut bob, &addr(3), 200 * ONE_USD, &c).unwrap();
    repay_usdc::handler(&mut config, &mut bob, &addr(3), 50 * ONE_USD, &c).unwrap();
    withdraw_collateral::handler(&mut config, &mut alice, &addr(2), ONE_SOL, &c, &o).unwrap();
    assert_eq!(config.total_collateral, alice.collateral_amount + bob.collateral_amount);
    assert_eq!(config.total_debt_usdc, alice.debt_usdc + bob.debt_usdc);
    assert_eq!(config.total_collateral, 9 * ONE_SOL);
    assert_eq!(config.total_debt_usdc, 250 * ONE_USD);
}
