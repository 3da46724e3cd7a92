use credit_core::config::{Config, InitializeParams};
use credit_core::debit_account::{DebitAccount, DebitStatus};
use credit_core::errors::CreditError;
use credit_core::instructions::{debit_deposit, debit_release, debit_settle, debit_spend, initialize};
use credit_core::types::{Address, Clock};

const DAY: i64 = 86_400;

fn addr(b: u8) -> Address {
    Address::new([b; 32])
}

fn clock(ts: i64) -> Clock {
    Clock { slot: 1, unix_timestamp: ts }
}

fn config() -> Config {
    let params = InitializeParams {
        ltv_max_bps: 5000,
        liquidation_threshold_bps: 6000,
        liquidation_bonus_bps: 600,
        interest_rate_bps: 1200,
        sol_usd_oracle: addr(10),
        jito_sol_usd_oracle: addr(11),
        usdc_mint: addr(12),
        jito_sol_mint: addr(13),
        wsol_mint: addr(14),
    };
    initialize::handler(&addr(1), &params, &clock(0)).unwrap()
}

fn blank() -> DebitAccount {
    DebitAccount {
        owner: Address::zero(),
        usdc_deposited: 0,
        usdc_available: 0,
        usdc_reserved: 0,
        lifetime_deposits: 0,
        lifetime_spent: 0,
        daily_limit: 0,
        daily_spent: 0,
        last_daily_reset: 0,
        monthly_limit: 0,
        monthly_spent: 0,
        last_monthly_reset: 0,
        status: DebitStatus::Inactive,
        is_initialized: false,
    }
}

fn funded(amount: u64, now: i64) -> DebitAccount {
    let mut account = blank();
    debit_deposit::handler(&config(), &mut account, &addr(2), amount, &clock(now)).unwrap();
    account
}

#[test]
fn first_deposit_opens_the_account() {
    let account = funded(5_000, 10 * DAY);
    assert_eq!(account.owner, addr(2));
    assert_eq!(account.status, DebitStatus::Active);
    assert!(account.is_initialized);
    assert_eq!(account.usdc_available, 5_000);
    assert_eq!(account.usdc_deposited, 5_000);
    assert_eq!(account.lifetime_deposits, 5_000);
    assert_eq!(account.daily_limit, 1_000_000_000);
    assert_eq!(account.monthly_limit, 10_000_000_000);
    assert_eq!(account.last_daily_reset, 10 * DAY);
}

#[test]
fn deposit_by_someone_else_is_refused() {
    let mut account = funded(5_000, 0);
    assert_eq!(
        debit_deposit::handler(&config(), &mut account, &addr(3), 1, &clock(0)),
        Err(CreditError::Unauthorized)
    );
    let mut full = funded(u64::MAX, 0);
    assert_eq!(
        debit_deposit::handler(&config(), &mut full, &addr(2), 1, &clock(0)),
        Err(CreditError::MathOverflow)
    );
    assert_eq!(full.usdc_available, u64::MAX);
}

#[test]
fn daily_limit_blocks_large_holds() {
    let mut account = funded(5_000, 0);
    account.daily_limit = 1000;
    account.daily_spent = 900;
    let c = clock(100);
    assert_eq!(account.can_spend(150, 100), Ok(false));
    assert_eq!(
        debit_spend::handler(&config(), &mut account, &addr(1), 150, &c),
        Err(CreditError::SpendingNotAllowed)
    );
    assert_eq!(account.usdc_available, 5_000);
    assert_eq!(account.usdc_reserved, 0);
    assert_eq!(debit_spend::handler(&config(), &mut account, &addr(1), 90, &c), Ok(()));
    assert_eq!(account.usdc_available, 4_910);
    assert_eq!(account.usdc_reserved, 90);
}

#[test]
fn crossed_day_window_counts_as_empty() {
    let mut account = funded(5_000, 0);
    account.daily_limit = 1000;
    account.daily_spent = 900;
    assert!(account.needs_daily_reset(DAY));
    assert!(!account.needs_daily_reset(DAY - 1));
    assert_eq!(account.can_spend(150, DAY + 5), Ok(true));
    assert!(account.needs_monthly_reset(30 * DAY));
    assert!(!account.needs_monthly_reset(29 * DAY));
}

#[test]
fn spend_rejections() {
    let mut account = funded(100, 0);
    let c = clock(5);
    assert_eq!(
        debit_spend::handler(&config(), &mut account, &addr(2), 10, &c),
        Err(CreditError::Unauthorized)
    );
    assert_eq!(
        debit_spend::handler(&config(), &mut account, &addr(1), 101, &c),
        Err(CreditError::SpendingNotAllowed)
    );
    account.status = DebitStatus::Frozen;
    assert_eq!(
        debit_spend::handler(&config(), &mut account, &addr(1), 10, &c),
        Err(CreditError::AccountNotActive)
    );
    let mut paused = config();
    paused.paused = true;
    account.status = DebitStatus::Active;
    assert_eq!(
        debit_spend::handler(&paused, &mut account, &addr(1), 10, &c),
        Err(CreditError::ProtocolPaused)
    );
}

#[test]
fn commit_rolls_the_windows() {
    let mut account = funded(5_000, 0);
    debit_spend::handler(&config(), &mut account, &addr(1), 300, &clock(10)).unwrap();
    debit_settle::handler(&config(), &mut account, &addr(1), 100, &clock(20)).unwrap();
    assert_eq!(account.usdc_reserved, 200);
    assert_eq!(account.lifetime_spent, 100);
    assert_eq!(account.daily_spent, 100);
    assert_eq!(account.monthly_spent, 100);
    // Next day: the daily total restarts at the settled amount.
    debit_settle::handler(&config(), &mut account, &addr(1), 50, &clock(DAY + 1)).unwrap();
    assert_eq!(account.daily_spent, 50);
    assert_eq!(account.last_daily_reset, DAY + 1);
    assert_eq!(account.monthly_spent, 150);
    assert_eq!(account.last_monthly_reset, 0);
    assert_eq!(
        debit_settle::handler(&config(), &mut account, &addr(1), 151, &clock(DAY + 2)),
        Err(CreditError::InsufficientBalance)
    );
}

#[test]
fn release_returns_the_hold() {
    let mut account = funded(1_000, 0);
    debit_spend::handler(&config(), &mut account, &addr(1), 400, &clock(10)).unwrap();
    debit_release::handler(&config(), &mut account, &addr(1), 150).unwrap();
    assert_eq!(account.usdc_available, 750);
    assert_eq!(account.usdc_reserved, 250);
    assert_eq!(
        debit_release::handler(&config(), &mut account, &addr(1), 251),
        Err(CreditError::InsufficientBalance)
    );
    assert_eq!(
        debit_release::handler(&config(), &mut account, &addr(4), 1),
        Err(CreditError::Unauthorized)
    );
}

#[test]
fn held_balance_only_falls_by_what_is_committed() {
    let mut account = funded(1_000, 0);
    let start = account.usdc_available + account.usdc_reserved + account.lifetime_spent;
    account.reserve_funds(600).unwrap();
    account.commit_reserved(200, 50).unwrap();
    account.release_reserved(100).unwrap();
    assert_eq!(account.reserve_funds(2_000), Err(CreditError::InsufficientBalance));
    account.reserve_funds(500).unwrap();
    account.commit_reserved(500, 60).unwrap();
    let held = account.usdc_available + account.usdc_reserved;
    assert_eq!(held + account.lifetime_spent, start);
    assert_eq!(account.lifetime_spent, 700);
    assert_eq!(held, 300);
}
