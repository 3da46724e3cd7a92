use vstd::prelude::*;

verus! {

/// Every way an operation of this library can fail. A failed operation
/// leaves every record it was given exactly as it found it.
#[derive(Clone, Copy, Debug, PartialEq, Eq, Structural)]
pub enum CreditError {
    ProtocolPaused,
    Unauthorized,
    InvalidCollateralMint,
    InsufficientCollateral,
    HealthFactorTooLow,
    PositionHealthy,
    AmountTooSmall,
    StaleOracle,
    OracleConfidenceTooWide,
    MathOverflow,
    InvalidPercentage,
    DebtLimitExceeded,
    RepayExceedsDebt,
    InvalidOracle,
    LiquidationAmountTooLarge,
    PositionAlreadyInitialized,
    InvalidAuthority,
    SlippageExceeded,
    InsufficientBalance,
    SpendingNotAllowed,
    AccountNotActive,
}

} // verus!
