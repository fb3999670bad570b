//! Error kinds of the protocol core.

use vstd::prelude::*;

verus! {

/// Why an operation was refused. An operation that returns one of these
/// leaves the ledger unchanged.
#[derive(Clone, Copy, Debug, PartialEq, Eq, Structural)]
pub enum LaminarError {
    /// Minting is paused by the administrator.
    MintPaused,
    /// Redemptions are paused by the administrator.
    RedeemPaused,
    /// An amount was zero.
    ZeroAmount,
    /// An intermediate value exceeded the `u64` range.
    MathOverflow,
    /// The caller or the vault lacks the collateral.
    InsufficientCollateral,
    /// The caller or the pool lacks the tokens to burn.
    InsufficientSupply,
    /// The collateral type is not the supported one.
    UnsupportedLST,
    /// NAV is zero or the pre-bootstrap solvency check failed.
    InsolventProtocol,
    /// The output is below the caller's minimum.
    SlippageExceeded,
    /// A nested call into an operation.
    Reentrancy,
    /// The mint is not controlled by the protocol.
    InvalidMintAuthority,
    /// An account has an unexpected configuration.
    InvalidAccountState,
    /// An amount is below the protocol's floor.
    AmountTooSmall,
    /// An account is not owned by the protocol.
    InvalidAccountOwner,
    /// The collateral mint does not have 9 decimals.
    InvalidDecimals,
    /// The ledger was written by another version.
    InvalidVersion,
    /// The operation was invoked from a nested or indirect call.
    InvalidCPIContext,
    /// A mint is not the protocol's.
    InvalidMint,
    /// A freeze authority is not the protocol's.
    InvalidFreezeAuthority,
    /// The collateral would fall below the protocol floor.
    BelowMinimumTVL,
    /// The balance sheet deviates beyond its deterministic bound.
    BalanceSheetViolation,
    /// The collateral ratio would fall below the minimum.
    CollateralRatioTooLow,
    /// TVL is below the liability.
    NegativeEquity,
    /// A supply that must be positive is zero.
    ZeroSupply,
    /// A safety-check computation exceeded its range.
    ArithmeticOverflow,
    /// A parameter is out of its valid range.
    InvalidParameter,
    /// Equity exists without aSOL supply and cannot be bootstrapped.
    EquityWithoutAsolSupply,
    /// Crediting the rounding reserve would exceed its cap.
    RoundingReserveExceeded,
    /// Debiting the rounding reserve would take it below zero.
    RoundingReserveUnderflow,
    /// The pricing snapshot is older than the staleness limit.
    StalePricing,
    /// The oracle's confidence interval is wider than the cap.
    LowConfidencePricing,
}

} // verus!
