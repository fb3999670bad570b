//! Protocol-wide constants.

use vstd::prelude::*;

verus! {

/// 1 SOL in lamports (1e9).
pub const SOL_PRECISION: u64 = 1_000_000_000;

/// 1 USD in micro-USD (1e6).
pub const USD_PRECISION: u64 = 1_000_000;

/// 100% in basis points.
pub const BPS_PRECISION: u64 = 10_000;

/// Minimum LST deposit (0.0001 SOL).
pub const MIN_LST_DEPOSIT: u64 = 100_000;

/// Minimum amUSD mint (0.001 USD).
pub const MIN_AMUSD_MINT: u64 = 1_000;

/// Minimum aSOL mint (0.001 aSOL).
pub const MIN_ASOL_MINT: u64 = 1_000_000;

/// Collateral may not fall below this amount unless it falls to zero.
pub const MIN_PROTOCOL_TVL: u64 = 1_000_000;

/// Minimum NAV for safe operations.
pub const MIN_NAV_LAMPORTS: u64 = 1_000;

/// Default base fee for minting amUSD (0.5%).
pub const AMUSD_MINT_FEE_BPS: u64 = 50;

/// Default base fee for redeeming amUSD (0.25%).
pub const AMUSD_REDEEM_FEE_BPS: u64 = 25;

/// Default base fee for minting aSOL (0.3%).
pub const ASOL_MINT_FEE_BPS: u64 = 30;

/// Default base fee for redeeming aSOL (0.15%).
pub const ASOL_REDEEM_FEE_BPS: u64 = 15;

/// Cap of the legacy fee curve (4x).
pub const MAX_FEE_MULTIPLIER_BPS: u64 = 40_000;

/// Maximum slippage (5%).
pub const MAX_SLIPPAGE_BPS: u64 = 500;

/// Default minimum collateral ratio (130%).
pub const DEFAULT_MIN_CR_BPS: u64 = 13_000;

/// Default target collateral ratio (150%).
pub const DEFAULT_TARGET_CR_BPS: u64 = 15_000;

/// Default cap of the rounding reserve (1 SOL).
pub const DEFAULT_MAX_ROUNDING_RESERVE_LAMPORTS: u64 = 1_000_000_000;

/// Default lower bound of the fee multiplier (1.0x).
pub const DEFAULT_FEE_MIN_MULTIPLIER_BPS: u64 = 10_000;

/// Default upper bound of the fee multiplier (4.0x).
pub const DEFAULT_FEE_MAX_MULTIPLIER_BPS: u64 = 40_000;

/// Default cap of the uncertainty multiplier (2.0x).
pub const DEFAULT_UNCERTAINTY_MAX_BPS: u64 = 20_000;

/// Default number of slots after which a pricing snapshot is stale.
pub const DEFAULT_MAX_ORACLE_STALENESS_SLOTS: u64 = 150;

/// Default cap on the oracle confidence interval (2%).
pub const DEFAULT_MAX_CONF_BPS: u64 = 200;

} // verus!
