//! Audit records emitted by committed operations, and the transfers a
//! commit asks the host to carry out.

use vstd::prelude::*;

verus! {

/// The token movements that settle one committed operation. The host
/// executes all of them or none.
#[derive(Clone, Copy, Debug, PartialEq, Eq, Structural)]
pub struct Settlement {
    /// LST moved from the caller into the vault.
    pub collateral_in: u64,
    /// LST moved from the vault to the caller.
    pub collateral_out: u64,
    /// Tokens minted to the caller.
    pub mint_to_user: u64,
    /// Tokens minted to the treasury as a fee.
    pub mint_to_treasury: u64,
    /// Tokens moved from the caller to the treasury as a fee.
    pub fee_to_treasury: u64,
    /// Tokens burned from the caller.
    pub burn_from_user: u64,
}

/// Record of protocol initialization.
#[derive(Clone, Copy, Debug, PartialEq, Eq, Structural)]
pub struct ProtocolInitialized {
    pub min_cr_bps: u64,
    pub target_cr_bps: u64,
    pub timestamp: i64,
}

/// Record of an amUSD mint.
#[derive(Clone, Copy, Debug, PartialEq, Eq, Structural)]
pub struct AmUSDMinted {
    pub lst_deposited: u64,
    pub amusd_minted: u64,
    pub fee: u64,
    pub old_tvl: u64,
    pub new_tvl: u64,
    pub old_cr_bps: u64,
    pub new_cr_bps: u64,
    pub sol_price_used: u64,
    pub timestamp: i64,
}

/// Record of an amUSD redemption.
#[derive(Clone, Copy, Debug, PartialEq, Eq, Structural)]
pub struct AmUSDRedeemed {
    pub amusd_burned: u64,
    pub lst_received: u64,
    pub fee: u64,
    pub old_tvl: u64,
    pub new_tvl: u64,
    pub old_cr_bps: u64,
    pub new_cr_bps: u64,
    pub sol_price_used: u64,
    pub timestamp: i64,
}

/// Record of an aSOL mint.
#[derive(Clone, Copy, Debug, PartialEq, Eq, Structural)]
pub struct AsolMinted {
    pub lst_deposited: u64,
    pub asol_minted: u64,
    pub fee: u64,
    pub nav: u64,
    pub old_tvl: u64,
    pub new_tvl: u64,
    pub old_equity: u64,
    pub new_equity: u64,
    pub leverage_multiple: u64,
    pub timestamp: i64,
}

/// Record of an aSOL redemption.
#[derive(Clone, Copy, Debug, PartialEq, Eq, Structural)]
pub struct AsolRedeemed {
    pub asol_burned: u64,
    pub lst_received: u64,
    pub fee: u64,
    pub nav: u64,
    pub old_tvl: u64,
    pub new_tvl: u64,
    pub old_equity: u64,
    pub new_equity: u64,
    pub timestamp: i64,
}

/// Record of a change of the circuit breakers.
#[derive(Clone, Copy, Debug, PartialEq, Eq, Structural)]
pub struct EmergencyPause {
    pub mint_paused: bool,
    pub redeem_paused: bool,
    pub timestamp: i64,
}

/// Record of a pricing update.
#[derive(Clone, Copy, Debug, PartialEq, Eq, Structural)]
pub struct OraclePriceUpdated {
    pub old_sol_price: u64,
    pub new_sol_price: u64,
    pub old_lst_rate: u64,
    pub new_lst_rate: u64,
    pub timestamp: i64,
}

/// Record of a risk-parameter update.
#[derive(Clone, Copy, Debug, PartialEq, Eq, Structural)]
pub struct ParametersUpdated {
    pub old_min_cr_bps: u64,
    pub new_min_cr_bps: u64,
    pub old_target_cr_bps: u64,
    pub new_target_cr_bps: u64,
    pub timestamp: i64,
}

} // verus!
