//! The ledger state and the checks every operation runs before pricing.

use vstd::prelude::*;

use crate::error::LaminarError;
use crate::invariants::{
    assert_lst_snapshot_fresh, assert_not_cpi_context, assert_oracle_freshness_and_confidence,
    freshness_spec, oracle_check_spec, TRANSACTION_LEVEL_STACK_HEIGHT,
};
use crate::math::{compute_liability_sol, compute_tvl_sol, liability_spec, tvl_spec};

verus! {

/// Version of the ledger layout written by this library.
pub const CURRENT_VERSION: u8 = 1;

/// The protocol's balance sheet, risk parameters and pricing snapshot.
#[derive(Clone, Copy, Debug, PartialEq, Eq, Structural)]
pub struct GlobalState {
    /// Ledger layout version.
    pub version: u8,
    /// Incremented on every committed mutation.
    pub operation_counter: u64,
    /// Raw LST units held by the protocol.
    pub total_lst_amount: u64,
    /// amUSD supply (1e6 scale).
    pub amusd_supply: u64,
    /// aSOL supply (1e9 scale).
    pub asol_supply: u64,
    /// Minimum collateral ratio in basis points.
    pub min_cr_bps: u64,
    /// Target collateral ratio in basis points.
    pub target_cr_bps: u64,
    /// Circuit breaker for mints.
    pub mint_paused: bool,
    /// Circuit breaker for redemptions.
    pub redeem_paused: bool,
    /// SOL price in micro-USD.
    pub mock_sol_price_usd: u64,
    /// LST-to-SOL rate (1e9 scale).
    pub mock_lst_to_sol_rate: u64,
    /// Oracle confidence interval in micro-USD.
    pub mock_oracle_confidence_usd: u64,
    /// Non-claimable rounding dust in lamports.
    pub rounding_reserve_lamports: u64,
    /// Cap of the rounding reserve in lamports.
    pub max_rounding_reserve_lamports: u64,
    /// Base fee of amUSD mints in basis points.
    pub fee_amusd_mint_bps: u64,
    /// Base fee of amUSD redemptions in basis points.
    pub fee_amusd_redeem_bps: u64,
    /// Base fee of aSOL mints in basis points.
    pub fee_asol_mint_bps: u64,
    /// Base fee of aSOL redemptions in basis points.
    pub fee_asol_redeem_bps: u64,
    /// Lower bound of the fee multiplier in basis points.
    pub fee_min_multiplier_bps: u64,
    /// Upper bound of the fee multiplier in basis points.
    pub fee_max_multiplier_bps: u64,
    /// Current market-uncertainty index in basis points.
    pub uncertainty_index_bps: u64,
    /// Cap of the uncertainty multiplier in basis points.
    pub uncertainty_max_bps: u64,
    /// Slots after which a pricing snapshot is stale.
    pub max_oracle_staleness_slots: u64,
    /// Cap of the oracle confidence interval in basis points of the price.
    pub max_conf_bps: u64,
    /// Slot of the last LST rate snapshot.
    pub last_tvl_update_slot: u64,
    /// Slot of the last oracle price update.
    pub last_oracle_update_slot: u64,
}

/// What the host supplies with each operation call.
#[derive(Clone, Copy, Debug, PartialEq, Eq, Structural)]
pub struct OperationContext {
    /// The logical clock.
    pub current_slot: u64,
    /// Call depth of this invocation; top-level calls have height 1.
    pub stack_height: u64,
    /// Wall-clock time stamped on the event.
    pub unix_timestamp: i64,
    /// Balance of the account the caller pays from: LST for mints, the
    /// redeemed token for redemptions.
    pub source_balance: u64,
}

impl GlobalState {
    /// TVL of the held collateral.
    pub open spec fn tvl_view(self) -> Option<u64> {
        tvl_spec(self.total_lst_amount, self.mock_lst_to_sol_rate)
    }

    /// Liability of the outstanding amUSD; zero when none is outstanding.
    pub open spec fn liability_view(self) -> Option<u64> {
        if self.amusd_supply > 0 {
            liability_spec(self.amusd_supply, self.mock_sol_price_usd)
        } else {
            Some(0)
        }
    }

    /// The same state with the LST rate snapshot taken at `slot`.
    pub open spec fn synced_at(self, slot: u64) -> GlobalState {
        GlobalState { last_tvl_update_slot: slot, ..self }
    }

    /// The operation counter after one more committed mutation.
    pub open spec fn next_counter(self) -> u64 {
        if self.operation_counter == u64::MAX {
            u64::MAX
        } else {
            (self.operation_counter + 1) as u64
        }
    }

    /// Fails unless the ledger has the current layout version.
    pub fn validate_version(&self) -> (r: Result<(), LaminarError>)
        ensures
            r == if self.version == CURRENT_VERSION {
                Ok::<(), LaminarError>(())
            } else {
                Err(LaminarError::InvalidVersion)
            },
    {
        if self.version == CURRENT_VERSION {
            Ok(())
        } else {
            Err(LaminarError::InvalidVersion)
        }
    }

    /// Computes the TVL of the held collateral.
    pub fn tvl(&self) -> (r: Option<u64>)
        ensures
            r == self.tvl_view(),
    {
        compute_tvl_sol(self.total_lst_amount, self.mock_lst_to_sol_rate)
    }

    /// Computes the liability of the outstanding amUSD.
    pub fn liability(&self) -> (r: Option<u64>)
        ensures
            r == self.liability_view(),
    {
        if self.amusd_supply > 0 {
            compute_liability_sol(self.amusd_supply, self.mock_sol_price_usd)
        } else {
            Some(0)
        }
    }
}

/// What the LST rate sync does to the ledger.
pub open spec fn sync_spec(s: GlobalState, current_slot: u64) -> Result<GlobalState, LaminarError> {
    if s.mock_lst_to_sol_rate == 0 || current_slot < s.last_tvl_update_slot {
        Err(LaminarError::InvalidParameter)
    } else {
        Ok(s.synced_at(current_slot))
    }
}

/// Refreshes the LST rate snapshot metadata in place; a zero rate or a slot
/// clock that moved backwards is refused and leaves the state unchanged.
pub fn sync_exchange_rate_in_place(global_state: &mut GlobalState, current_slot: u64) -> (r: Result<
    (),
    LaminarError,
>)
    ensures
        match sync_spec(*old(global_state), current_slot) {
            Ok(s) => r == Ok::<(), LaminarError>(()) && *final(global_state) == s,
            Err(e) => r == Err::<(), LaminarError>(e) && *final(global_state) == *old(global_state),
        },
{
    if global_state.mock_lst_to_sol_rate == 0 {
        return Err(LaminarError::InvalidParameter);
    }
    if current_slot < global_state.last_tvl_update_slot {
        return Err(LaminarError::InvalidParameter);
    }
    global_state.last_tvl_update_slot = current_slot;
    Ok(())
}

/// The checks shared by all four operations, in order: a top-level call,
/// the current layout, a fresh LST snapshot (then synced), and a fresh,
/// confident oracle price. Yields the synced state.
pub open spec fn preflight_spec(s: GlobalState, ctx: OperationContext) -> Result<
    GlobalState,
    LaminarError,
> {
    if ctx.stack_height > TRANSACTION_LEVEL_STACK_HEIGHT {
        Err(LaminarError::InvalidCPIContext)
    } else if s.version != CURRENT_VERSION {
        Err(LaminarError::InvalidVersion)
    } else {
        match freshness_spec(ctx.current_slot, s.last_tvl_update_slot, s.max_oracle_staleness_slots) {
            Err(e) => Err(e),
            Ok(_) => match sync_spec(s, ctx.current_slot) {
                Err(e) => Err(e),
                Ok(synced) => match oracle_check_spec(
                    ctx.current_slot,
                    s.last_oracle_update_slot,
                    s.max_oracle_staleness_slots,
                    s.mock_sol_price_usd,
                    s.mock_oracle_confidence_usd,
                    s.max_conf_bps,
                ) {
                    Err(e) => Err(e),
                    Ok(_) => Ok(synced),
                },
            },
        }
    }
}

/// Runs the checks shared by all four operations and returns the synced state.
pub fn preflight(state: &GlobalState, ctx: &OperationContext) -> (r: Result<
    GlobalState,
    LaminarError,
>)
    ensures
        r == preflight_spec(*state, *ctx),
{
    match assert_not_cpi_context(ctx.stack_height) {
        Ok(_) => {},
        Err(e) => return Err(e),
    }
    match state.validate_version() {
        Ok(_) => {},
        Err(e) => return Err(e),
    }
    match assert_lst_snapshot_fresh(
        ctx.current_slot,
        state.last_tvl_update_slot,
        state.max_oracle_staleness_slots,
    ) {
        Ok(_) => {},
        Err(e) => return Err(e),
    }
    let mut synced = *state;
    match sync_exchange_rate_in_place(&mut synced, ctx.current_slot) {
        Ok(_) => {},
        Err(e) => return Err(e),
    }
    match assert_oracle_freshness_and_confidence(
        ctx.current_slot,
        state.last_oracle_update_slot,
        state.max_oracle_staleness_slots,
        state.mock_sol_price_usd,
        state.mock_oracle_confidence_usd,
        state.max_conf_bps,
    ) {
        Ok(_) => {},
        Err(e) => return Err(e),
    }
    Ok(synced)
}

} // verus!
