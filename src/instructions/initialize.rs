//! Protocol initialization: validates the risk parameters and the initial
//! pricing snapshot and builds an empty ledger.

use vstd::prelude::*;

use crate::constants::{
    AMUSD_MINT_FEE_BPS, AMUSD_REDEEM_FEE_BPS, ASOL_MINT_FEE_BPS, ASOL_REDEEM_FEE_BPS,
    DEFAULT_FEE_MAX_MULTIPLIER_BPS, DEFAULT_FEE_MIN_MULTIPLIER_BPS, DEFAULT_MAX_CONF_BPS,
    DEFAULT_MAX_ORACLE_STALENESS_SLOTS, DEFAULT_MAX_ROUNDING_RESERVE_LAMPORTS,
    DEFAULT_UNCERTAINTY_MAX_BPS,
};
use crate::error::LaminarError;
use crate::events::ProtocolInitialized;
use crate::math::{BPS_PRECISION, SOL_PRECISION};
use crate::state::{GlobalState, CURRENT_VERSION};

verus! {

/// Decimals the collateral mint must have.
pub const LST_DECIMALS: u8 = 9;

/// The empty ledger with the given risk thresholds and pricing snapshot.
pub open spec fn initial_state(
    min_cr_bps: u64,
    target_cr_bps: u64,
    mock_sol_price_usd: u64,
    mock_lst_to_sol_rate: u64,
    current_slot: u64,
) -> GlobalState {
    GlobalState {
        version: CURRENT_VERSION,
        operation_counter: 0,
        total_lst_amount: 0,
        amusd_supply: 0,
        asol_supply: 0,
        min_cr_bps,
        target_cr_bps,
        mint_paused: false,
        redeem_paused: false,
        mock_sol_price_usd,
        mock_lst_to_sol_rate,
        mock_oracle_confidence_usd: 0,
        rounding_reserve_lamports: 0,
        max_rounding_reserve_lamports: DEFAULT_MAX_ROUNDING_RESERVE_LAMPORTS,
        fee_amusd_mint_bps: AMUSD_MINT_FEE_BPS,
        fee_amusd_redeem_bps: AMUSD_REDEEM_FEE_BPS,
        fee_asol_mint_bps: ASOL_MINT_FEE_BPS,
        fee_asol_redeem_bps: ASOL_REDEEM_FEE_BPS,
        fee_min_multiplier_bps: DEFAULT_FEE_MIN_MULTIPLIER_BPS,
        fee_max_multiplier_bps: DEFAULT_FEE_MAX_MULTIPLIER_BPS,
        uncertainty_index_bps: 0,
        uncertainty_max_bps: DEFAULT_UNCERTAINTY_MAX_BPS,
        max_oracle_staleness_slots: DEFAULT_MAX_ORACLE_STALENESS_SLOTS,
        max_conf_bps: DEFAULT_MAX_CONF_BPS,
        last_tvl_update_slot: current_slot,
        last_oracle_update_slot: current_slot,
    }
}

/// Creates the ledger. The minimum CR must be at least 100% and below the
/// target; the price and the rate must be positive, the rate at least half
/// a SOL per LST; the collateral mint must have 9 decimals.
pub fn handler(
    min_cr_bps: u64,
    target_cr_bps: u64,
    mock_sol_price_usd: u64,
    mock_lst_to_sol_rate: u64,
    lst_decimals: u8,
    current_slot: u64,
    unix_timestamp: i64,
) -> (r: Result<(GlobalState, ProtocolInitialized), LaminarError>)
    ensures
        r == if min_cr_bps < BPS_PRECISION || target_cr_bps <= min_cr_bps {
            Err(LaminarError::InvalidParameter)
        } else if mock_sol_price_usd == 0 || mock_lst_to_sol_rate == 0 {
            Err(LaminarError::ZeroAmount)
        } else if mock_lst_to_sol_rate < SOL_PRECISION / 2 {
            Err(LaminarError::InvalidParameter)
        } else if lst_decimals != LST_DECIMALS {
            Err(LaminarError::InvalidDecimals)
        } else {
            Ok(
                (
                    initial_state(
                        min_cr_bps,
                        target_cr_bps,
                        mock_sol_price_usd,
                        mock_lst_to_sol_rate,
                        current_slot,
                    ),
                    ProtocolInitialized { min_cr_bps, target_cr_bps, timestamp: unix_timestamp },
                ),
            )
        },
{
    if min_cr_bps < BPS_PRECISION {
        return Err(LaminarError::InvalidParameter);
    }
    if target_cr_bps <= min_cr_bps {
        return Err(LaminarError::InvalidParameter);
    }
    if mock_sol_price_usd == 0 {
        return Err(LaminarError::ZeroAmount);
    }
    if mock_lst_to_sol_rate == 0 {
        return Err(LaminarError::ZeroAmount);
    }
    if mock_lst_to_sol_rate < SOL_PRECISION / 2 {
        return Err(LaminarError::InvalidParameter);
    }
    if lst_decimals != LST_DECIMALS {
        return Err(LaminarError::InvalidDecimals);
    }
    let state = GlobalState {
        version: CURRENT_VERSION,
        operation_counter: 0,
        total_lst_amount: 0,
        amusd_supply: 0,
        asol_supply: 0,
        min_cr_bps,
        target_cr_bps,
        mint_paused: false,
        redeem_paused: false,
        mock_sol_price_usd,
        mock_lst_to_sol_rate,
        mock_oracle_confidence_usd: 0,
        rounding_reserve_lamports: 0,
        max_rounding_reserve_lamports: DEFAULT_MAX_ROUNDING_RESERVE_LAMPORTS,
        fee_amusd_mint_bps: AMUSD_MINT_FEE_BPS,
        fee_amusd_redeem_bps: AMUSD_REDEEM_FEE_BPS,
        fee_asol_mint_bps: ASOL_MINT_FEE_BPS,
        fee_asol_redeem_bps: ASOL_REDEEM_FEE_BPS,
        fee_min_multiplier_bps: DEFAULT_FEE_MIN_MULTIPLIER_BPS,
        fee_max_multiplier_bps: DEFAULT_FEE_MAX_MULTIPLIER_BPS,
        uncertainty_index_bps: 0,
        uncertainty_max_bps: DEFAULT_UNCERTAINTY_MAX_BPS,
        max_oracle_staleness_slots: DEFAULT_MAX_ORACLE_STALENESS_SLOTS,
        max_conf_bps: DEFAULT_MAX_CONF_BPS,
        last_tvl_update_slot: current_slot,
        last_oracle_update_slot: current_slot,
    };
    Ok((state, ProtocolInitialized { min_cr_bps, target_cr_bps, timestamp: unix_timestamp }))
}

} // verus!
