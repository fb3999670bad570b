//! Accounting core of a two-tranche collateral protocol: a senior stable
//! token (amUSD) and a junior equity token (aSOL), both backed by one
//! liquid-staking collateral token (LST).

pub mod constants;
pub mod error;
pub mod events;
pub mod instructions;
pub mod invariants;
pub mod math;
pub mod solvency;
pub mod state;

use vstd::prelude::*;

use error::LaminarError;
use events::{EmergencyPause, OraclePriceUpdated, ParametersUpdated, ProtocolInitialized};
use instructions::mint_amusd::{mint_amusd_spec, MintAmUsdCommit};
use instructions::mint_asol::{mint_asol_spec, MintAsolCommit};
use instructions::redeem_amusd::{redeem_amusd_spec, RedeemAmUsdCommit};
use instructions::redeem_asol::{redeem_asol_spec, RedeemAsolCommit};
use math::{BPS_PRECISION, SOL_PRECISION};
use state::{GlobalState, OperationContext};

verus! {

/// Creates the ledger (see `instructions::initialize::handler`).
pub fn initialize(
    min_cr_bps: u64,
    target_cr_bps: u64,
    mock_sol_price_usd: u64,
    mock_lst_to_sol_rate: u64,
    lst_decimals: u8,
    current_slot: u64,
    unix_timestamp: i64,
) -> (r: Result<(GlobalState, ProtocolInitialized), LaminarError>)
    ensures
        r == if min_cr_bps < BPS_PRECISION || target_cr_bps <= min_cr_bps {
            Err(LaminarError::InvalidParameter)
        } else if mock_sol_price_usd == 0 || mock_lst_to_sol_rate == 0 {
            Err(LaminarError::ZeroAmount)
        } else if mock_lst_to_sol_rate < SOL_PRECISION / 2 {
            Err(LaminarError::InvalidParameter)
        } else if lst_decimals != instructions::initialize::LST_DECIMALS {
            Err(LaminarError::InvalidDecimals)
        } else {
            Ok(
                (
                    instructions::initialize::initial_state(
                        min_cr_bps,
                        target_cr_bps,
                        mock_sol_price_usd,
                        mock_lst_to_sol_rate,
                        current_slot,
                    ),
                    ProtocolInitialized { min_cr_bps, target_cr_bps, timestamp: unix_timestamp },
                ),
            )
        },
{
    instructions::initialize::handler(
        min_cr_bps,
        target_cr_bps,
        mock_sol_price_usd,
        mock_lst_to_sol_rate,
        lst_decimals,
        current_slot,
        unix_timestamp,
    )
}

/// Mints amUSD by depositing LST collateral.
pub fn mint_amusd(state: &GlobalState, ctx: &OperationContext, lst_amount: u64, min_amusd_out: u64) -> (r:
    Result<MintAmUsdCommit, LaminarError>)
    ensures
        r == mint_amusd_spec(*state, *ctx, lst_amount, min_amusd_out),
{
    instructions::mint_amusd::handler(state, ctx, lst_amount, min_amusd_out)
}

/// Redeems amUSD, burning debt and paying out LST.
pub fn redeem_amusd(state: &GlobalState, ctx: &OperationContext, amusd_amount: u64, min_lst_out: u64) -> (r:
    Result<RedeemAmUsdCommit, LaminarError>)
    ensures
        r == redeem_amusd_spec(*state, *ctx, amusd_amount, min_lst_out),
{
    instructions::redeem_amusd::handler(state, ctx, amusd_amount, min_lst_out)
}

/// Mints aSOL at NAV by depositing LST collateral.
pub fn mint_asol(state: &GlobalState, ctx: &OperationContext, lst_amount: u64, min_asol_out: u64) -> (r:
    Result<MintAsolCommit, LaminarError>)
    ensures
        r == mint_asol_spec(*state, *ctx, lst_amount, min_asol_out),
{
    instructions::mint_asol::handler(state, ctx, lst_amount, min_asol_out)
}

/// Redeems aSOL at NAV, burning equity and paying out LST.
pub fn redeem_asol(state: &GlobalState, ctx: &OperationContext, asol_amount: u64, min_lst_out: u64) -> (r:
    Result<RedeemAsolCommit, LaminarError>)
    ensures
        r == redeem_asol_spec(*state, *ctx, asol_amount, min_lst_out),
{
    instructions::redeem_asol::handler(state, ctx, asol_amount, min_lst_out)
}

/// Sets both circuit breakers and counts the mutation.
pub fn emergency_pause(
    global_state: &mut GlobalState,
    mint_paused: bool,
    redeem_paused: bool,
    unix_timestamp: i64,
) -> (r: EmergencyPause)
    ensures
        *final(global_state) == (GlobalState {
            mint_paused,
            redeem_paused,
            operation_counter: old(global_state).next_counter(),
            ..*old(global_state)
        }),
        r == (EmergencyPause { mint_paused, redeem_paused, timestamp: unix_timestamp }),
{
    global_state.mint_paused = mint_paused;
    global_state.redeem_paused = redeem_paused;
    global_state.operation_counter = if global_state.operation_counter == u64::MAX {
        u64::MAX
    } else {
        global_state.operation_counter + 1
    };
    EmergencyPause { mint_paused, redeem_paused, timestamp: unix_timestamp }
}

/// Installs a new pricing snapshot taken at `current_slot`. A zero price or
/// rate is refused and leaves the state unchanged.
pub fn update_mock_prices(
    global_state: &mut GlobalState,
    new_sol_price_usd: u64,
    new_lst_to_sol_rate: u64,
    new_confidence_usd: u64,
    current_slot: u64,
    unix_timestamp: i64,
) -> (r: Result<OraclePriceUpdated, LaminarError>)
    ensures
        if new_sol_price_usd == 0 || new_lst_to_sol_rate == 0 {
            r == Err::<OraclePriceUpdated, LaminarError>(LaminarError::ZeroAmount)
                && *final(global_state) == *old(global_state)
        } else {
            *final(global_state) == (GlobalState {
                mock_sol_price_usd: new_sol_price_usd,
                mock_lst_to_sol_rate: new_lst_to_sol_rate,
                mock_oracle_confidence_usd: new_confidence_usd,
                last_oracle_update_slot: current_slot,
                operation_counter: old(global_state).next_counter(),
                ..*old(global_state)
            }) && r == Ok::<OraclePriceUpdated, LaminarError>(
                OraclePriceUpdated {
                    old_sol_price: old(global_state).mock_sol_price_usd,
                    new_sol_price: new_sol_price_usd,
                    old_lst_rate: old(global_state).mock_lst_to_sol_rate,
                    new_lst_rate: new_lst_to_sol_rate,
                    timestamp: unix_timestamp,
                },
            )
        },
{
    if new_sol_price_usd == 0 || new_lst_to_sol_rate == 0 {
        return Err(LaminarError::ZeroAmount);
    }
    let old_sol_price = global_state.mock_sol_price_usd;
    let old_lst_rate = global_state.mock_lst_to_sol_rate;
    global_state.mock_sol_price_usd = new_sol_price_usd;
    global_state.mock_lst_to_sol_rate = new_lst_to_sol_rate;
    global_state.mock_oracle_confidence_usd = new_confidence_usd;
    global_state.last_oracle_update_slot = current_slot;
    global_state.operation_counter = if global_state.operation_counter == u64::MAX {
        u64::MAX
    } else {
        global_state.operation_counter + 1
    };
    Ok(
        OraclePriceUpdated {
            old_sol_price,
            new_sol_price: new_sol_price_usd,
            old_lst_rate,
            new_lst_rate: new_lst_to_sol_rate,
            timestamp: unix_timestamp,
        },
    )
}

/// Updates the risk thresholds: the minimum CR must be at least 100% and
/// below the target, else the state is left unchanged.
pub fn update_parameters(
    global_state: &mut GlobalState,
    new_min_cr_bps: u64,
    new_target_cr_bps: u64,
    unix_timestamp: i64,
) -> (r: Result<ParametersUpdated, LaminarError>)
    ensures
        if new_min_cr_bps < BPS_PRECISION || new_target_cr_bps <= new_min_cr_bps {
            r == Err::<ParametersUpdated, LaminarError>(LaminarError::InvalidParameter)
                && *final(global_state) == *old(global_state)
        } else {
            *final(global_state) == (GlobalState {
                min_cr_bps: new_min_cr_bps,
                target_cr_bps: new_target_cr_bps,
                operation_counter: old(global_state).next_counter(),
                ..*old(global_state)
            }) && r == Ok::<ParametersUpdated, LaminarError>(
                ParametersUpdated {
                    old_min_cr_bps: old(global_state).min_cr_bps,
                    new_min_cr_bps,
                    old_target_cr_bps: old(global_state).target_cr_bps,
                    new_target_cr_bps,
                    timestamp: unix_timestamp,
                },
            )
        },
{
    if new_min_cr_bps < BPS_PRECISION {
        return Err(LaminarError::InvalidParameter);
    }
    if new_target_cr_bps <= new_min_cr_bps {
        return Err(LaminarError::InvalidParameter);
    }
    let old_min = global_state.min_cr_bps;
    let old_target = global_state.target_cr_bps;
    global_state.min_cr_bps = new_min_cr_bps;
    global_state.target_cr_bps = new_target_cr_bps;
    global_state.operation_counter = if global_state.operation_counter == u64::MAX {
        u64::MAX
    } else {
        global_state.operation_counter + 1
    };
    Ok(
        ParametersUpdated {
            old_min_cr_bps: old_min,
            new_min_cr_bps,
            old_target_cr_bps: old_target,
            new_target_cr_bps,
            timestamp: unix_timestamp,
        },
    )
}

} // verus!
