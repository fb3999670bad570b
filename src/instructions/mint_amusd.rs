//! Mint amUSD: the caller deposits LST and receives amUSD at $1 per unit,
//! less a CR-sensitive fee that is minted to the treasury.

use vstd::prelude::*;

use crate::constants::{MIN_AMUSD_MINT, MIN_LST_DEPOSIT};
use crate::error::LaminarError;
use crate::events::{AmUSDMinted, Settlement};
use crate::invariants::{
    assert_balance_sheet_holds, assert_cr_above_minimum, assert_no_negative_equity,
    assert_rounding_reserve_within_cap, balance_sheet_deviation, credit_rounding_reserve,
    credit_spec, derive_rounding_bound_lamports, rounding_bound_spec,
};
use crate::math::{
    accounting_equity_spec, apply_fee, apply_fee_spec, compute_accounting_equity_sol,
    compute_cr_bps, compute_dynamic_fee_bps, compute_liability_sol, compute_rounding_delta_units,
    compute_tvl_sol, cr_bps_spec, dust_to_lamports_spec, dynamic_fee_spec, liability_spec,
    mul_div_down, mul_div_down_spec, mul_div_up, mul_div_up_spec, rounding_delta_spec, tvl_spec,
    usd_dust_to_lamports_up, FeeAction, SOL_PRECISION,
};
use crate::state::{preflight, preflight_spec, GlobalState, OperationContext};

verus! {

/// What a committed amUSD mint produces.
#[derive(Clone, Copy, Debug, PartialEq, Eq, Structural)]
pub struct MintAmUsdCommit {
    pub state: GlobalState,
    pub settlement: Settlement,
    pub event: AmUSDMinted,
}

/// Rounding bound of the amUSD mint path, in lamports, at `sol_price_usd`.
pub open spec fn mint_amusd_bound(sol_price_usd: u64) -> Result<u64, LaminarError> {
    rounding_bound_spec(2, 1, sol_price_usd)
}

/// The outcome of minting amUSD against `lst_amount` LST.
pub open spec fn mint_amusd_spec(
    s: GlobalState,
    ctx: OperationContext,
    lst_amount: u64,
    min_amusd_out: u64,
) -> Result<MintAmUsdCommit, LaminarError> {
    match preflight_spec(s, ctx) {
        Err(e) => Err(e),
        Ok(synced) => if s.mint_paused {
            Err(LaminarError::MintPaused)
        } else if lst_amount == 0 {
            Err(LaminarError::ZeroAmount)
        } else if lst_amount < MIN_LST_DEPOSIT {
            Err(LaminarError::AmountTooSmall)
        } else if ctx.source_balance < lst_amount {
            Err(LaminarError::InsufficientCollateral)
        } else {
            match (s.tvl_view(), s.liability_view()) {
                (Some(old_tvl), Some(old_liability)) => mint_amusd_priced_spec(
                    s,
                    synced,
                    ctx.unix_timestamp,
                    lst_amount,
                    min_amusd_out,
                    old_tvl,
                    old_liability,
                ),
                _ => Err(LaminarError::MathOverflow),
            }
        },
    }
}

/// The gross amUSD amount and the reserve credit of a deposit of `lst_amount`:
/// the gross amount rounds down, the credit is the lamport value (rounded up)
/// of the gap to the user-favoring amount.
pub open spec fn mint_amusd_amounts_spec(s: GlobalState, lst_amount: u64) -> Option<(u64, u64, u64)> {
    let rate = s.mock_lst_to_sol_rate;
    let price = s.mock_sol_price_usd;
    match (tvl_spec(lst_amount, rate), mul_div_up_spec(lst_amount, rate, SOL_PRECISION)) {
        (Some(sol_value), Some(sol_value_up)) => match (
            mul_div_down_spec(sol_value, price, SOL_PRECISION),
            mul_div_up_spec(sol_value_up, price, SOL_PRECISION),
        ) {
            (Some(gross), Some(gross_up)) => match rounding_delta_spec(gross, gross_up) {
                Some(delta) => match dust_to_lamports_spec(delta, SOL_PRECISION, price) {
                    Some(credit) => Some((sol_value, gross, credit)),
                    None => None,
                },
                None => None,
            },
            _ => None,
        },
        _ => None,
    }
}

/// The pricing, fee and post-state checks of an amUSD mint.
pub open spec fn mint_amusd_priced_spec(
    s: GlobalState,
    synced: GlobalState,
    timestamp: i64,
    lst_amount: u64,
    min_amusd_out: u64,
    old_tvl: u64,
    old_liability: u64,
) -> Result<MintAmUsdCommit, LaminarError> {
    let old_cr = cr_bps_spec(old_tvl, old_liability);
    match mint_amusd_amounts_spec(s, lst_amount) {
        None => Err(LaminarError::MathOverflow),
        Some((_, gross, credit)) => match dynamic_fee_spec(
            s.fee_amusd_mint_bps,
            FeeAction::AmusdMint,
            old_cr,
            s.min_cr_bps,
            s.target_cr_bps,
            s.fee_min_multiplier_bps,
            s.fee_max_multiplier_bps,
            s.uncertainty_index_bps,
            s.uncertainty_max_bps,
        ) {
            None => Err(LaminarError::InvalidParameter),
            Some(fee_bps) => match apply_fee_spec(gross, fee_bps) {
                None => Err(LaminarError::MathOverflow),
                Some((net, fee)) => if net < min_amusd_out {
                    Err(LaminarError::SlippageExceeded)
                } else if net < MIN_AMUSD_MINT {
                    Err(LaminarError::AmountTooSmall)
                } else if s.total_lst_amount + lst_amount > u64::MAX || s.amusd_supply + gross
                    > u64::MAX {
                    Err(LaminarError::MathOverflow)
                } else {
                    let new_lst = (s.total_lst_amount + lst_amount) as u64;
                    let new_supply = (s.amusd_supply + gross) as u64;
                    match (
                        tvl_spec(new_lst, s.mock_lst_to_sol_rate),
                        liability_spec(new_supply, s.mock_sol_price_usd),
                    ) {
                        (Some(new_tvl), Some(new_liability)) => match credit_spec(
                            s.rounding_reserve_lamports,
                            credit,
                            s.max_rounding_reserve_lamports,
                        ) {
                            Err(e) => Err(e),
                            Ok(new_reserve) => {
                                let new_cr = cr_bps_spec(new_tvl, new_liability);
                                if new_tvl < new_liability {
                                    Err(LaminarError::NegativeEquity)
                                } else if new_cr != u64::MAX && new_cr < s.min_cr_bps {
                                    Err(LaminarError::CollateralRatioTooLow)
                                } else {
                                    match mint_amusd_bound(s.mock_sol_price_usd) {
                                        Err(e) => Err(e),
                                        Ok(bound) => if balance_sheet_deviation(
                                            new_tvl as int,
                                            new_liability as int,
                                            accounting_equity_spec(
                                                new_tvl,
                                                new_liability,
                                                new_reserve,
                                            ),
                                            new_reserve as int,
                                        ) > bound {
                                            Err(LaminarError::BalanceSheetViolation)
                                        } else {
                                            Ok(
                                                MintAmUsdCommit {
                                                    state: GlobalState {
                                                        total_lst_amount: new_lst,
                                                        amusd_supply: new_supply,
                                                        rounding_reserve_lamports: new_reserve,
                                                        operation_counter: synced.next_counter(),
                                                        ..synced
                                                    },
                                                    settlement: Settlement {
                                                        collateral_in: lst_amount,
                                                        collateral_out: 0,
                                                        mint_to_user: net,
                                                        mint_to_treasury: fee,
                                                        fee_to_treasury: 0,
                                                        burn_from_user: 0,
                                                    },
                                                    event: AmUSDMinted {
                                                        lst_deposited: lst_amount,
                                                        amusd_minted: net,
                                                        fee,
                                                        old_tvl,
                                                        new_tvl,
                                                        old_cr_bps: old_cr,
                                                        new_cr_bps: new_cr,
                                                        sol_price_used: s.mock_sol_price_usd,
                                                        timestamp,
                                                    },
                                                },
                                            )
                                        },
                                    }
                                }
                            },
                        },
                        _ => Err(LaminarError::MathOverflow),
                    }
                },
            },
        },
    }
}

/// Computes the gross amUSD amount and the reserve credit of a deposit.
fn mint_amusd_amounts(state: &GlobalState, lst_amount: u64) -> (r: Option<(u64, u64, u64)>)
    ensures
        r == mint_amusd_amounts_spec(*state, lst_amount),
{
    let rate = state.mock_lst_to_sol_rate;
    let price = state.mock_sol_price_usd;
    let sol_value = match compute_tvl_sol(lst_amount, rate) {
        Some(v) => v,
        None => return None,
    };
    let sol_value_up = match mul_div_up(lst_amount, rate, SOL_PRECISION) {
        Some(v) => v,
        None => return None,
    };
    let amusd_gross = match mul_div_down(sol_value, price, SOL_PRECISION) {
        Some(v) => v,
        None => return None,
    };
    let amusd_gross_up = match mul_div_up(sol_value_up, price, SOL_PRECISION) {
        Some(v) => v,
        None => return None,
    };
    let delta = match compute_rounding_delta_units(amusd_gross, amusd_gross_up) {
        Some(v) => v,
        None => return None,
    };
    let credit = match usd_dust_to_lamports_up(delta, price) {
        Some(v) => v,
        None => return None,
    };
    Some((sol_value, amusd_gross, credit))
}

/// Mints amUSD against `lst_amount` LST, or says why not. Nothing is
/// mutated: a commit carries the new state, the transfers and the event.
pub fn handler(
    state: &GlobalState,
    ctx: &OperationContext,
    lst_amount: u64,
    min_amusd_out: u64,
) -> (r: Result<MintAmUsdCommit, LaminarError>)
    ensures
        r == mint_amusd_spec(*state, *ctx, lst_amount, min_amusd_out),
{
    let synced = match preflight(state, ctx) {
        Ok(s) => s,
        Err(e) => return Err(e),
    };
    if state.mint_paused {
        return Err(LaminarError::MintPaused);
    }
    if lst_amount == 0 {
        return Err(LaminarError::ZeroAmount);
    }
    if lst_amount < MIN_LST_DEPOSIT {
        return Err(LaminarError::AmountTooSmall);
    }
    if ctx.source_balance < lst_amount {
        return Err(LaminarError::InsufficientCollateral);
    }
    let rate = state.mock_lst_to_sol_rate;
    let price = state.mock_sol_price_usd;
    let old_tvl = match state.tvl() {
        Some(v) => v,
        None => return Err(LaminarError::MathOverflow),
    };
    let old_liability = match state.liability() {
        Some(v) => v,
        None => return Err(LaminarError::MathOverflow),
    };
    let old_cr_bps = compute_cr_bps(old_tvl, old_liability);
    let (_sol_value, amusd_gross, reserve_credit) = match mint_amusd_amounts(state, lst_amount) {
        Some(v) => v,
        None => return Err(LaminarError::MathOverflow),
    };
    let fee_bps = match compute_dynamic_fee_bps(
        state.fee_amusd_mint_bps,
        FeeAction::AmusdMint,
        old_cr_bps,
        state.min_cr_bps,
        state.target_cr_bps,
        state.fee_min_multiplier_bps,
        state.fee_max_multiplier_bps,
        state.uncertainty_index_bps,
        state.uncertainty_max_bps,
    ) {
        Some(v) => v,
        None => return Err(LaminarError::InvalidParameter),
    };
    let (amusd_to_user, amusd_fee) = match apply_fee(amusd_gross, fee_bps) {
        Some(v) => v,
        None => return Err(LaminarError::MathOverflow),
    };
    if amusd_to_user < min_amusd_out {
        return Err(LaminarError::SlippageExceeded);
    }
    if amusd_to_user < MIN_AMUSD_MINT {
        return Err(LaminarError::AmountTooSmall);
    }
    let new_lst_amount = match state.total_lst_amount.checked_add(lst_amount) {
        Some(v) => v,
        None => return Err(LaminarError::MathOverflow),
    };
    let new_amusd_supply = match state.amusd_supply.checked_add(amusd_gross) {
        Some(v) => v,
        None => return Err(LaminarError::MathOverflow),
    };
    let new_tvl = match compute_tvl_sol(new_lst_amount, rate) {
        Some(v) => v,
        None => return Err(LaminarError::MathOverflow),
    };
    let new_liability = match compute_liability_sol(new_amusd_supply, price) {
        Some(v) => v,
        None => return Err(LaminarError::MathOverflow),
    };
    let new_reserve = match credit_rounding_reserve(
        state.rounding_reserve_lamports,
        reserve_credit,
        state.max_rounding_reserve_lamports,
    ) {
        Ok(v) => v,
        Err(e) => return Err(e),
    };
    let new_cr = compute_cr_bps(new_tvl, new_liability);
    match assert_no_negative_equity(new_tvl, new_liability) {
        Ok(_) => {},
        Err(e) => return Err(e),
    }
    match assert_cr_above_minimum(new_cr, state.min_cr_bps) {
        Ok(_) => {},
        Err(e) => return Err(e),
    }
    let new_equity = match compute_accounting_equity_sol(new_tvl, new_liability, new_reserve) {
        Some(v) => v,
        None => return Err(LaminarError::MathOverflow),
    };
    let bound = match derive_rounding_bound_lamports(2, 1, price) {
        Ok(v) => v,
        Err(e) => return Err(e),
    };
    match assert_rounding_reserve_within_cap(new_reserve, state.max_rounding_reserve_lamports) {
        Ok(_) => {},
        Err(e) => return Err(e),
    }
    match assert_balance_sheet_holds(new_tvl, new_liability, new_equity, new_reserve, bound) {
        Ok(_) => {},
        Err(e) => return Err(e),
    }
    let mut next = synced;
    next.total_lst_amount = new_lst_amount;
    next.amusd_supply = new_amusd_supply;
    next.rounding_reserve_lamports = new_reserve;
    next.operation_counter = if synced.operation_counter == u64::MAX {
        u64::MAX
    } else {
        synced.operation_counter + 1
    };
    Ok(
        MintAmUsdCommit {
            state: next,
            settlement: Settlement {
                collateral_in: lst_amount,
                collateral_out: 0,
                mint_to_user: amusd_to_user,
                mint_to_treasury: amusd_fee,
                fee_to_treasury: 0,
                burn_from_user: 0,
            },
            event: AmUSDMinted {
                lst_deposited: lst_amount,
                amusd_minted: amusd_to_user,
                fee: amusd_fee,
                old_tvl,
                new_tvl,
                old_cr_bps,
                new_cr_bps: new_cr,
                sol_price_used: price,
                timestamp: ctx.unix_timestamp,
            },
        },
    )
}

} // verus!
