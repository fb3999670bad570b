//! Redeem aSOL: the caller burns aSOL and receives LST at the current
//! reserve-aware NAV, less a fee charged on the input. The one redemption
//! that re-checks the CR floor, since it removes collateral but no debt.

use vstd::prelude::*;

use crate::constants::{MIN_LST_DEPOSIT, MIN_PROTOCOL_TVL};
use crate::error::LaminarError;
use crate::events::{AsolRedeemed, Settlement};
use crate::instructions::mint_asol::asol_bound;
use crate::invariants::{
    assert_balance_sheet_holds, assert_cr_above_minimum, assert_rounding_reserve_within_cap,
    balance_sheet_deviation, debit_rounding_reserve, debit_spec, derive_rounding_bound_lamports,
};
use crate::math::{
    accounting_equity_spec, apply_fee, apply_fee_spec, claimable_equity_spec,
    compute_accounting_equity_sol, compute_claimable_equity_sol, compute_cr_bps,
    compute_dynamic_fee_bps, compute_rounding_delta_units, compute_tvl_sol, cr_bps_spec,
    dust_to_lamports_spec, dynamic_fee_spec, lst_dust_to_lamports_up, mul_div_down,
    mul_div_down_spec, mul_div_up, mul_div_up_spec, nav_asol_with_reserve,
    nav_asol_with_reserve_spec, rounding_delta_spec, tvl_spec, FeeAction, BPS_PRECISION,
    SOL_PRECISION,
};
use crate::state::{preflight, preflight_spec, GlobalState, OperationContext};

verus! {

/// What a committed aSOL redemption produces.
#[derive(Clone, Copy, Debug, PartialEq, Eq, Structural)]
pub struct RedeemAsolCommit {
    pub state: GlobalState,
    pub settlement: Settlement,
    pub event: AsolRedeemed,
}

/// `(lst_out, reserve_debit)` for burning `net_in` aSOL at `nav`. When
/// solvent, the user-favoring (rounded up) payout if the reserve covers the
/// lamport value of its rounding gap; otherwise the conservative (rounded
/// down) payout with no debit.
pub open spec fn redeem_asol_payout_spec(s: GlobalState, solvent: bool, nav: u64, net_in: u64) -> Option<
    (u64, u64),
> {
    let rate = s.mock_lst_to_sol_rate;
    match mul_div_down_spec(net_in, nav, SOL_PRECISION) {
        None => None,
        Some(sol_down) => match mul_div_down_spec(sol_down, SOL_PRECISION, rate) {
            None => None,
            Some(lst_down) => if !solvent {
                Some((lst_down, 0))
            } else {
                match mul_div_up_spec(net_in, nav, SOL_PRECISION) {
                    None => None,
                    Some(sol_up) => match mul_div_up_spec(sol_up, SOL_PRECISION, rate) {
                        None => None,
                        Some(lst_up) => match rounding_delta_spec(lst_down, lst_up) {
                            None => None,
                            Some(delta) => match dust_to_lamports_spec(
                                delta,
                                rate,
                                SOL_PRECISION,
                            ) {
                                None => None,
                                Some(debit) => if debit <= s.rounding_reserve_lamports {
                                    Some((lst_up, debit))
                                } else {
                                    Some((lst_down, 0))
                                },
                            },
                        },
                    },
                }
            },
        },
    }
}

/// The outcome of redeeming `asol_amount` aSOL.
pub open spec fn redeem_asol_spec(
    s: GlobalState,
    ctx: OperationContext,
    asol_amount: u64,
    min_lst_out: u64,
) -> Result<RedeemAsolCommit, LaminarError> {
    match preflight_spec(s, ctx) {
        Err(e) => Err(e),
        Ok(synced) => if s.redeem_paused {
            Err(LaminarError::RedeemPaused)
        } else if asol_amount == 0 {
            Err(LaminarError::ZeroAmount)
        } else if ctx.source_balance < asol_amount {
            Err(LaminarError::InsufficientSupply)
        } else {
            match (s.tvl_view(), s.liability_view()) {
                (Some(old_tvl), Some(old_liability)) => {
                    let old_cr = cr_bps_spec(old_tvl, old_liability);
                    match dynamic_fee_spec(
                        s.fee_asol_redeem_bps,
                        FeeAction::AsolRedeem,
                        old_cr,
                        s.min_cr_bps,
                        s.target_cr_bps,
                        s.fee_min_multiplier_bps,
                        s.fee_max_multiplier_bps,
                        s.uncertainty_index_bps,
                        s.uncertainty_max_bps,
                    ) {
                        None => Err(LaminarError::InvalidParameter),
                        Some(fee_bps) => match apply_fee_spec(asol_amount, fee_bps) {
                            None => Err(LaminarError::MathOverflow),
                            Some((net_in, fee)) => if net_in == 0 {
                                Err(LaminarError::AmountTooSmall)
                            } else {
                                match nav_asol_with_reserve_spec(
                                    old_tvl,
                                    old_liability,
                                    s.rounding_reserve_lamports,
                                    s.asol_supply,
                                ) {
                                    None => Err(LaminarError::InsolventProtocol),
                                    Some(nav) => if nav == 0 {
                                        Err(LaminarError::InsolventProtocol)
                                    } else if min_lst_out == 0 {
                                        Err(LaminarError::ZeroAmount)
                                    } else if min_lst_out < MIN_LST_DEPOSIT {
                                        Err(LaminarError::AmountTooSmall)
                                    } else {
                                        match redeem_asol_payout_spec(
                                            s,
                                            old_cr >= BPS_PRECISION,
                                            nav,
                                            net_in,
                                        ) {
                                            None => Err(LaminarError::MathOverflow),
                                            Some((lst_out, debit)) => redeem_asol_settle_spec(
                                                s,
                                                synced,
                                                ctx.unix_timestamp,
                                                min_lst_out,
                                                old_tvl,
                                                old_liability,
                                                nav,
                                                net_in,
                                                fee,
                                                lst_out,
                                                debit,
                                            ),
                                        }
                                    },
                                }
                            },
                        },
                    }
                },
                _ => Err(LaminarError::MathOverflow),
            }
        },
    }
}

/// The post-state checks and commit of an aSOL redemption.
pub open spec fn redeem_asol_settle_spec(
    s: GlobalState,
    synced: GlobalState,
    timestamp: i64,
    min_lst_out: u64,
    old_tvl: u64,
    old_liability: u64,
    nav: u64,
    net_in: u64,
    fee: u64,
    lst_out: u64,
    debit: u64,
) -> Result<RedeemAsolCommit, LaminarError> {
    if lst_out < min_lst_out {
        Err(LaminarError::SlippageExceeded)
    } else if lst_out > s.total_lst_amount {
        Err(LaminarError::InsufficientCollateral)
    } else if s.total_lst_amount - lst_out < MIN_PROTOCOL_TVL && s.total_lst_amount != lst_out {
        Err(LaminarError::BelowMinimumTVL)
    } else {
        let new_lst = (s.total_lst_amount - lst_out) as u64;
        match tvl_spec(new_lst, s.mock_lst_to_sol_rate) {
            None => Err(LaminarError::MathOverflow),
            Some(new_tvl) => if net_in > s.asol_supply {
                Err(LaminarError::InsufficientSupply)
            } else {
                match debit_spec(s.rounding_reserve_lamports, debit) {
                    Err(e) => Err(e),
                    Ok(new_reserve) => {
                        let new_cr = if old_liability > 0 {
                            cr_bps_spec(new_tvl, old_liability)
                        } else {
                            u64::MAX
                        };
                        if new_cr != u64::MAX && new_cr < s.min_cr_bps {
                            Err(LaminarError::CollateralRatioTooLow)
                        } else {
                            match asol_bound(s.mock_sol_price_usd) {
                                Err(e) => Err(e),
                                Ok(bound) => if new_reserve > s.max_rounding_reserve_lamports {
                                    Err(LaminarError::RoundingReserveExceeded)
                                } else if balance_sheet_deviation(
                                    new_tvl as int,
                                    old_liability as int,
                                    accounting_equity_spec(new_tvl, old_liability, new_reserve),
                                    new_reserve as int,
                                ) > bound {
                                    Err(LaminarError::BalanceSheetViolation)
                                } else {
                                    Ok(
                                        RedeemAsolCommit {
                                            state: GlobalState {
                                                total_lst_amount: new_lst,
                                                asol_supply: (s.asol_supply - net_in) as u64,
                                                rounding_reserve_lamports: new_reserve,
                                                operation_counter: synced.next_counter(),
                                                ..synced
                                            },
                                            settlement: Settlement {
                                                collateral_in: 0,
                                                collateral_out: lst_out,
                                                mint_to_user: 0,
                                                mint_to_treasury: 0,
                                                fee_to_treasury: fee,
                                                burn_from_user: net_in,
                                            },
                                            event: AsolRedeemed {
                                                asol_burned: net_in,
                                                lst_received: lst_out,
                                                fee,
                                                nav,
                                                old_tvl,
                                                new_tvl,
                                                old_equity: claimable_equity_spec(
                                                    old_tvl,
                                                    old_liability,
                                                    s.rounding_reserve_lamports,
                                                ),
                                                new_equity: claimable_equity_spec(
                                                    new_tvl,
                                                    old_liability,
                                                    new_reserve,
                                                ),
                                                timestamp,
                                            },
                                        },
                                    )
                                },
                            }
                        }
                    },
                }
            },
        }
    }
}

/// Computes the LST payout of burning `net_in` aSOL at `nav` and its reserve debit.
fn redeem_asol_payout(state: &GlobalState, solvent: bool, nav: u64, net_in: u64) -> (r: Option<
    (u64, u64),
>)
    ensures
        r == redeem_asol_payout_spec(*state, solvent, nav, net_in),
{
    let rate = state.mock_lst_to_sol_rate;
    let sol_value_down = match mul_div_down(net_in, nav, SOL_PRECISION) {
        Some(v) => v,
        None => return None,
    };
    let lst_gross_down = match mul_div_down(sol_value_down, SOL_PRECISION, rate) {
        Some(v) => v,
        None => return None,
    };
    if !solvent {
        return Some((lst_gross_down, 0));
    }
    let sol_value_up = match mul_div_up(net_in, nav, SOL_PRECISION) {
        Some(v) => v,
        None => return None,
    };
    let lst_gross_up = match mul_div_up(sol_value_up, SOL_PRECISION, rate) {
        Some(v) => v,
        None => return None,
    };
    let delta = match compute_rounding_delta_units(lst_gross_down, lst_gross_up) {
        Some(v) => v,
        None => return None,
    };
    let lamport_debit = match lst_dust_to_lamports_up(delta, rate) {
        Some(v) => v,
        None => return None,
    };
    if lamport_debit <= state.rounding_reserve_lamports {
        Some((lst_gross_up, lamport_debit))
    } else {
        Some((lst_gross_down, 0))
    }
}

/// Redeems `asol_amount` aSOL for LST, or says why not. Nothing is
/// mutated: a commit carries the new state, the transfers and the event.
pub fn handler(
    state: &GlobalState,
    ctx: &OperationContext,
    asol_amount: u64,
    min_lst_out: u64,
) -> (r: Result<RedeemAsolCommit, LaminarError>)
    ensures
        r == redeem_asol_spec(*state, *ctx, asol_amount, min_lst_out),
{
    let synced = match preflight(state, ctx) {
        Ok(s) => s,
        Err(e) => return Err(e),
    };
    if state.redeem_paused {
        return Err(LaminarError::RedeemPaused);
    }
    if asol_amount == 0 {
        return Err(LaminarError::ZeroAmount);
    }
    if ctx.source_balance < asol_amount {
        return Err(LaminarError::InsufficientSupply);
    }
    let rate = state.mock_lst_to_sol_rate;
    let price = state.mock_sol_price_usd;
    let old_tvl = match state.tvl() {
        Some(v) => v,
        None => return Err(LaminarError::MathOverflow),
    };
    let current_liability = match state.liability() {
        Some(v) => v,
        None => return Err(LaminarError::MathOverflow),
    };
    let old_claimable = match compute_claimable_equity_sol(
        old_tvl,
        current_liability,
        state.rounding_reserve_lamports,
    ) {
        Some(v) => v,
        None => return Err(LaminarError::MathOverflow),
    };
    let old_cr_bps = compute_cr_bps(old_tvl, current_liability);
    let fee_bps = match compute_dynamic_fee_bps(
        state.fee_asol_redeem_bps,
        FeeAction::AsolRedeem,
        old_cr_bps,
        state.min_cr_bps,
        state.target_cr_bps,
        state.fee_min_multiplier_bps,
        state.fee_max_multiplier_bps,
        state.uncertainty_index_bps,
        state.uncertainty_max_bps,
    ) {
        Some(v) => v,
        None => return Err(LaminarError::InvalidParameter),
    };
    let (asol_net_in, asol_fee_in) = match apply_fee(asol_amount, fee_bps) {
        Some(v) => v,
        None => return Err(LaminarError::MathOverflow),
    };
    if asol_net_in == 0 {
        return Err(LaminarError::AmountTooSmall);
    }
    let solvent_mode = old_cr_bps >= BPS_PRECISION;
    let current_nav = match nav_asol_with_reserve(
        old_tvl,
        current_liability,
        state.rounding_reserve_lamports,
        state.asol_supply,
    ) {
        Some(v) => v,
        None => return Err(LaminarError::InsolventProtocol),
    };
    if current_nav == 0 {
        return Err(LaminarError::InsolventProtocol);
    }
    if min_lst_out == 0 {
        return Err(LaminarError::ZeroAmount);
    }
    if min_lst_out < MIN_LST_DEPOSIT {
        return Err(LaminarError::AmountTooSmall);
    }
    let (lst_out, reserve_debit) = match redeem_asol_payout(
        state,
        solvent_mode,
        current_nav,
        asol_net_in,
    ) {
        Some(v) => v,
        None => return Err(LaminarError::MathOverflow),
    };
    if lst_out < min_lst_out {
        return Err(LaminarError::SlippageExceeded);
    }
    let new_lst_amount = match state.total_lst_amount.checked_sub(lst_out) {
        Some(v) => v,
        None => return Err(LaminarError::InsufficientCollateral),
    };
    if new_lst_amount < MIN_PROTOCOL_TVL && new_lst_amount != 0 {
        return Err(LaminarError::BelowMinimumTVL);
    }
    let new_tvl = match compute_tvl_sol(new_lst_amount, rate) {
        Some(v) => v,
        None => return Err(LaminarError::MathOverflow),
    };
    let new_asol_supply = match state.asol_supply.checked_sub(asol_net_in) {
        Some(v) => v,
        None => return Err(LaminarError::InsufficientSupply),
    };
    let new_liability = current_liability;
    let new_reserve = match debit_rounding_reserve(state.rounding_reserve_lamports, reserve_debit) {
        Ok(v) => v,
        Err(e) => return Err(e),
    };
    let new_equity = match compute_accounting_equity_sol(new_tvl, new_liability, new_reserve) {
        Some(v) => v,
        None => return Err(LaminarError::MathOverflow),
    };
    let new_claimable = match compute_claimable_equity_sol(new_tvl, new_liability, new_reserve) {
        Some(v) => v,
        None => return Err(LaminarError::MathOverflow),
    };
    let new_cr_bps = if new_liability > 0 {
        compute_cr_bps(new_tvl, new_liability)
    } else {
        u64::MAX
    };
    match assert_cr_above_minimum(new_cr_bps, state.min_cr_bps) {
        Ok(_) => {},
        Err(e) => return Err(e),
    }
    let bound = match derive_rounding_bound_lamports(2, 0, price) {
        Ok(v) => v,
        Err(e) => return Err(e),
    };
    match assert_rounding_reserve_within_cap(new_reserve, state.max_rounding_reserve_lamports) {
        Ok(_) => {},
        Err(e) => return Err(e),
    }
    match assert_balance_sheet_holds(new_tvl, new_liability, new_equity, new_reserve, bound) {
        Ok(_) => {},
        Err(e) => return Err(e),
    }
    let mut next = synced;
    next.total_lst_amount = new_lst_amount;
    next.asol_supply = new_asol_supply;
    next.rounding_reserve_lamports = new_reserve;
    next.operation_counter = if synced.operation_counter == u64::MAX {
        u64::MAX
    } else {
        synced.operation_counter + 1
    };
    Ok(
        RedeemAsolCommit {
            state: next,
            settlement: Settlement {
                collateral_in: 0,
                collateral_out: lst_out,
                mint_to_user: 0,
                mint_to_treasury: 0,
                fee_to_treasury: asol_fee_in,
                burn_from_user: asol_net_in,
            },
            event: AsolRedeemed {
                asol_burned: asol_net_in,
                lst_received: lst_out,
                fee: asol_fee_in,
                nav: current_nav,
                old_tvl,
                new_tvl,
                old_equity: old_claimable,
                new_equity: new_claimable,
                timestamp: ctx.unix_timestamp,
            },
        },
    )
}

} // verus!
