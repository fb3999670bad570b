//! Redeem amUSD: the caller burns amUSD and receives LST. A solvent
//! protocol charges a fee on the input and pays at par with user-favoring
//! rounding funded by the rounding reserve; an insolvent one charges no fee
//! and pays every redeemer the same haircut, par times CR.

use vstd::prelude::*;

use crate::constants::{MIN_LST_DEPOSIT, MIN_PROTOCOL_TVL};
use crate::error::LaminarError;
use crate::events::{AmUSDRedeemed, Settlement};
use crate::invariants::{
    assert_balance_sheet_holds, assert_rounding_reserve_within_cap, balance_sheet_deviation,
    debit_rounding_reserve, debit_spec, derive_rounding_bound_lamports, rounding_bound_spec,
};
use crate::math::{
    accounting_equity_spec, apply_fee, apply_fee_spec, compute_accounting_equity_sol,
    compute_cr_bps, compute_dynamic_fee_bps, compute_liability_sol, compute_rounding_delta_units,
    compute_tvl_sol, cr_bps_spec, dust_to_lamports_spec, dynamic_fee_spec, liability_spec,
    lst_dust_to_lamports_up, mul_div_down, mul_div_down_spec, mul_div_up, mul_div_up_spec,
    rounding_delta_spec, tvl_spec, FeeAction, BPS_PRECISION, SOL_PRECISION,
};
use crate::state::{preflight, preflight_spec, GlobalState, OperationContext};

verus! {

/// What a committed amUSD redemption produces.
#[derive(Clone, Copy, Debug, PartialEq, Eq, Structural)]
pub struct RedeemAmUsdCommit {
    pub state: GlobalState,
    pub settlement: Settlement,
    pub event: AmUSDRedeemed,
}

/// The amUSD burned and the fee kept when `amount` is redeemed at `old_cr`:
/// no fee below 100% CR, otherwise the dynamic fee on the input.
pub open spec fn redeem_amusd_fee_spec(s: GlobalState, old_cr: u64, amount: u64) -> Result<
    (u64, u64),
    LaminarError,
> {
    if old_cr < BPS_PRECISION {
        Ok((amount, 0))
    } else {
        match dynamic_fee_spec(
            s.fee_amusd_redeem_bps,
            FeeAction::AmUSDRedeem,
            old_cr,
            s.min_cr_bps,
            s.target_cr_bps,
            s.fee_min_multiplier_bps,
            s.fee_max_multiplier_bps,
            s.uncertainty_index_bps,
            s.uncertainty_max_bps,
        ) {
            None => Err(LaminarError::InvalidParameter),
            Some(fee_bps) => match apply_fee_spec(amount, fee_bps) {
                None => Err(LaminarError::MathOverflow),
                Some((net, fee)) => if net == 0 {
                    Err(LaminarError::AmountTooSmall)
                } else {
                    Ok((net, fee))
                },
            },
        }
    }
}

/// The haircut payout of `net_in` amUSD below 100% CR: the par value in
/// lamports, rounded down, times `old_cr / 10_000`, rounded down, in LST.
pub open spec fn haircut_payout_spec(s: GlobalState, old_cr: u64, net_in: u64) -> Option<u64> {
    match mul_div_down_spec(net_in, SOL_PRECISION, s.mock_sol_price_usd) {
        None => None,
        Some(sol_par_down) => match mul_div_down_spec(sol_par_down, old_cr, BPS_PRECISION) {
            None => None,
            Some(sol_haircut) => mul_div_down_spec(
                sol_haircut,
                SOL_PRECISION,
                s.mock_lst_to_sol_rate,
            ),
        },
    }
}

/// `(lst_out, reserve_debit, k_lamports)` for burning `net_in` amUSD at
/// `old_cr`. Below 100% CR the haircut payout, with no debit. Otherwise the
/// user-favoring (rounded up) payout when the reserve covers the lamport
/// value of its rounding gap, else the conservative (rounded down) one.
pub open spec fn redeem_amusd_payout_spec(s: GlobalState, old_cr: u64, net_in: u64) -> Option<
    (u64, u64, u64),
> {
    let price = s.mock_sol_price_usd;
    let rate = s.mock_lst_to_sol_rate;
    match mul_div_down_spec(net_in, SOL_PRECISION, price) {
        None => None,
        Some(sol_par_down) => match mul_div_down_spec(sol_par_down, SOL_PRECISION, rate) {
            None => None,
            Some(lst_par_down) => if old_cr < BPS_PRECISION {
                match haircut_payout_spec(s, old_cr, net_in) {
                    None => None,
                    Some(lst_haircut) => Some((lst_haircut, 0, 3)),
                }
            } else {
                match mul_div_up_spec(net_in, SOL_PRECISION, price) {
                    None => None,
                    Some(sol_up) => match mul_div_up_spec(sol_up, SOL_PRECISION, rate) {
                        None => None,
                        Some(lst_up) => match rounding_delta_spec(lst_par_down, lst_up) {
                            None => None,
                            Some(delta) => match dust_to_lamports_spec(
                                delta,
                                rate,
                                SOL_PRECISION,
                            ) {
                                None => None,
                                Some(debit) => if debit <= s.rounding_reserve_lamports {
                                    Some((lst_up, debit, 2))
                                } else {
                                    Some((lst_par_down, 0, 2))
                                },
                            },
                        },
                    },
                }
            },
        },
    }
}

/// The outcome of redeeming `amusd_amount` amUSD.
pub open spec fn redeem_amusd_spec(
    s: GlobalState,
    ctx: OperationContext,
    amusd_amount: u64,
    min_lst_out: u64,
) -> Result<RedeemAmUsdCommit, LaminarError> {
    match preflight_spec(s, ctx) {
        Err(e) => Err(e),
        Ok(synced) => if s.redeem_paused {
            Err(LaminarError::RedeemPaused)
        } else if amusd_amount == 0 || min_lst_out == 0 {
            Err(LaminarError::ZeroAmount)
        } else if min_lst_out < MIN_LST_DEPOSIT {
            Err(LaminarError::AmountTooSmall)
        } else if ctx.source_balance < amusd_amount {
            Err(LaminarError::InsufficientSupply)
        } else {
            match (s.tvl_view(), s.liability_view()) {
                (Some(old_tvl), Some(old_liability)) => {
                    let old_cr = cr_bps_spec(old_tvl, old_liability);
                    match redeem_amusd_fee_spec(s, old_cr, amusd_amount) {
                        Err(e) => Err(e),
                        Ok((net_in, fee)) => match redeem_amusd_payout_spec(s, old_cr, net_in) {
                            None => Err(LaminarError::MathOverflow),
                            Some((lst_out, debit, k_lamports)) => redeem_amusd_settle_spec(
                                s,
                                synced,
                                ctx.unix_timestamp,
                                min_lst_out,
                                old_tvl,
                                old_cr,
                                net_in,
                                fee,
                                lst_out,
                                debit,
                                k_lamports,
                            ),
                        },
                    }
                },
                _ => Err(LaminarError::MathOverflow),
            }
        },
    }
}

/// The post-state checks and the commit of an amUSD redemption.
pub open spec fn redeem_amusd_settle_spec(
    s: GlobalState,
    synced: GlobalState,
    timestamp: i64,
    min_lst_out: u64,
    old_tvl: u64,
    old_cr: u64,
    net_in: u64,
    fee: u64,
    lst_out: u64,
    debit: u64,
    k_lamports: u64,
) -> Result<RedeemAmUsdCommit, LaminarError> {
    if lst_out < min_lst_out {
        Err(LaminarError::SlippageExceeded)
    } else if lst_out > s.total_lst_amount {
        Err(LaminarError::InsufficientCollateral)
    } else if s.total_lst_amount - lst_out < MIN_PROTOCOL_TVL && s.total_lst_amount != lst_out {
        Err(LaminarError::BelowMinimumTVL)
    } else {
        let new_lst = (s.total_lst_amount - lst_out) as u64;
        match tvl_spec(new_lst, s.mock_lst_to_sol_rate) {
            None => Err(LaminarError::MathOverflow),
            Some(new_tvl) => if net_in > s.amusd_supply {
                Err(LaminarError::InsufficientSupply)
            } else {
                let new_supply = (s.amusd_supply - net_in) as u64;
                let liability = if new_supply > 0 {
                    liability_spec(new_supply, s.mock_sol_price_usd)
                } else {
                    Some(0u64)
                };
                match liability {
                    None => Err(LaminarError::MathOverflow),
                    Some(new_liability) => match debit_spec(s.rounding_reserve_lamports, debit) {
                        Err(e) => Err(e),
                        Ok(new_reserve) => {
                            let new_cr = if new_supply > 0 {
                                cr_bps_spec(new_tvl, new_liability)
                            } else {
                                u64::MAX
                            };
                            match rounding_bound_spec(k_lamports, 1, s.mock_sol_price_usd) {
                                Err(e) => Err(e),
                                Ok(bound) => if new_reserve > s.max_rounding_reserve_lamports {
                                    Err(LaminarError::RoundingReserveExceeded)
                                } else if balance_sheet_deviation(
                                    new_tvl as int,
                                    new_liability as int,
                                    accounting_equity_spec(new_tvl, new_liability, new_reserve),
                                    new_reserve as int,
                                ) > bound {
                                    Err(LaminarError::BalanceSheetViolation)
                                } else {
                                    Ok(
                                        RedeemAmUsdCommit {
                                            state: GlobalState {
                                                total_lst_amount: new_lst,
                                                amusd_supply: new_supply,
                                                rounding_reserve_lamports: new_reserve,
                                                operation_counter: synced.next_counter(),
                                                ..synced
                                            },
                                            settlement: Settlement {
                                                collateral_in: 0,
                                                collateral_out: lst_out,
                                                mint_to_user: 0,
                                                mint_to_treasury: 0,
                                                fee_to_treasury: fee,
                                                burn_from_user: net_in,
                                            },
                                            event: AmUSDRedeemed {
                                                amusd_burned: net_in,
                                                lst_received: lst_out,
                                                fee,
                                                old_tvl,
                                                new_tvl,
                                                old_cr_bps: old_cr,
                                                new_cr_bps: new_cr,
                                                sol_price_used: s.mock_sol_price_usd,
                                                timestamp,
                                            },
                                        },
                                    )
                                },
                            }
                        },
                    },
                }
            },
        }
    }
}

/// Splits the redeemed amount into the part burned and the fee.
fn redeem_amusd_fee(state: &GlobalState, old_cr: u64, amount: u64) -> (r: Result<
    (u64, u64),
    LaminarError,
>)
    ensures
        r == redeem_amusd_fee_spec(*state, old_cr, amount),
{
    if old_cr < BPS_PRECISION {
        return Ok((amount, 0));
    }
    let fee_bps = match compute_dynamic_fee_bps(
        state.fee_amusd_redeem_bps,
        FeeAction::AmUSDRedeem,
        old_cr,
        state.min_cr_bps,
        state.target_cr_bps,
        state.fee_min_multiplier_bps,
        state.fee_max_multiplier_bps,
        state.uncertainty_index_bps,
        state.uncertainty_max_bps,
    ) {
        Some(v) => v,
        None => return Err(LaminarError::InvalidParameter),
    };
    let (net_in, fee_in) = match apply_fee(amount, fee_bps) {
        Some(v) => v,
        None => return Err(LaminarError::MathOverflow),
    };
    if net_in == 0 {
        return Err(LaminarError::AmountTooSmall);
    }
    Ok((net_in, fee_in))
}

/// Computes the LST payout of burning `net_in` amUSD and its reserve debit.
fn redeem_amusd_payout(state: &GlobalState, old_cr: u64, net_in: u64) -> (r: Option<
    (u64, u64, u64),
>)
    ensures
        r == redeem_amusd_payout_spec(*state, old_cr, net_in),
{
    let price = state.mock_sol_price_usd;
    let rate = state.mock_lst_to_sol_rate;
    let sol_par_down = match mul_div_down(net_in, SOL_PRECISION, price) {
        Some(v) => v,
        None => return None,
    };
    let lst_par_down = match mul_div_down(sol_par_down, SOL_PRECISION, rate) {
        Some(v) => v,
        None => return None,
    };
    if old_cr < BPS_PRECISION {
        let haircut_bps = old_cr;
        let sol_haircut = match mul_div_down(sol_par_down, haircut_bps, BPS_PRECISION) {
            Some(v) => v,
            None => return None,
        };
        let lst_haircut = match mul_div_down(sol_haircut, SOL_PRECISION, rate) {
            Some(v) => v,
            None => return None,
        };
        return Some((lst_haircut, 0, 3));
    }
    let sol_up = match mul_div_up(net_in, SOL_PRECISION, price) {
        Some(v) => v,
        None => return None,
    };
    let lst_up = match mul_div_up(sol_up, SOL_PRECISION, rate) {
        Some(v) => v,
        None => return None,
    };
    let delta = match compute_rounding_delta_units(lst_par_down, lst_up) {
        Some(v) => v,
        None => return None,
    };
    let lamport_debit = match lst_dust_to_lamports_up(delta, rate) {
        Some(v) => v,
        None => return None,
    };
    if lamport_debit <= state.rounding_reserve_lamports {
        Some((lst_up, lamport_debit, 2))
    } else {
        Some((lst_par_down, 0, 2))
    }
}

/// Redeems `amusd_amount` amUSD for LST, or says why not. Nothing is
/// mutated: a commit carries the new state, the transfers and the event.
pub fn handler(
    state: &GlobalState,
    ctx: &OperationContext,
    amusd_amount: u64,
    min_lst_out: u64,
) -> (r: Result<RedeemAmUsdCommit, LaminarError>)
    ensures
        r == redeem_amusd_spec(*state, *ctx, amusd_amount, min_lst_out),
{
    let synced = match preflight(state, ctx) {
        Ok(s) => s,
        Err(e) => return Err(e),
    };
    if state.redeem_paused {
        return Err(LaminarError::RedeemPaused);
    }
    if amusd_amount == 0 || min_lst_out == 0 {
        return Err(LaminarError::ZeroAmount);
    }
    if min_lst_out < MIN_LST_DEPOSIT {
        return Err(LaminarError::AmountTooSmall);
    }
    if ctx.source_balance < amusd_amount {
        return Err(LaminarError::InsufficientSupply);
    }
    let rate = state.mock_lst_to_sol_rate;
    let price = state.mock_sol_price_usd;
    let old_tvl = match state.tvl() {
        Some(v) => v,
        None => return Err(LaminarError::MathOverflow),
    };
    let old_liability = match state.liability() {
        Some(v) => v,
        None => return Err(LaminarError::MathOverflow),
    };
    let old_cr_bps = compute_cr_bps(old_tvl, old_liability);
    let (amusd_net_in, amusd_fee_in) = match redeem_amusd_fee(state, old_cr_bps, amusd_amount) {
        Ok(v) => v,
        Err(e) => return Err(e),
    };
    let (lst_out, reserve_debit, rounding_k_lamports) = match redeem_amusd_payout(
        state,
        old_cr_bps,
        amusd_net_in,
    ) {
        Some(v) => v,
        None => return Err(LaminarError::MathOverflow),
    };
    if lst_out < min_lst_out {
        return Err(LaminarError::SlippageExceeded);
    }
    let new_lst_amount = match state.total_lst_amount.checked_sub(lst_out) {
        Some(v) => v,
        None => return Err(LaminarError::InsufficientCollateral),
    };
    if new_lst_amount < MIN_PROTOCOL_TVL && new_lst_amount != 0 {
        return Err(LaminarError::BelowMinimumTVL);
    }
    let new_tvl = match compute_tvl_sol(new_lst_amount, rate) {
        Some(v) => v,
        None => return Err(LaminarError::MathOverflow),
    };
    let new_amusd_supply = match state.amusd_supply.checked_sub(amusd_net_in) {
        Some(v) => v,
        None => return Err(LaminarError::InsufficientSupply),
    };
    let new_liability = if new_amusd_supply > 0 {
        match compute_liability_sol(new_amusd_supply, price) {
            Some(v) => v,
            None => return Err(LaminarError::MathOverflow),
        }
    } else {
        0
    };
    let new_reserve = match debit_rounding_reserve(state.rounding_reserve_lamports, reserve_debit) {
        Ok(v) => v,
        Err(e) => return Err(e),
    };
    let new_equity = match compute_accounting_equity_sol(new_tvl, new_liability, new_reserve) {
        Some(v) => v,
        None => return Err(LaminarError::MathOverflow),
    };
    let new_cr = if new_amusd_supply > 0 {
        compute_cr_bps(new_tvl, new_liability)
    } else {
        u64::MAX
    };
    let bound = match derive_rounding_bound_lamports(rounding_k_lamports, 1, price) {
        Ok(v) => v,
        Err(e) => return Err(e),
    };
    match assert_rounding_reserve_within_cap(new_reserve, state.max_rounding_reserve_lamports) {
        Ok(_) => {},
        Err(e) => return Err(e),
    }
    match assert_balance_sheet_holds(new_tvl, new_liability, new_equity, new_reserve, bound) {
        Ok(_) => {},
        Err(e) => return Err(e),
    }
    let mut next = synced;
    next.total_lst_amount = new_lst_amount;
    next.amusd_supply = new_amusd_supply;
    next.rounding_reserve_lamports = new_reserve;
    next.operation_counter = if synced.operation_counter == u64::MAX {
        u64::MAX
    } else {
        synced.operation_counter + 1
    };
    Ok(
        RedeemAmUsdCommit {
            state: next,
            settlement: Settlement {
                collateral_in: 0,
                collateral_out: lst_out,
                mint_to_user: 0,
                mint_to_treasury: 0,
                fee_to_treasury: amusd_fee_in,
                burn_from_user: amusd_net_in,
            },
            event: AmUSDRedeemed {
                amusd_burned: amusd_net_in,
                lst_received: lst_out,
                fee: amusd_fee_in,
                old_tvl,
                new_tvl,
                old_cr_bps,
                new_cr_bps: new_cr,
                sol_price_used: price,
                timestamp: ctx.unix_timestamp,
            },
        },
    )
}

} // verus!
