//! Mint aSOL: the caller deposits LST and receives aSOL at the current
//! reserve-aware NAV, or at 1:1 when no aSOL exists yet (bootstrap).

use vstd::prelude::*;

use crate::constants::{MIN_ASOL_MINT, MIN_LST_DEPOSIT};
use crate::error::LaminarError;
use crate::events::{AsolMinted, Settlement};
use crate::invariants::{
    assert_balance_sheet_holds, assert_rounding_reserve_within_cap, balance_sheet_deviation,
    credit_rounding_reserve, credit_spec, derive_rounding_bound_lamports, rounding_bound_spec,
};
use crate::math::{
    accounting_equity_spec, apply_fee, apply_fee_spec, asol_dust_to_lamports_up,
    claimable_equity_spec, compute_accounting_equity_sol, compute_claimable_equity_sol,
    compute_cr_bps, compute_dynamic_fee_bps, compute_rounding_delta_units, compute_tvl_sol,
    cr_bps_spec, dust_to_lamports_spec, dynamic_fee_spec, mul_div_down, mul_div_down_spec,
    mul_div_up, mul_div_up_spec, nav_asol_with_reserve, nav_asol_with_reserve_spec,
    rounding_delta_spec, tvl_spec, FeeAction, SOL_PRECISION,
};
use crate::state::{preflight, preflight_spec, GlobalState, OperationContext};

verus! {

/// What a committed aSOL mint produces.
#[derive(Clone, Copy, Debug, PartialEq, Eq, Structural)]
pub struct MintAsolCommit {
    pub state: GlobalState,
    pub settlement: Settlement,
    pub event: AsolMinted,
}

/// Rounding bound of the aSOL paths, in lamports, at `sol_price_usd`.
pub open spec fn asol_bound(sol_price_usd: u64) -> Result<u64, LaminarError> {
    rounding_bound_spec(2, 0, sol_price_usd)
}

/// The rounding reserve an aSOL mint prices against. With aSOL outstanding
/// it is the reserve itself. Before the first mint the protocol must be
/// solvent, `TVL` must equal `Liability + Reserve` within `bound`, and any
/// orphan claimable equity is swept into the reserve, within its cap.
pub open spec fn asol_bootstrap_spec(s: GlobalState, old_tvl: u64, old_liability: u64, bound: u64) -> Result<
    u64,
    LaminarError,
> {
    let reserve = s.rounding_reserve_lamports;
    if s.asol_supply != 0 {
        Ok(reserve)
    } else if old_tvl < old_liability {
        Err(LaminarError::InsolventProtocol)
    } else if balance_sheet_deviation(old_tvl as int, old_liability as int, 0, reserve as int)
        > bound {
        Err(LaminarError::EquityWithoutAsolSupply)
    } else {
        let orphan = claimable_equity_spec(old_tvl, old_liability, reserve);
        if orphan == 0 {
            Ok(reserve)
        } else if reserve + orphan > u64::MAX {
            Err(LaminarError::MathOverflow)
        } else if reserve + orphan > s.max_rounding_reserve_lamports {
            Err(LaminarError::EquityWithoutAsolSupply)
        } else {
            Ok((reserve + orphan) as u64)
        }
    }
}

/// `(nav, gross, credit)` of depositing `lst_amount`: the NAV (1:1 before
/// the first mint), the aSOL minted before fee (rounded down) and the
/// lamport value (rounded up) of the gap to the user-favoring amount.
pub open spec fn mint_asol_amounts_spec(
    s: GlobalState,
    effective_reserve: u64,
    old_tvl: u64,
    old_liability: u64,
    lst_amount: u64,
) -> Result<(u64, u64, u64), LaminarError> {
    let rate = s.mock_lst_to_sol_rate;
    let supply = s.asol_supply;
    match (tvl_spec(lst_amount, rate), mul_div_up_spec(lst_amount, rate, SOL_PRECISION)) {
        (Some(sol_value), Some(sol_value_up)) => if supply == 0 {
            match rounding_delta_spec(sol_value, sol_value_up) {
                None => Err(LaminarError::MathOverflow),
                Some(delta) => Ok((SOL_PRECISION, sol_value, delta)),
            }
        } else {
            match nav_asol_with_reserve_spec(old_tvl, old_liability, effective_reserve, supply) {
                None => Err(LaminarError::MathOverflow),
                Some(nav) => if nav == 0 {
                    Err(LaminarError::InsolventProtocol)
                } else {
                    match (
                        mul_div_down_spec(sol_value, SOL_PRECISION, nav),
                        mul_div_up_spec(sol_value_up, SOL_PRECISION, nav),
                    ) {
                        (Some(gross), Some(up)) => match rounding_delta_spec(gross, up) {
                            None => Err(LaminarError::MathOverflow),
                            Some(delta) => match dust_to_lamports_spec(delta, nav, SOL_PRECISION) {
                                None => Err(LaminarError::MathOverflow),
                                Some(credit) => Ok((nav, gross, credit)),
                            },
                        },
                        _ => Err(LaminarError::MathOverflow),
                    }
                },
            }
        },
        _ => Err(LaminarError::MathOverflow),
    }
}

/// `tvl * 100 / claimable_equity`, or zero when there is no claimable equity.
pub open spec fn leverage_multiple_spec(tvl: u64, claimable: u64) -> u64 {
    if claimable == 0 {
        0
    } else {
        match mul_div_down_spec(tvl, 100, claimable) {
            Some(v) => v,
            None => 0,
        }
    }
}

/// The outcome of minting aSOL against `lst_amount` LST.
pub open spec fn mint_asol_spec(
    s: GlobalState,
    ctx: OperationContext,
    lst_amount: u64,
    min_asol_out: u64,
) -> Result<MintAsolCommit, LaminarError> {
    match preflight_spec(s, ctx) {
        Err(e) => Err(e),
        Ok(synced) => if s.mint_paused {
            Err(LaminarError::MintPaused)
        } else if lst_amount == 0 {
            Err(LaminarError::ZeroAmount)
        } else if lst_amount < MIN_LST_DEPOSIT {
            Err(LaminarError::AmountTooSmall)
        } else if ctx.source_balance < lst_amount {
            Err(LaminarError::InsufficientCollateral)
        } else {
            match (s.tvl_view(), s.liability_view()) {
                (Some(old_tvl), Some(old_liability)) => match asol_bound(s.mock_sol_price_usd) {
                    Err(e) => Err(e),
                    Ok(bound) => match asol_bootstrap_spec(s, old_tvl, old_liability, bound) {
                        Err(e) => Err(e),
                        Ok(effective_reserve) => match mint_asol_amounts_spec(
                            s,
                            effective_reserve,
                            old_tvl,
                            old_liability,
                            lst_amount,
                        ) {
                            Err(e) => Err(e),
                            Ok((nav, gross, credit)) => mint_asol_settle_spec(
                                s,
                                synced,
                                ctx.unix_timestamp,
                                lst_amount,
                                min_asol_out,
                                old_tvl,
                                old_liability,
                                bound,
                                effective_reserve,
                                nav,
                                gross,
                                credit,
                            ),
                        },
                    },
                },
                _ => Err(LaminarError::MathOverflow),
            }
        },
    }
}

/// The fee, post-state checks and commit of an aSOL mint.
pub open spec fn mint_asol_settle_spec(
    s: GlobalState,
    synced: GlobalState,
    timestamp: i64,
    lst_amount: u64,
    min_asol_out: u64,
    old_tvl: u64,
    old_liability: u64,
    bound: u64,
    effective_reserve: u64,
    nav: u64,
    gross: u64,
    credit: u64,
) -> Result<MintAsolCommit, LaminarError> {
    let old_cr = cr_bps_spec(old_tvl, old_liability);
    match dynamic_fee_spec(
        s.fee_asol_mint_bps,
        FeeAction::AsolMint,
        old_cr,
        s.min_cr_bps,
        s.target_cr_bps,
        s.fee_min_multiplier_bps,
        s.fee_max_multiplier_bps,
        s.uncertainty_index_bps,
        s.uncertainty_max_bps,
    ) {
        None => Err(LaminarError::InvalidParameter),
        Some(fee_bps) => match apply_fee_spec(gross, fee_bps) {
            None => Err(LaminarError::MathOverflow),
            Some((net, fee)) => if net < min_asol_out {
                Err(LaminarError::SlippageExceeded)
            } else if net < MIN_ASOL_MINT {
                Err(LaminarError::AmountTooSmall)
            } else if s.total_lst_amount + lst_amount > u64::MAX {
                Err(LaminarError::MathOverflow)
            } else {
                let new_lst = (s.total_lst_amount + lst_amount) as u64;
                match tvl_spec(new_lst, s.mock_lst_to_sol_rate) {
                    None => Err(LaminarError::MathOverflow),
                    Some(new_tvl) => if s.asol_supply + gross > u64::MAX {
                        Err(LaminarError::MathOverflow)
                    } else {
                        match credit_spec(effective_reserve, credit, s.max_rounding_reserve_lamports) {
                            Err(e) => Err(e),
                            Ok(new_reserve) => if balance_sheet_deviation(
                                new_tvl as int,
                                old_liability as int,
                                accounting_equity_spec(new_tvl, old_liability, new_reserve),
                                new_reserve as int,
                            ) > bound {
                                Err(LaminarError::BalanceSheetViolation)
                            } else {
                                let new_claimable = claimable_equity_spec(
                                    new_tvl,
                                    old_liability,
                                    new_reserve,
                                );
                                Ok(
                                    MintAsolCommit {
                                        state: GlobalState {
                                            total_lst_amount: new_lst,
                                            asol_supply: (s.asol_supply + gross) as u64,
                                            rounding_reserve_lamports: new_reserve,
                                            operation_counter: synced.next_counter(),
                                            ..synced
                                        },
                                        settlement: Settlement {
                                            collateral_in: lst_amount,
                                            collateral_out: 0,
                                            mint_to_user: net,
                                            mint_to_treasury: fee,
                                            fee_to_treasury: 0,
                                            burn_from_user: 0,
                                        },
                                        event: AsolMinted {
                                            lst_deposited: lst_amount,
                                            asol_minted: net,
                                            fee,
                                            nav,
                                            old_tvl,
                                            new_tvl,
                                            old_equity: claimable_equity_spec(
                                                old_tvl,
                                                old_liability,
                                                s.rounding_reserve_lamports,
                                            ),
                                            new_equity: new_claimable,
                                            leverage_multiple: leverage_multiple_spec(
                                                new_tvl,
                                                new_claimable,
                                            ),
                                            timestamp,
                                        },
                                    },
                                )
                            },
                        }
                    },
                }
            },
        },
    }
}

/// Decides the reserve an aSOL mint prices against (see `asol_bootstrap_spec`).
fn asol_bootstrap(state: &GlobalState, old_tvl: u64, old_liability: u64, bound: u64) -> (r: Result<
    u64,
    LaminarError,
>)
    ensures
        r == asol_bootstrap_spec(*state, old_tvl, old_liability, bound),
{
    let reserve = state.rounding_reserve_lamports;
    if state.asol_supply != 0 {
        return Ok(reserve);
    }
    if old_tvl < old_liability {
        return Err(LaminarError::InsolventProtocol);
    }
    let lhs = old_tvl as u128;
    let rhs = (old_liability as u128) + (reserve as u128);
    let diff: u128 = if lhs > rhs {
        lhs - rhs
    } else {
        rhs - lhs
    };
    if diff > bound as u128 {
        return Err(LaminarError::EquityWithoutAsolSupply);
    }
    let orphan = match compute_claimable_equity_sol(old_tvl, old_liability, reserve) {
        Some(v) => v,
        None => return Err(LaminarError::MathOverflow),
    };
    if orphan == 0 {
        return Ok(reserve);
    }
    let swept = match reserve.checked_add(orphan) {
        Some(v) => v,
        None => return Err(LaminarError::MathOverflow),
    };
    if swept > state.max_rounding_reserve_lamports {
        return Err(LaminarError::EquityWithoutAsolSupply);
    }
    Ok(swept)
}

/// Computes the NAV, the gross aSOL amount and the reserve credit of a deposit.
fn mint_asol_amounts(
    state: &GlobalState,
    effective_reserve: u64,
    old_tvl: u64,
    old_liability: u64,
    lst_amount: u64,
) -> (r: Result<(u64, u64, u64), LaminarError>)
    ensures
        r == mint_asol_amounts_spec(*state, effective_reserve, old_tvl, old_liability, lst_amount),
{
    let rate = state.mock_lst_to_sol_rate;
    let supply = state.asol_supply;
    let sol_value = match compute_tvl_sol(lst_amount, rate) {
        Some(v) => v,
        None => return Err(LaminarError::MathOverflow),
    };
    let sol_value_up = match mul_div_up(lst_amount, rate, SOL_PRECISION) {
        Some(v) => v,
        None => return Err(LaminarError::MathOverflow),
    };
    if supply == 0 {
        return match compute_rounding_delta_units(sol_value, sol_value_up) {
            Some(delta) => Ok((SOL_PRECISION, sol_value, delta)),
            None => Err(LaminarError::MathOverflow),
        };
    }
    let nav = match nav_asol_with_reserve(old_tvl, old_liability, effective_reserve, supply) {
        Some(v) => v,
        None => return Err(LaminarError::MathOverflow),
    };
    if nav == 0 {
        return Err(LaminarError::InsolventProtocol);
    }
    let asol_gross = match mul_div_down(sol_value, SOL_PRECISION, nav) {
        Some(v) => v,
        None => return Err(LaminarError::MathOverflow),
    };
    let asol_reference_up = match mul_div_up(sol_value_up, SOL_PRECISION, nav) {
        Some(v) => v,
        None => return Err(LaminarError::MathOverflow),
    };
    let delta = match compute_rounding_delta_units(asol_gross, asol_reference_up) {
        Some(v) => v,
        None => return Err(LaminarError::MathOverflow),
    };
    let credit = match asol_dust_to_lamports_up(delta, nav) {
        Some(v) => v,
        None => return Err(LaminarError::MathOverflow),
    };
    Ok((nav, asol_gross, credit))
}

/// Mints aSOL against `lst_amount` LST, or says why not. Nothing is
/// mutated: a commit carries the new state, the transfers and the event.
pub fn handler(
    state: &GlobalState,
    ctx: &OperationContext,
    lst_amount: u64,
    min_asol_out: u64,
) -> (r: Result<MintAsolCommit, LaminarError>)
    ensures
        r == mint_asol_spec(*state, *ctx, lst_amount, min_asol_out),
{
    let synced = match preflight(state, ctx) {
        Ok(s) => s,
        Err(e) => return Err(e),
    };
    if state.mint_paused {
        return Err(LaminarError::MintPaused);
    }
    if lst_amount == 0 {
        return Err(LaminarError::ZeroAmount);
    }
    if lst_amount < MIN_LST_DEPOSIT {
        return Err(LaminarError::AmountTooSmall);
    }
    if ctx.source_balance < lst_amount {
        return Err(LaminarError::InsufficientCollateral);
    }
    let rate = state.mock_lst_to_sol_rate;
    let price = state.mock_sol_price_usd;
    let old_tvl = match state.tvl() {
        Some(v) => v,
        None => return Err(LaminarError::MathOverflow),
    };
    let old_liability = match state.liability() {
        Some(v) => v,
        None => return Err(LaminarError::MathOverflow),
    };
    let old_claimable = match compute_claimable_equity_sol(
        old_tvl,
        old_liability,
        state.rounding_reserve_lamports,
    ) {
        Some(v) => v,
        None => return Err(LaminarError::MathOverflow),
    };
    let old_cr_bps = compute_cr_bps(old_tvl, old_liability);
    let bound = match derive_rounding_bound_lamports(2, 0, price) {
        Ok(v) => v,
        Err(e) => return Err(e),
    };
    let effective_reserve = match asol_bootstrap(state, old_tvl, old_liability, bound) {
        Ok(v) => v,
        Err(e) => return Err(e),
    };
    let (current_nav, asol_gross, reserve_credit) = match mint_asol_amounts(
        state,
        effective_reserve,
        old_tvl,
        old_liability,
        lst_amount,
    ) {
        Ok(v) => v,
        Err(e) => return Err(e),
    };
    let fee_bps = match compute_dynamic_fee_bps(
        state.fee_asol_mint_bps,
        FeeAction::AsolMint,
        old_cr_bps,
        state.min_cr_bps,
        state.target_cr_bps,
        state.fee_min_multiplier_bps,
        state.fee_max_multiplier_bps,
        state.uncertainty_index_bps,
        state.uncertainty_max_bps,
    ) {
        Some(v) => v,
        None => return Err(LaminarError::InvalidParameter),
    };
    let (asol_net, fee) = match apply_fee(asol_gross, fee_bps) {
        Some(v) => v,
        None => return Err(LaminarError::MathOverflow),
    };
    if asol_net < min_asol_out {
        return Err(LaminarError::SlippageExceeded);
    }
    if asol_net < MIN_ASOL_MINT {
        return Err(LaminarError::AmountTooSmall);
    }
    let new_lst_amount = match state.total_lst_amount.checked_add(lst_amount) {
        Some(v) => v,
        None => return Err(LaminarError::MathOverflow),
    };
    let new_tvl = match compute_tvl_sol(new_lst_amount, rate) {
        Some(v) => v,
        None => return Err(LaminarError::MathOverflow),
    };
    let new_asol_supply = match state.asol_supply.checked_add(asol_gross) {
        Some(v) => v,
        None => return Err(LaminarError::MathOverflow),
    };
    let new_liability = old_liability;
    let new_reserve = match credit_rounding_reserve(
        effective_reserve,
        reserve_credit,
        state.max_rounding_reserve_lamports,
    ) {
        Ok(v) => v,
        Err(e) => return Err(e),
    };
    let new_equity = match compute_accounting_equity_sol(new_tvl, new_liability, new_reserve) {
        Some(v) => v,
        None => return Err(LaminarError::MathOverflow),
    };
    let new_claimable = match compute_claimable_equity_sol(new_tvl, new_liability, new_reserve) {
        Some(v) => v,
        None => return Err(LaminarError::MathOverflow),
    };
    let leverage_multiple = if new_claimable > 0 {
        match mul_div_down(new_tvl, 100, new_claimable) {
            Some(v) => v,
            None => 0,
        }
    } else {
        0
    };
    match assert_rounding_reserve_within_cap(new_reserve, state.max_rounding_reserve_lamports) {
        Ok(_) => {},
        Err(e) => return Err(e),
    }
    match assert_balance_sheet_holds(new_tvl, new_liability, new_equity, new_reserve, bound) {
        Ok(_) => {},
        Err(e) => return Err(e),
    }
    let mut next = synced;
    next.total_lst_amount = new_lst_amount;
    next.asol_supply = new_asol_supply;
    next.rounding_reserve_lamports = new_reserve;
    next.operation_counter = if synced.operation_counter == u64::MAX {
        u64::MAX
    } else {
        synced.operation_counter + 1
    };
    Ok(
        MintAsolCommit {
            state: next,
            settlement: Settlement {
                collateral_in: lst_amount,
                collateral_out: 0,
                mint_to_user: asol_net,
                mint_to_treasury: fee,
                fee_to_treasury: 0,
                burn_from_user: 0,
            },
            event: AsolMinted {
                lst_deposited: lst_amount,
                asol_minted: asol_net,
                fee,
                nav: current_nav,
                old_tvl,
                new_tvl,
                old_equity: old_claimable,
                new_equity: new_claimable,
                leverage_multiple,
                timestamp: ctx.unix_timestamp,
            },
        },
    )
}

} // verus!
