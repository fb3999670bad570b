//! Fixed-point arithmetic primitives.

use vstd::prelude::*;

pub use crate::constants::{
    BPS_PRECISION, MAX_FEE_MULTIPLIER_BPS, MIN_AMUSD_MINT, MIN_ASOL_MINT, MIN_LST_DEPOSIT,
    MIN_NAV_LAMPORTS, SOL_PRECISION, USD_PRECISION,
};

verus! {

/// `floor(a * b / c)` when `c > 0` and the quotient fits in a `u64`.
pub open spec fn mul_div_down_spec(a: u64, b: u64, c: u64) -> Option<u64> {
    if c == 0 || (a * b) / (c as int) > u64::MAX {
        None
    } else {
        Some(((a * b) / (c as int)) as u64)
    }
}

/// `ceil(a * b / c)` when `c > 0` and the quotient fits in a `u64`.
pub open spec fn mul_div_up_spec(a: u64, b: u64, c: u64) -> Option<u64> {
    if c == 0 || (a * b + c - 1) / (c as int) > u64::MAX {
        None
    } else {
        Some(((a * b + c - 1) / (c as int)) as u64)
    }
}

proof fn lemma_wide_product_fits(a: u64, b: u64, c: u64)
    ensures
        a * b + c <= u128::MAX,
{
    assert(a * b <= (u64::MAX as int) * (u64::MAX as int)) by (nonlinear_arith)
        requires
            a <= u64::MAX,
            b <= u64::MAX,
            0 <= a,
            0 <= b,
    ;
}

/// Multiplies two values and divides by a third, rounding up.
/// Returns `None` when `c == 0` or the result does not fit in a `u64`.
pub fn mul_div_up(a: u64, b: u64, c: u64) -> (r: Option<u64>)
    ensures
        r == mul_div_up_spec(a, b, c),
{
    if c == 0 {
        return None;
    }
    proof {
        lemma_wide_product_fits(a, b, c);
    }
    let numerator: u128 = (a as u128) * (b as u128) + ((c - 1) as u128);
    let result: u128 = numerator / (c as u128);
    if result > u64::MAX as u128 {
        None
    } else {
        Some(result as u64)
    }
}

/// Multiplies two values and divides by a third, rounding down.
/// Returns `None` when `c == 0` or the result does not fit in a `u64`.
pub fn mul_div_down(a: u64, b: u64, c: u64) -> (r: Option<u64>)
    ensures
        r == mul_div_down_spec(a, b, c),
{
    if c == 0 {
        return None;
    }
    proof {
        lemma_wide_product_fits(a, b, c);
    }
    let product: u128 = (a as u128) * (b as u128);
    let result: u128 = product / (c as u128);
    if result > u64::MAX as u128 {
        None
    } else {
        Some(result as u64)
    }
}


/// TVL in lamports: collateral units valued at the LST-to-SOL rate, rounded down.
pub open spec fn tvl_spec(collateral_lamports: u64, lst_to_sol_rate: u64) -> Option<u64> {
    mul_div_down_spec(collateral_lamports, lst_to_sol_rate, SOL_PRECISION)
}

/// Liability in lamports owed to amUSD holders, rounded up.
pub open spec fn liability_spec(amusd_supply: u64, sol_price_usd: u64) -> Option<u64> {
    if sol_price_usd == 0 {
        None
    } else {
        mul_div_up_spec(amusd_supply, SOL_PRECISION, sol_price_usd)
    }
}

/// `favoring - conservative`, when it is not negative.
pub open spec fn rounding_delta_spec(conservative: u64, favoring: u64) -> Option<u64> {
    if favoring < conservative {
        None
    } else {
        Some((favoring - conservative) as u64)
    }
}

/// Dust converted to lamports by `ceil(dust * numerator / denominator)`; zero dust is zero.
pub open spec fn dust_to_lamports_spec(dust: u64, numerator: u64, denominator: u64) -> Option<u64> {
    if dust == 0 {
        Some(0)
    } else {
        mul_div_up_spec(dust, numerator, denominator)
    }
}

/// Collateral ratio in basis points, `u64::MAX` standing for "infinite".
pub open spec fn cr_bps_spec(tvl: u64, liability: u64) -> u64 {
    if liability == 0 {
        u64::MAX
    } else {
        match mul_div_down_spec(tvl, BPS_PRECISION, liability) {
            Some(v) => v,
            None => u64::MAX,
        }
    }
}

/// Accounting equity `TVL - Liability - RoundingReserve`, possibly negative.
pub open spec fn accounting_equity_spec(tvl: u64, liability: u64, rounding_reserve: u64) -> int {
    tvl - liability - rounding_reserve
}

/// Claimable equity: accounting equity floored at zero.
pub open spec fn claimable_equity_spec(tvl: u64, liability: u64, rounding_reserve: u64) -> u64 {
    let e = accounting_equity_spec(tvl, liability, rounding_reserve);
    if e <= 0 {
        0
    } else {
        e as u64
    }
}

/// Reserve-aware aSOL NAV in lamports per aSOL; `None` before the first mint.
pub open spec fn nav_asol_with_reserve_spec(
    tvl: u64,
    liability: u64,
    rounding_reserve: u64,
    asol_supply: u64,
) -> Option<u64> {
    if asol_supply == 0 {
        None
    } else {
        mul_div_down_spec(
            claimable_equity_spec(tvl, liability, rounding_reserve),
            SOL_PRECISION,
            asol_supply,
        )
    }
}

/// Computes total value locked, in lamports, of `collateral_lamports` LST units.
pub fn compute_tvl_sol(collateral_lamports: u64, lst_to_sol_rate: u64) -> (r: Option<u64>)
    ensures
        r == tvl_spec(collateral_lamports, lst_to_sol_rate),
{
    mul_div_down(collateral_lamports, lst_to_sol_rate, SOL_PRECISION)
}

/// Computes the SOL-denominated liability of `amusd_supply`, rounded up.
pub fn compute_liability_sol(amusd_supply: u64, sol_price_usd: u64) -> (r: Option<u64>)
    ensures
        r == liability_spec(amusd_supply, sol_price_usd),
{
    if sol_price_usd == 0 {
        return None;
    }
    mul_div_up(amusd_supply, SOL_PRECISION, sol_price_usd)
}

/// Deterministic rounding delta between a user-favoring and a conservative output.
pub fn compute_rounding_delta_units(conservative_output: u64, use_favouring_output: u64) -> (r:
    Option<u64>)
    ensures
        r == rounding_delta_spec(conservative_output, use_favouring_output),
{
    use_favouring_output.checked_sub(conservative_output)
}

/// Converts micro-USD dust to lamports, rounding up.
pub fn usd_dust_to_lamports_up(usd_dust_micro: u64, sol_price_usd: u64) -> (r: Option<u64>)
    ensures
        r == dust_to_lamports_spec(usd_dust_micro, SOL_PRECISION, sol_price_usd),
{
    if usd_dust_micro == 0 {
        return Some(0);
    }
    mul_div_up(usd_dust_micro, SOL_PRECISION, sol_price_usd)
}

/// Converts LST-unit dust to lamports, rounding up.
pub fn lst_dust_to_lamports_up(lst_dust_units: u64, lst_to_sol_rate: u64) -> (r: Option<u64>)
    ensures
        r == dust_to_lamports_spec(lst_dust_units, lst_to_sol_rate, SOL_PRECISION),
{
    if lst_dust_units == 0 {
        return Some(0);
    }
    mul_div_up(lst_dust_units, lst_to_sol_rate, SOL_PRECISION)
}

/// Converts aSOL-unit dust to lamports at the given NAV, rounding up.
pub fn asol_dust_to_lamports_up(asol_dust_units: u64, nav_lamports: u64) -> (r: Option<u64>)
    ensures
        r == dust_to_lamports_spec(asol_dust_units, nav_lamports, SOL_PRECISION),
{
    if asol_dust_units == 0 {
        return Some(0);
    }
    mul_div_up(asol_dust_units, nav_lamports, SOL_PRECISION)
}

/// Equity without the reserve, saturating at zero when insolvent.
pub fn compute_equity_sol(tvl: u64, liability: u64) -> (r: u64)
    ensures
        r == if tvl >= liability { tvl - liability } else { 0 },
{
    tvl.saturating_sub(liability)
}

/// Collateral ratio in basis points; `u64::MAX` when there is no liability
/// or the ratio does not fit.
pub fn compute_cr_bps(tvl: u64, liability: u64) -> (r: u64)
    ensures
        r == cr_bps_spec(tvl, liability),
{
    if liability == 0 {
        return u64::MAX;
    }
    match mul_div_down(tvl, BPS_PRECISION, liability) {
        Some(v) => v,
        None => u64::MAX,
    }
}

/// Signed accounting equity `TVL - Liability - RoundingReserve`.
pub fn compute_accounting_equity_sol(tvl: u64, liability: u64, rounding_reserve: u64) -> (r:
    Option<i128>)
    ensures
        r == Some(accounting_equity_spec(tvl, liability, rounding_reserve) as i128),
{
    let e: i128 = (tvl as i128) - (liability as i128) - (rounding_reserve as i128);
    Some(e)
}

/// Claimable equity `max(accounting_equity, 0)`.
pub fn compute_claimable_equity_sol(tvl: u64, liability: u64, rounding_reserve: u64) -> (r:
    Option<u64>)
    ensures
        r == Some(claimable_equity_spec(tvl, liability, rounding_reserve)),
{
    let equity: i128 = (tvl as i128) - (liability as i128) - (rounding_reserve as i128);
    if equity <= 0 {
        Some(0)
    } else {
        Some(equity as u64)
    }
}

/// NAV of one amUSD (1e6 units, one dollar) in lamports.
pub fn nav_amusd(sol_price_usd: u64) -> (r: Option<u64>)
    ensures
        r == if sol_price_usd == 0 {
            None
        } else {
            mul_div_down_spec(USD_PRECISION, SOL_PRECISION, sol_price_usd)
        },
{
    if sol_price_usd == 0 {
        return None;
    }
    mul_div_down(USD_PRECISION, SOL_PRECISION, sol_price_usd)
}

/// Reserve-aware NAV of aSOL in lamports per aSOL; `None` when no aSOL exists.
pub fn nav_asol_with_reserve(tvl: u64, liability: u64, rounding_reserve: u64, asol_supply: u64) -> (r:
    Option<u64>)
    ensures
        r == nav_asol_with_reserve_spec(tvl, liability, rounding_reserve, asol_supply),
{
    if asol_supply == 0 {
        return None;
    }
    let claimable = match compute_claimable_equity_sol(tvl, liability, rounding_reserve) {
        Some(v) => v,
        None => return None,
    };
    mul_div_down(claimable, SOL_PRECISION, asol_supply)
}

/// NAV of aSOL ignoring the reserve; `Some(0)` when insolvent, `None` when no aSOL exists.
pub fn nav_asol(tvl: u64, liability: u64, asol_supply: u64) -> (r: Option<u64>)
    ensures
        r == if asol_supply == 0 {
            None
        } else {
            mul_div_down_spec(
                if tvl >= liability { (tvl - liability) as u64 } else { 0 },
                SOL_PRECISION,
                asol_supply,
            )
        },
{
    if asol_supply == 0 {
        return None;
    }
    let equity = compute_equity_sol(tvl, liability);
    mul_div_down(equity, SOL_PRECISION, asol_supply)
}


/// Operation classes of the dynamic fee engine.
#[derive(Clone, Copy, Debug, PartialEq, Eq, Structural)]
pub enum FeeAction {
    /// Debt creation (risk-increasing when CR is low).
    AmusdMint,
    /// Debt repayment (risk-reducing when CR is low).
    AmUSDRedeem,
    /// Equity injection (risk-reducing when CR is low).
    AsolMint,
    /// Equity exit (risk-increasing when CR is low).
    AsolRedeem,
}

impl FeeAction {
    /// Actions that become more expensive as CR deteriorates.
    pub open spec fn risk_increasing(self) -> bool {
        self is AmusdMint || self is AsolRedeem
    }

    /// True for actions that should become more expensive when CR deteriorates.
    pub fn is_risk_increasing(self) -> (r: bool)
        ensures
            r == self.risk_increasing(),
    {
        matches!(self, FeeAction::AmusdMint | FeeAction::AsolRedeem)
    }
}

/// `uncertainty_up_bps = BPS + uncertainty_index_bps * BPS / UNCERTAINTY_K_BPS`.
pub const UNCERTAINTY_K_BPS: u64 = 1_000;

/// `min(max(value, lo), hi)`.
pub open spec fn clamp_spec(value: int, lo: int, hi: int) -> int {
    let v = if value < lo { lo } else { value };
    if v > hi { hi } else { v }
}

/// Multiplier bounds accepted by the fee engine.
pub open spec fn fee_multipliers_valid(fee_min_multiplier_bps: u64, fee_max_multiplier_bps: u64) -> bool {
    fee_min_multiplier_bps <= BPS_PRECISION && fee_max_multiplier_bps >= BPS_PRECISION
}

/// The CR-based multiplier before clamping, for a finite CR in a valid configuration.
pub open spec fn cr_multiplier_raw(
    risk_increasing: bool,
    cr_bps: u64,
    min_cr_bps: u64,
    target_cr_bps: u64,
    fee_min_multiplier_bps: u64,
    fee_max_multiplier_bps: u64,
) -> int {
    if cr_bps >= target_cr_bps {
        BPS_PRECISION as int
    } else if risk_increasing {
        if cr_bps <= min_cr_bps {
            fee_max_multiplier_bps as int
        } else {
            BPS_PRECISION + (target_cr_bps - cr_bps) * (fee_max_multiplier_bps - BPS_PRECISION) / (
            target_cr_bps - min_cr_bps)
        }
    } else {
        if cr_bps <= min_cr_bps {
            fee_min_multiplier_bps as int
        } else {
            BPS_PRECISION - (target_cr_bps - cr_bps) * (BPS_PRECISION - fee_min_multiplier_bps) / (
            target_cr_bps - min_cr_bps)
        }
    }
}

/// The CR multiplier: 1.0x at or above target, interpolated linearly down to
/// `min_cr_bps`, clamped to the extreme multiplier below it.
pub open spec fn cr_multiplier_spec(
    action: FeeAction,
    cr_bps: u64,
    min_cr_bps: u64,
    target_cr_bps: u64,
    fee_min_multiplier_bps: u64,
    fee_max_multiplier_bps: u64,
) -> Option<u64> {
    if min_cr_bps >= target_cr_bps || !fee_multipliers_valid(
        fee_min_multiplier_bps,
        fee_max_multiplier_bps,
    ) {
        None
    } else if cr_bps == u64::MAX {
        Some(BPS_PRECISION)
    } else {
        Some(
            clamp_spec(
                cr_multiplier_raw(
                    action.risk_increasing(),
                    cr_bps,
                    min_cr_bps,
                    target_cr_bps,
                    fee_min_multiplier_bps,
                    fee_max_multiplier_bps,
                ),
                fee_min_multiplier_bps as int,
                fee_max_multiplier_bps as int,
            ) as u64,
        )
    }
}

/// The uncertainty multiplier: neutral for risk-reducing actions, otherwise
/// `1.0x + floor(index * BPS / K)`, clamped to `[1.0x, uncertainty_max_bps]`.
pub open spec fn uncertainty_multiplier_spec(
    action: FeeAction,
    uncertainty_index_bps: u64,
    uncertainty_max_bps: u64,
) -> Option<u64> {
    if uncertainty_max_bps < BPS_PRECISION {
        None
    } else if !action.risk_increasing() {
        Some(BPS_PRECISION)
    } else if BPS_PRECISION + uncertainty_index_bps * BPS_PRECISION / (UNCERTAINTY_K_BPS as int)
        > u64::MAX {
        None
    } else {
        Some(
            clamp_spec(
                BPS_PRECISION + uncertainty_index_bps * BPS_PRECISION / (UNCERTAINTY_K_BPS as int),
                BPS_PRECISION as int,
                uncertainty_max_bps as int,
            ) as u64,
        )
    }
}

/// The composed multiplier: `floor(cr * unc / BPS)`, floored at 1.0x for
/// risk-increasing actions, capped at 1.0x otherwise, then clamped to the
/// configured multiplier bounds.
pub open spec fn composed_multiplier_spec(
    action: FeeAction,
    cr_multiplier_bps: u64,
    unc_multiplier_bps: u64,
    fee_min_multiplier_bps: u64,
    fee_max_multiplier_bps: u64,
) -> Option<u64> {
    if !fee_multipliers_valid(fee_min_multiplier_bps, fee_max_multiplier_bps) {
        None
    } else {
        match mul_div_down_spec(cr_multiplier_bps, unc_multiplier_bps, BPS_PRECISION) {
            None => None,
            Some(total) => {
                let sided = if action.risk_increasing() {
                    if total < BPS_PRECISION { BPS_PRECISION } else { total }
                } else {
                    if total > BPS_PRECISION { BPS_PRECISION } else { total }
                };
                Some(
                    clamp_spec(
                        sided as int,
                        fee_min_multiplier_bps as int,
                        fee_max_multiplier_bps as int,
                    ) as u64,
                )
            },
        }
    }
}

/// The effective dynamic fee in basis points.
pub open spec fn dynamic_fee_spec(
    base_fee_bps: u64,
    action: FeeAction,
    cr_bps: u64,
    min_cr_bps: u64,
    target_cr_bps: u64,
    fee_min_multiplier_bps: u64,
    fee_max_multiplier_bps: u64,
    uncertainty_index_bps: u64,
    uncertainty_max_bps: u64,
) -> Option<u64> {
    if base_fee_bps == 0 {
        Some(0)
    } else {
        match cr_multiplier_spec(
            action,
            cr_bps,
            min_cr_bps,
            target_cr_bps,
            fee_min_multiplier_bps,
            fee_max_multiplier_bps,
        ) {
            None => None,
            Some(crm) => match uncertainty_multiplier_spec(
                action,
                uncertainty_index_bps,
                uncertainty_max_bps,
            ) {
                None => None,
                Some(um) => match composed_multiplier_spec(
                    action,
                    crm,
                    um,
                    fee_min_multiplier_bps,
                    fee_max_multiplier_bps,
                ) {
                    None => None,
                    Some(total) => mul_div_down_spec(base_fee_bps, total, BPS_PRECISION),
                },
            },
        }
    }
}

/// Clamps `value` to `[min_value, max_value]` (the upper bound wins when they cross).
pub fn clamp_u64(value: u64, min_value: u64, max_value: u64) -> (r: u64)
    ensures
        r == clamp_spec(value as int, min_value as int, max_value as int),
{
    let v = if value < min_value { min_value } else { value };
    if v > max_value { max_value } else { v }
}

proof fn lemma_step_within_delta(distance: int, delta: int, range: int)
    requires
        0 <= distance < range,
        0 <= delta,
    ensures
        0 <= distance * delta / range <= delta,
{
    assert(0 <= distance * delta) by (nonlinear_arith)
        requires
            0 <= distance,
            0 <= delta,
    ;
    assert(distance * delta <= range * delta) by (nonlinear_arith)
        requires
            0 <= distance < range,
            0 <= delta,
    ;
    assert(distance * delta / range <= delta) by (nonlinear_arith)
        requires
            distance * delta <= range * delta,
            0 < range,
    ;
    assert(0 <= distance * delta / range) by (nonlinear_arith)
        requires
            0 <= distance * delta,
            0 < range,
    ;
}

/// Derives the CR-based fee multiplier in basis points (10_000 = 1.0x).
pub fn derive_cr_multiplier_bps(
    action: FeeAction,
    cr_bps: u64,
    min_cr_bps: u64,
    target_cr_bps: u64,
    fee_min_multiplier_bps: u64,
    fee_max_multiplier_bps: u64,
) -> (r: Option<u64>)
    ensures
        r == cr_multiplier_spec(
            action,
            cr_bps,
            min_cr_bps,
            target_cr_bps,
            fee_min_multiplier_bps,
            fee_max_multiplier_bps,
        ),
{
    if min_cr_bps >= target_cr_bps {
        return None;
    }
    if fee_min_multiplier_bps > BPS_PRECISION || fee_max_multiplier_bps < BPS_PRECISION {
        return None;
    }
    if cr_bps == u64::MAX {
        return Some(BPS_PRECISION);
    }
    let cr_mult: u64 = if cr_bps >= target_cr_bps {
        BPS_PRECISION
    } else if action.is_risk_increasing() {
        if cr_bps <= min_cr_bps {
            fee_max_multiplier_bps
        } else {
            let distance = target_cr_bps - cr_bps;
            let range = target_cr_bps - min_cr_bps;
            let delta = fee_max_multiplier_bps - BPS_PRECISION;
            proof {
                lemma_step_within_delta(distance as int, delta as int, range as int);
            }
            let step = match mul_div_down(distance, delta, range) {
                Some(v) => v,
                None => return None,
            };
            BPS_PRECISION + step
        }
    } else {
        if cr_bps <= min_cr_bps {
            fee_min_multiplier_bps
        } else {
            let distance = target_cr_bps - cr_bps;
            let range = target_cr_bps - min_cr_bps;
            let delta = BPS_PRECISION - fee_min_multiplier_bps;
            proof {
                lemma_step_within_delta(distance as int, delta as int, range as int);
            }
            let step = match mul_div_down(distance, delta, range) {
                Some(v) => v,
                None => return None,
            };
            BPS_PRECISION - step
        }
    };
    Some(clamp_u64(cr_mult, fee_min_multiplier_bps, fee_max_multiplier_bps))
}

/// Derives the uncertainty multiplier: a capped uplift for risk-increasing
/// actions, neutral for risk-reducing ones.
pub fn derive_uncertainty_multiplier_bps(
    action: FeeAction,
    uncertainty_index_bps: u64,
    uncertainty_max_bps: u64,
) -> (r: Option<u64>)
    ensures
        r == uncertainty_multiplier_spec(action, uncertainty_index_bps, uncertainty_max_bps),
{
    if uncertainty_max_bps < BPS_PRECISION {
        return None;
    }
    if !action.is_risk_increasing() {
        return Some(BPS_PRECISION);
    }
    let uncertainty_delta = match mul_div_down(
        uncertainty_index_bps,
        BPS_PRECISION,
        UNCERTAINTY_K_BPS,
    ) {
        Some(v) => v,
        None => return None,
    };
    let unc_up = match BPS_PRECISION.checked_add(uncertainty_delta) {
        Some(v) => v,
        None => return None,
    };
    Some(clamp_u64(unc_up, BPS_PRECISION, uncertainty_max_bps))
}

/// Composes the CR and uncertainty multipliers with side and range clamps.
pub fn compose_fee_multiplier_bps(
    action: FeeAction,
    cr_multiplier_bps: u64,
    unc_multipier_bps: u64,
    fee_min_multiplier_bps: u64,
    fee_max_multiplier_bps: u64,
) -> (r: Option<u64>)
    ensures
        r == composed_multiplier_spec(
            action,
            cr_multiplier_bps,
            unc_multipier_bps,
            fee_min_multiplier_bps,
            fee_max_multiplier_bps,
        ),
{
    if fee_min_multiplier_bps > BPS_PRECISION || fee_max_multiplier_bps < BPS_PRECISION {
        return None;
    }
    let mut total = match mul_div_down(cr_multiplier_bps, unc_multipier_bps, BPS_PRECISION) {
        Some(v) => v,
        None => return None,
    };
    if action.is_risk_increasing() {
        if total < BPS_PRECISION {
            total = BPS_PRECISION;
        }
    } else {
        if total > BPS_PRECISION {
            total = BPS_PRECISION;
        }
    }
    Some(clamp_u64(total, fee_min_multiplier_bps, fee_max_multiplier_bps))
}

/// Final dynamic fee in basis points: `floor(base_fee_bps * multiplier / BPS)`.
pub fn compute_dynamic_fee_bps(
    base_fee_bps: u64,
    action: FeeAction,
    cr_bps: u64,
    min_cr_bps: u64,
    target_cr_bps: u64,
    fee_min_multiplier_bps: u64,
    fee_max_multiplier_bps: u64,
    uncertainty_index_bps: u64,
    uncertainty_max_bps: u64,
) -> (r: Option<u64>)
    ensures
        r == dynamic_fee_spec(
            base_fee_bps,
            action,
            cr_bps,
            min_cr_bps,
            target_cr_bps,
            fee_min_multiplier_bps,
            fee_max_multiplier_bps,
            uncertainty_index_bps,
            uncertainty_max_bps,
        ),
{
    if base_fee_bps == 0 {
        return Some(0);
    }
    let cr_multiplier = match derive_cr_multiplier_bps(
        action,
        cr_bps,
        min_cr_bps,
        target_cr_bps,
        fee_min_multiplier_bps,
        fee_max_multiplier_bps,
    ) {
        Some(v) => v,
        None => return None,
    };
    let unc_multiplier = match derive_uncertainty_multiplier_bps(
        action,
        uncertainty_index_bps,
        uncertainty_max_bps,
    ) {
        Some(v) => v,
        None => return None,
    };
    let total_multiplier = match compose_fee_multiplier_bps(
        action,
        cr_multiplier,
        unc_multiplier,
        fee_min_multiplier_bps,
        fee_max_multiplier_bps,
    ) {
        Some(v) => v,
        None => return None,
    };
    mul_div_down(base_fee_bps, total_multiplier, BPS_PRECISION)
}

/// Fee that rises as CR falls below target: `ceil(base * target / cr)`,
/// capped at `MAX_FEE_MULTIPLIER_BPS` times the base.
pub open spec fn fee_increase_when_low_spec(base_fee_bps: u64, cr_bps: u64, target_cr_bps: u64) -> u64 {
    if base_fee_bps == 0 {
        0
    } else if cr_bps == u64::MAX || cr_bps >= target_cr_bps {
        base_fee_bps
    } else {
        let scaled = match mul_div_up_spec(base_fee_bps, target_cr_bps, cr_bps) {
            Some(v) => v,
            None => base_fee_bps,
        };
        let max_fee = match mul_div_down_spec(base_fee_bps, MAX_FEE_MULTIPLIER_BPS, BPS_PRECISION) {
            Some(v) => v,
            None => u64::MAX,
        };
        if scaled < max_fee { scaled } else { max_fee }
    }
}

/// Fee that falls as CR falls below target: `floor(base * cr / target)`.
pub open spec fn fee_decrease_when_low_spec(base_fee_bps: u64, cr_bps: u64, target_cr_bps: u64) -> u64 {
    if base_fee_bps == 0 {
        0
    } else if cr_bps == u64::MAX || cr_bps >= target_cr_bps {
        base_fee_bps
    } else {
        match mul_div_down_spec(base_fee_bps, cr_bps, target_cr_bps) {
            Some(v) => v,
            None => 0,
        }
    }
}

/// Fee adjustment for actions that become more expensive when CR is below target.
pub fn fee_bps_increase_when_low(base_fee_bps: u64, cr_bps: u64, target_cr_bps: u64) -> (r: u64)
    ensures
        r == fee_increase_when_low_spec(base_fee_bps, cr_bps, target_cr_bps),
{
    if base_fee_bps == 0 {
        return 0;
    }
    if cr_bps == u64::MAX || cr_bps >= target_cr_bps {
        return base_fee_bps;
    }
    let scaled = match mul_div_up(base_fee_bps, target_cr_bps, cr_bps) {
        Some(v) => v,
        None => base_fee_bps,
    };
    let max_fee = match mul_div_down(base_fee_bps, MAX_FEE_MULTIPLIER_BPS, BPS_PRECISION) {
        Some(v) => v,
        None => u64::MAX,
    };
    if scaled < max_fee {
        scaled
    } else {
        max_fee
    }
}

/// Fee adjustment for actions that become cheaper when CR is below target.
pub fn fee_bps_decrease_when_low(base_fee_bps: u64, cr_bps: u64, target_cr_bps: u64) -> (r: u64)
    ensures
        r == fee_decrease_when_low_spec(base_fee_bps, cr_bps, target_cr_bps),
{
    if base_fee_bps == 0 {
        return 0;
    }
    if cr_bps == u64::MAX || cr_bps >= target_cr_bps {
        return base_fee_bps;
    }
    match mul_div_down(base_fee_bps, cr_bps, target_cr_bps) {
        Some(v) => v,
        None => 0,
    }
}

/// `(net, fee)` for a gross amount: `fee = floor(amount * fee_bps / BPS)`,
/// `net = amount - fee`.
pub open spec fn apply_fee_spec(amount: u64, fee_bps: u64) -> Option<(u64, u64)> {
    match mul_div_down_spec(amount, fee_bps, BPS_PRECISION) {
        None => None,
        Some(fee) => if fee > amount {
            None
        } else {
            Some(((amount - fee) as u64, fee))
        },
    }
}

/// Applies a fee to an amount and returns `(net_amount, fee_amount)`.
pub fn apply_fee(amount: u64, fee_bps: u64) -> (r: Option<(u64, u64)>)
    ensures
        r == apply_fee_spec(amount, fee_bps),
{
    let fee_amount = match mul_div_down(amount, fee_bps, BPS_PRECISION) {
        Some(v) => v,
        None => return None,
    };
    let net_amount = match amount.checked_sub(fee_amount) {
        Some(v) => v,
        None => return None,
    };
    Some((net_amount, fee_amount))
}


proof fn lemma_floor_div_monotone(x: int, y: int, d: int)
    requires
        0 <= x <= y,
        d > 0,
    ensures
        x / d <= y / d,
{
    assert(x / d <= y / d) by (nonlinear_arith)
        requires
            0 <= x <= y,
            d > 0,
    ;
}

proof fn lemma_mul_div_monotone(x: int, y: int, m: int, d: int)
    requires
        0 <= x <= y,
        m >= 0,
        d > 0,
    ensures
        0 <= x * m / d <= y * m / d,
{
    assert(0 <= x * m <= y * m) by (nonlinear_arith)
        requires
            0 <= x <= y,
            m >= 0,
    ;
    lemma_floor_div_monotone(0, x * m, d);
    lemma_floor_div_monotone(x * m, y * m, d);
}

proof fn lemma_clamp_monotone(a: int, b: int, lo: int, hi: int)
    requires
        a <= b,
    ensures
        clamp_spec(a, lo, hi) <= clamp_spec(b, lo, hi),
{
}

/// The CR multiplier is non-increasing in CR for risk-increasing actions and
/// non-decreasing for risk-reducing ones, and lies within the multiplier bounds.
proof fn lemma_cr_multiplier_monotone(
    action: FeeAction,
    cr_lo: u64,
    cr_hi: u64,
    min_cr_bps: u64,
    target_cr_bps: u64,
    fee_min_multiplier_bps: u64,
    fee_max_multiplier_bps: u64,
)
    requires
        cr_lo <= cr_hi,
        min_cr_bps < target_cr_bps,
        fee_multipliers_valid(fee_min_multiplier_bps, fee_max_multiplier_bps),
    ensures
        ({
            let lo = cr_multiplier_spec(
                action,
                cr_lo,
                min_cr_bps,
                target_cr_bps,
                fee_min_multiplier_bps,
                fee_max_multiplier_bps,
            ).unwrap();
            let hi = cr_multiplier_spec(
                action,
                cr_hi,
                min_cr_bps,
                target_cr_bps,
                fee_min_multiplier_bps,
                fee_max_multiplier_bps,
            ).unwrap();
            &&& fee_min_multiplier_bps <= lo <= fee_max_multiplier_bps
            &&& fee_min_multiplier_bps <= hi <= fee_max_multiplier_bps
            &&& action.risk_increasing() ==> lo >= hi
            &&& !action.risk_increasing() ==> lo <= hi
        }),
{
    let ri = action.risk_increasing();
    let range = target_cr_bps - min_cr_bps;
    if cr_lo < target_cr_bps && cr_lo > min_cr_bps {
        let d = if ri {
            fee_max_multiplier_bps - BPS_PRECISION
        } else {
            BPS_PRECISION - fee_min_multiplier_bps
        };
        lemma_step_within_delta(target_cr_bps - cr_lo, d, range);
    }
    if cr_hi < target_cr_bps && cr_hi > min_cr_bps {
        let d = if ri {
            fee_max_multiplier_bps - BPS_PRECISION
        } else {
            BPS_PRECISION - fee_min_multiplier_bps
        };
        lemma_step_within_delta(target_cr_bps - cr_hi, d, range);
    }
    if cr_hi < target_cr_bps && cr_lo > min_cr_bps {
        let d = if ri {
            fee_max_multiplier_bps - BPS_PRECISION
        } else {
            BPS_PRECISION - fee_min_multiplier_bps
        };
        lemma_mul_div_monotone(target_cr_bps - cr_hi, target_cr_bps - cr_lo, d, range);
    }
    let raw_lo = cr_multiplier_raw(
        ri,
        cr_lo,
        min_cr_bps,
        target_cr_bps,
        fee_min_multiplier_bps,
        fee_max_multiplier_bps,
    );
    let raw_hi = cr_multiplier_raw(
        ri,
        cr_hi,
        min_cr_bps,
        target_cr_bps,
        fee_min_multiplier_bps,
        fee_max_multiplier_bps,
    );
    if ri {
        lemma_clamp_monotone(raw_hi, raw_lo, fee_min_multiplier_bps as int, fee_max_multiplier_bps as int);
    } else {
        lemma_clamp_monotone(raw_lo, raw_hi, fee_min_multiplier_bps as int, fee_max_multiplier_bps as int);
    }
}

/// Fee monotonicity: with every other input fixed, the effective fee of a
/// risk-increasing action never falls as CR falls, and stays between the
/// base fee and `base * fee_max_multiplier_bps / 10_000`; that of a
/// risk-reducing action never rises as CR falls, and stays between
/// `base * fee_min_multiplier_bps / 10_000` and the base fee.
pub proof fn lemma_dynamic_fee_monotone_in_cr(
    base_fee_bps: u64,
    action: FeeAction,
    cr_lo: u64,
    cr_hi: u64,
    min_cr_bps: u64,
    target_cr_bps: u64,
    fee_min_multiplier_bps: u64,
    fee_max_multiplier_bps: u64,
    uncertainty_index_bps: u64,
    uncertainty_max_bps: u64,
)
    requires
        cr_lo <= cr_hi,
    ensures
        ({
            let f_lo = dynamic_fee_spec(
                base_fee_bps,
                action,
                cr_lo,
                min_cr_bps,
                target_cr_bps,
                fee_min_multiplier_bps,
                fee_max_multiplier_bps,
                uncertainty_index_bps,
                uncertainty_max_bps,
            );
            let f_hi = dynamic_fee_spec(
                base_fee_bps,
                action,
                cr_hi,
                min_cr_bps,
                target_cr_bps,
                fee_min_multiplier_bps,
                fee_max_multiplier_bps,
                uncertainty_index_bps,
                uncertainty_max_bps,
            );
            &&& (f_lo is Some && f_hi is Some) ==> (if action.risk_increasing() {
                f_lo.unwrap() >= f_hi.unwrap()
            } else {
                f_lo.unwrap() <= f_hi.unwrap()
            })
            &&& f_lo is Some ==> (if action.risk_increasing() {
                base_fee_bps <= f_lo.unwrap() <= base_fee_bps * fee_max_multiplier_bps / (
                BPS_PRECISION as int)
            } else {
                base_fee_bps * fee_min_multiplier_bps / (BPS_PRECISION as int) <= f_lo.unwrap()
                    <= base_fee_bps
            })
        }),
{
    if base_fee_bps != 0 && min_cr_bps < target_cr_bps && fee_multipliers_valid(
        fee_min_multiplier_bps,
        fee_max_multiplier_bps,
    ) && uncertainty_multiplier_spec(action, uncertainty_index_bps, uncertainty_max_bps) is Some {
        lemma_fee_monotone_configured(
            base_fee_bps,
            action,
            cr_lo,
            cr_hi,
            min_cr_bps,
            target_cr_bps,
            fee_min_multiplier_bps,
            fee_max_multiplier_bps,
            uncertainty_index_bps,
            uncertainty_max_bps,
        );
    }
}

proof fn lemma_fee_monotone_configured(
    base_fee_bps: u64,
    action: FeeAction,
    cr_lo: u64,
    cr_hi: u64,
    min_cr_bps: u64,
    target_cr_bps: u64,
    fee_min_multiplier_bps: u64,
    fee_max_multiplier_bps: u64,
    uncertainty_index_bps: u64,
    uncertainty_max_bps: u64,
)
    requires
        cr_lo <= cr_hi,
        base_fee_bps != 0,
        min_cr_bps < target_cr_bps,
        fee_multipliers_valid(fee_min_multiplier_bps, fee_max_multiplier_bps),
        uncertainty_multiplier_spec(action, uncertainty_index_bps, uncertainty_max_bps) is Some,
    ensures
        ({
            let f_lo = dynamic_fee_spec(
                base_fee_bps,
                action,
                cr_lo,
                min_cr_bps,
                target_cr_bps,
                fee_min_multiplier_bps,
                fee_max_multiplier_bps,
                uncertainty_index_bps,
                uncertainty_max_bps,
            );
            let f_hi = dynamic_fee_spec(
                base_fee_bps,
                action,
                cr_hi,
                min_cr_bps,
                target_cr_bps,
                fee_min_multiplier_bps,
                fee_max_multiplier_bps,
                uncertainty_index_bps,
                uncertainty_max_bps,
            );
            &&& (f_lo is Some && f_hi is Some) ==> (if action.risk_increasing() {
                f_lo.unwrap() >= f_hi.unwrap()
            } else {
                f_lo.unwrap() <= f_hi.unwrap()
            })
            &&& f_lo is Some ==> (if action.risk_increasing() {
                base_fee_bps <= f_lo.unwrap() <= base_fee_bps * fee_max_multiplier_bps / (
                BPS_PRECISION as int)
            } else {
                base_fee_bps * fee_min_multiplier_bps / (BPS_PRECISION as int) <= f_lo.unwrap()
                    <= base_fee_bps
            })
        }),
{
    lemma_cr_multiplier_monotone(
        action,
        cr_lo,
        cr_hi,
        min_cr_bps,
        target_cr_bps,
        fee_min_multiplier_bps,
        fee_max_multiplier_bps,
    );
    let crm_lo = cr_multiplier_spec(
        action,
        cr_lo,
        min_cr_bps,
        target_cr_bps,
        fee_min_multiplier_bps,
        fee_max_multiplier_bps,
    ).unwrap();
    let crm_hi = cr_multiplier_spec(
        action,
        cr_hi,
        min_cr_bps,
        target_cr_bps,
        fee_min_multiplier_bps,
        fee_max_multiplier_bps,
    ).unwrap();
    let u = uncertainty_multiplier_spec(action, uncertainty_index_bps, uncertainty_max_bps).unwrap();
    let b = BPS_PRECISION as int;
    if action.risk_increasing() {
        lemma_mul_div_monotone(crm_hi as int, crm_lo as int, u as int, b);
    } else {
        lemma_mul_div_monotone(crm_lo as int, crm_hi as int, u as int, b);
    }
    let t_lo = composed_multiplier_spec(
        action,
        crm_lo,
        u,
        fee_min_multiplier_bps,
        fee_max_multiplier_bps,
    );
    let t_hi = composed_multiplier_spec(
        action,
        crm_hi,
        u,
        fee_min_multiplier_bps,
        fee_max_multiplier_bps,
    );
    if t_lo is Some {
        let tl = t_lo.unwrap();
        assert(BPS_PRECISION as int * BPS_PRECISION as int / b == BPS_PRECISION as int);
        if action.risk_increasing() {
            lemma_mul_div_monotone(BPS_PRECISION as int, tl as int, base_fee_bps as int, b);
            lemma_mul_div_monotone(tl as int, fee_max_multiplier_bps as int, base_fee_bps as int, b);
            assert(base_fee_bps as int * BPS_PRECISION as int / b == base_fee_bps) by (nonlinear_arith)
                requires b == BPS_PRECISION, b > 0;
            assert(BPS_PRECISION as int * base_fee_bps as int == base_fee_bps as int * BPS_PRECISION as int) by (nonlinear_arith);
            assert(tl as int * base_fee_bps as int == base_fee_bps as int * tl as int) by (nonlinear_arith);
            assert(fee_max_multiplier_bps as int * base_fee_bps as int == base_fee_bps as int * fee_max_multiplier_bps as int) by (nonlinear_arith);
        } else {
            lemma_mul_div_monotone(tl as int, BPS_PRECISION as int, base_fee_bps as int, b);
            lemma_mul_div_monotone(fee_min_multiplier_bps as int, tl as int, base_fee_bps as int, b);
            assert(base_fee_bps as int * BPS_PRECISION as int / b == base_fee_bps) by (nonlinear_arith)
                requires b == BPS_PRECISION, b > 0;
            assert(BPS_PRECISION as int * base_fee_bps as int == base_fee_bps as int * BPS_PRECISION as int) by (nonlinear_arith);
            assert(tl as int * base_fee_bps as int == base_fee_bps as int * tl as int) by (nonlinear_arith);
            assert(fee_min_multiplier_bps as int * base_fee_bps as int == base_fee_bps as int * fee_min_multiplier_bps as int) by (nonlinear_arith);
        }
    }
    if t_lo is Some && t_hi is Some {
        let tl = t_lo.unwrap();
        let th = t_hi.unwrap();
        if action.risk_increasing() {
            assert(th <= tl);
            lemma_mul_div_monotone(th as int, tl as int, base_fee_bps as int, b);
            assert(tl as int * base_fee_bps as int == base_fee_bps as int * tl as int) by (nonlinear_arith);
            assert(th as int * base_fee_bps as int == base_fee_bps as int * th as int) by (nonlinear_arith);
        } else {
            assert(tl <= th);
            lemma_mul_div_monotone(tl as int, th as int, base_fee_bps as int, b);
            assert(tl as int * base_fee_bps as int == base_fee_bps as int * tl as int) by (nonlinear_arith);
            assert(th as int * base_fee_bps as int == base_fee_bps as int * th as int) by (nonlinear_arith);
        }
    }
}

} // verus!
