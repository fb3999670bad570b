//! Invariant checks that every state-changing operation runs before it commits.

use vstd::prelude::*;

use crate::error::LaminarError;
use crate::math::{mul_div_up, BPS_PRECISION, SOL_PRECISION};

verus! {

/// The stack height of a top-level (non-nested) call.
pub const TRANSACTION_LEVEL_STACK_HEIGHT: u64 = 1;

/// Lamports per micro-USD at `sol_price_usd`, rounded up.
pub open spec fn lamports_per_micro_usd(sol_price_usd: u64) -> int {
    (SOL_PRECISION + sol_price_usd - 1) / (sol_price_usd as int)
}

/// `k_lamports + k_usd * ceil(SOL_PRECISION / sol_price_usd)`, when it fits.
pub open spec fn rounding_bound_spec(k_lamports: u64, k_usd: u64, sol_price_usd: u64) -> Result<
    u64,
    LaminarError,
> {
    if sol_price_usd == 0 {
        Err(LaminarError::InvalidParameter)
    } else if k_usd * lamports_per_micro_usd(sol_price_usd) > u64::MAX || k_lamports + k_usd
        * lamports_per_micro_usd(sol_price_usd) > u64::MAX {
        Err(LaminarError::ArithmeticOverflow)
    } else {
        Ok((k_lamports + k_usd * lamports_per_micro_usd(sol_price_usd)) as u64)
    }
}

/// `|tvl - (liability + accounting_equity + rounding_reserve)|`.
pub open spec fn balance_sheet_deviation(
    tvl: int,
    liability: int,
    accounting_equity: int,
    rounding_reserve: int,
) -> int {
    let d = tvl - (liability + accounting_equity + rounding_reserve);
    if d >= 0 { d } else { -d }
}

/// Derives the deterministic rounding bound in lamports of one operation path
/// with `k_lamports` divisions in lamports and `k_usd` divisions in micro-USD.
pub fn derive_rounding_bound_lamports(k_lamports: u64, k_usd: u64, sol_price_usd: u64) -> (r:
    Result<u64, LaminarError>)
    ensures
        r == rounding_bound_spec(k_lamports, k_usd, sol_price_usd),
{
    if sol_price_usd == 0 {
        return Err(LaminarError::InvalidParameter);
    }
    assert((SOL_PRECISION * 1 + sol_price_usd - 1) / (sol_price_usd as int) <= SOL_PRECISION)
        by (nonlinear_arith)
        requires
            sol_price_usd >= 1,
    ;
    let lamports_per_micro = match mul_div_up(SOL_PRECISION, 1, sol_price_usd) {
        Some(v) => v,
        None => return Err(LaminarError::ArithmeticOverflow),
    };
    let usd_component = match k_usd.checked_mul(lamports_per_micro) {
        Some(v) => v,
        None => return Err(LaminarError::ArithmeticOverflow),
    };
    match k_lamports.checked_add(usd_component) {
        Some(v) => Ok(v),
        None => Err(LaminarError::ArithmeticOverflow),
    }
}

/// Fails unless the rounding reserve is within its cap.
pub fn assert_rounding_reserve_within_cap(current: u64, max: u64) -> (r: Result<(), LaminarError>)
    ensures
        r == if current <= max {
            Ok::<(), LaminarError>(())
        } else {
            Err(LaminarError::RoundingReserveExceeded)
        },
{
    if current <= max {
        Ok(())
    } else {
        Err(LaminarError::RoundingReserveExceeded)
    }
}

/// Fails unless `TVL == Liability + AccountingEquity + RoundingReserve`
/// within `rounding_bound_lamports`.
pub fn assert_balance_sheet_holds(
    tvl: u64,
    liability: u64,
    accounting_equity: i128,
    rounding_reserve: u64,
    rounding_bound_lamports: u64,
) -> (r: Result<(), LaminarError>)
    ensures
        r == if liability + accounting_equity + rounding_reserve > i128::MAX {
            Err(LaminarError::ArithmeticOverflow)
        } else if balance_sheet_deviation(
            tvl as int,
            liability as int,
            accounting_equity as int,
            rounding_reserve as int,
        ) <= rounding_bound_lamports {
            Ok(())
        } else {
            Err(LaminarError::BalanceSheetViolation)
        },
{
    let lhs = tvl as i128;
    let partial = match (liability as i128).checked_add(accounting_equity) {
        Some(v) => v,
        None => return Err(LaminarError::ArithmeticOverflow),
    };
    let rhs = match partial.checked_add(rounding_reserve as i128) {
        Some(v) => v,
        None => return Err(LaminarError::ArithmeticOverflow),
    };
    let diff: u128 = if lhs >= rhs {
        if rhs >= 0 {
            (lhs - rhs) as u128
        } else {
            (lhs as u128) + ((-(rhs + 1)) as u128) + 1
        }
    } else {
        (rhs - lhs) as u128
    };
    if diff <= rounding_bound_lamports as u128 {
        Ok(())
    } else {
        Err(LaminarError::BalanceSheetViolation)
    }
}

/// Fails unless the collateral ratio is infinite or at least `min_cr_bps`.
pub fn assert_cr_above_minimum(cr_bps: u64, min_cr_bps: u64) -> (r: Result<(), LaminarError>)
    ensures
        r == if cr_bps == u64::MAX || cr_bps >= min_cr_bps {
            Ok::<(), LaminarError>(())
        } else {
            Err(LaminarError::CollateralRatioTooLow)
        },
{
    if cr_bps == u64::MAX {
        return Ok(());
    }
    if cr_bps >= min_cr_bps {
        Ok(())
    } else {
        Err(LaminarError::CollateralRatioTooLow)
    }
}

/// Fails unless TVL covers the liability.
pub fn assert_no_negative_equity(tvl: u64, liability: u64) -> (r: Result<(), LaminarError>)
    ensures
        r == if tvl >= liability {
            Ok::<(), LaminarError>(())
        } else {
            Err(LaminarError::NegativeEquity)
        },
{
    if tvl >= liability {
        Ok(())
    } else {
        Err(LaminarError::NegativeEquity)
    }
}

/// Fails unless `supply` is positive; `action_name` names the caller's action.
pub fn assert_supply_nonzero(supply: u64, action_name: &str) -> (r: Result<(), LaminarError>)
    ensures
        r == if supply > 0 {
            Ok::<(), LaminarError>(())
        } else {
            Err(LaminarError::ZeroSupply)
        },
{
    if supply > 0 {
        Ok(())
    } else {
        Err(LaminarError::ZeroSupply)
    }
}

/// The reserve after a credit, or why the credit is refused.
pub open spec fn credit_spec(current: u64, credit: u64, max: u64) -> Result<u64, LaminarError> {
    if current + credit > u64::MAX {
        Err(LaminarError::ArithmeticOverflow)
    } else if current + credit > max {
        Err(LaminarError::RoundingReserveExceeded)
    } else {
        Ok((current + credit) as u64)
    }
}

/// The reserve after a debit, or why the debit is refused.
pub open spec fn debit_spec(current: u64, debit: u64) -> Result<u64, LaminarError> {
    if debit > current {
        Err(LaminarError::RoundingReserveUnderflow)
    } else {
        Ok((current - debit) as u64)
    }
}

/// Credits the rounding reserve; a credit past the cap is refused.
pub fn credit_rounding_reserve(
    current_rounding_reserve: u64,
    credit_lamports: u64,
    max_rounding_reserve: u64,
) -> (r: Result<u64, LaminarError>)
    ensures
        r == credit_spec(current_rounding_reserve, credit_lamports, max_rounding_reserve),
{
    let next = match current_rounding_reserve.checked_add(credit_lamports) {
        Some(v) => v,
        None => return Err(LaminarError::ArithmeticOverflow),
    };
    if next <= max_rounding_reserve {
        Ok(next)
    } else {
        Err(LaminarError::RoundingReserveExceeded)
    }
}

/// Debits the rounding reserve; a debit past its balance is refused.
pub fn debit_rounding_reserve(current_rounding_reserve: u64, debit_lamports: u64) -> (r: Result<
    u64,
    LaminarError,
>)
    ensures
        r == debit_spec(current_rounding_reserve, debit_lamports),
{
    match current_rounding_reserve.checked_sub(debit_lamports) {
        Some(v) => Ok(v),
        None => Err(LaminarError::RoundingReserveUnderflow),
    }
}

/// Fails unless the call is top-level, given the caller's stack height.
pub fn assert_not_cpi_context(stack_height: u64) -> (r: Result<(), LaminarError>)
    ensures
        r == if stack_height <= TRANSACTION_LEVEL_STACK_HEIGHT {
            Ok::<(), LaminarError>(())
        } else {
            Err(LaminarError::InvalidCPIContext)
        },
{
    if stack_height <= TRANSACTION_LEVEL_STACK_HEIGHT {
        Ok(())
    } else {
        Err(LaminarError::InvalidCPIContext)
    }
}

/// Freshness of a snapshot taken at `last_update_slot`, seen at `current_slot`.
pub open spec fn freshness_spec(current_slot: u64, last_update_slot: u64, max_staleness_slots: u64) -> Result<
    (),
    LaminarError,
> {
    if current_slot < last_update_slot {
        Err(LaminarError::InvalidParameter)
    } else if current_slot - last_update_slot > max_staleness_slots {
        Err(LaminarError::StalePricing)
    } else {
        Ok(())
    }
}

/// Fails when the slot clock moved backwards or the LST rate snapshot is stale.
pub fn assert_lst_snapshot_fresh(current_slot: u64, last_tvl_update_slot: u64, max_staleness_slots: u64) -> (r:
    Result<(), LaminarError>)
    ensures
        r == freshness_spec(current_slot, last_tvl_update_slot, max_staleness_slots),
{
    if current_slot < last_tvl_update_slot {
        return Err(LaminarError::InvalidParameter);
    }
    if current_slot - last_tvl_update_slot > max_staleness_slots {
        return Err(LaminarError::StalePricing);
    }
    Ok(())
}

/// Oracle checks: fresh, a positive price, and a confidence interval of at
/// most `max_conf_bps` of the price.
pub open spec fn oracle_check_spec(
    current_slot: u64,
    last_oracle_update_slot: u64,
    max_staleness_slots: u64,
    sol_price_usd: u64,
    confidence_usd: u64,
    max_conf_bps: u64,
) -> Result<(), LaminarError> {
    match freshness_spec(current_slot, last_oracle_update_slot, max_staleness_slots) {
        Err(e) => Err(e),
        Ok(_) => if sol_price_usd == 0 {
            Err(LaminarError::InvalidParameter)
        } else if confidence_usd * BPS_PRECISION > max_conf_bps * sol_price_usd {
            Err(LaminarError::LowConfidencePricing)
        } else {
            Ok(())
        },
    }
}

/// Fails when the oracle price is stale, zero, or too uncertain.
pub fn assert_oracle_freshness_and_confidence(
    current_slot: u64,
    last_oracle_update_slot: u64,
    max_staleness_slots: u64,
    sol_price_usd: u64,
    confidence_usd: u64,
    max_conf_bps: u64,
) -> (r: Result<(), LaminarError>)
    ensures
        r == oracle_check_spec(
            current_slot,
            last_oracle_update_slot,
            max_staleness_slots,
            sol_price_usd,
            confidence_usd,
            max_conf_bps,
        ),
{
    if current_slot < last_oracle_update_slot {
        return Err(LaminarError::InvalidParameter);
    }
    if current_slot - last_oracle_update_slot > max_staleness_slots {
        return Err(LaminarError::StalePricing);
    }
    if sol_price_usd == 0 {
        return Err(LaminarError::InvalidParameter);
    }
    proof {
        assert(confidence_usd * BPS_PRECISION <= u128::MAX) by (nonlinear_arith)
            requires
                confidence_usd <= u64::MAX,
        ;
        assert(max_conf_bps * sol_price_usd <= u128::MAX) by (nonlinear_arith)
            requires
                max_conf_bps <= u64::MAX,
                sol_price_usd <= u64::MAX,
        ;
    }
    let spread: u128 = (confidence_usd as u128) * (BPS_PRECISION as u128);
    let allowed: u128 = (max_conf_bps as u128) * (sol_price_usd as u128);
    if spread > allowed {
        return Err(LaminarError::LowConfidencePricing);
    }
    Ok(())
}


/// Reconciles the ledger with the token accounts after a settlement: the
/// vault must hold exactly the ledger's collateral and the mint's supply
/// must equal the ledger's supply.
pub fn assert_settlement_matches(
    ledger_collateral: u64,
    vault_balance: u64,
    ledger_supply: u64,
    mint_supply: u64,
) -> (r: Result<(), LaminarError>)
    ensures
        r == if ledger_collateral == vault_balance && ledger_supply == mint_supply {
            Ok::<(), LaminarError>(())
        } else {
            Err(LaminarError::BalanceSheetViolation)
        },
{
    if vault_balance != ledger_collateral {
        return Err(LaminarError::BalanceSheetViolation);
    }
    if mint_supply != ledger_supply {
        return Err(LaminarError::BalanceSheetViolation);
    }
    Ok(())
}

} // verus!
