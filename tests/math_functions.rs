use laminar::math::{
    apply_fee, compute_cr_bps, compute_dynamic_fee_bps, compute_equity_sol, compute_liability_sol,
    compute_rounding_delta_units, fee_bps_decrease_when_low, fee_bps_increase_when_low, mul_div_down,
    mul_div_up, nav_amusd, nav_asol, usd_dust_to_lamports_up, FeeAction, SOL_PRECISION,
    USD_PRECISION,
};


#[test]
fn test_mul_div_up_rounding() {
    // 10 * 3 / 4 = 7.5, should round up to 8
    assert_eq!(mul_div_up(10, 3, 4), Some(8));
    
    // Exact division should not add rounding
    assert_eq!(mul_div_up(10, 4, 4), Some(10));
}

#[test]
fn test_mul_div_down_rounding() {
    // 10 * 3 / 4 = 7.5, should round down to 7
    assert_eq!(mul_div_down(10, 3, 4), Some(7));
    
    // Exact division
    assert_eq!(mul_div_down(10, 4, 4), Some(10));
}

#[test]
fn test_mul_div_zero_divisor() {
    // Division by zero should return None
    assert_eq!(mul_div_up(10, 3, 0), None);
    assert_eq!(mul_div_down(10, 3, 0), None);
}

#[test]
fn test_compute_cr_bps_basic() {
    // TVL = 200 SOL, Liability = 100 SOL
    // CR = 200 / 100 = 200% = 20000 bps
    let tvl = 200 * SOL_PRECISION;
    let liability = 100 * SOL_PRECISION;
    assert_eq!(compute_cr_bps(tvl, liability), 20_000);
}

#[test]
fn test_compute_cr_bps_exactly_150_percent() {
    // TVL = 150 SOL, Liability = 100 SOL
    // CR = 150% = 15000 bps
    let tvl = 150 * SOL_PRECISION;
    let liability = 100 * SOL_PRECISION;
    assert_eq!(compute_cr_bps(tvl, liability), 15_000);
}

#[test]
fn test_compute_cr_bps_undercollateralized() {
    // TVL = 120 SOL, Liability = 100 SOL
    // CR = 120% = 12000 bps
    let tvl = 120 * SOL_PRECISION;
    let liability = 100 * SOL_PRECISION;
    assert_eq!(compute_cr_bps(tvl, liability), 12_000);
}

#[test]
fn test_compute_cr_bps_zero_liability() {
    // No debt: CR is infinite
    let tvl = 100 * SOL_PRECISION;
    assert_eq!(compute_cr_bps(tvl, 0), u64::MAX);
}

#[test]
fn test_compute_equity_sol_positive() {
    // TVL = 200 SOL, Liability = 100 SOL
    // Equity = 100 SOL
    let tvl = 200 * SOL_PRECISION;
    let liability = 100 * SOL_PRECISION;
    assert_eq!(compute_equity_sol(tvl, liability), 100 * SOL_PRECISION);
}

#[test]
fn test_compute_equity_sol_zero_when_insolvent() {
    // TVL = 80 SOL, Liability = 100 SOL
    // Equity = 0 (not negative)
    let tvl = 80 * SOL_PRECISION;
    let liability = 100 * SOL_PRECISION;
    assert_eq!(compute_equity_sol(tvl, liability), 0);
}

#[test]
fn test_nav_asol_at_various_leverage() {
    // Scenario: TVL = 200 SOL, Liability = 100 SOL, aSOL supply = 100
    let tvl = 200 * SOL_PRECISION;
    let liability = 100 * SOL_PRECISION;
    let asol_supply = 100 * SOL_PRECISION;
    
    // Equity = 100 SOL, NAV = 100/100 = 1 SOL per aSOL
    assert_eq!(nav_asol(tvl, liability, asol_supply), Some(SOL_PRECISION));
}

#[test]
fn test_nav_asol_high_leverage() {
    // Scenario: TVL = 200 SOL, Liability = 180 SOL, aSOL supply = 20
    let tvl = 200 * SOL_PRECISION;
    let liability = 180 * SOL_PRECISION;
    let asol_supply = 20 * SOL_PRECISION;
    
    // Equity = 20 SOL, NAV = 20/20 = 1 SOL per aSOL
    assert_eq!(nav_asol(tvl, liability, asol_supply), Some(SOL_PRECISION));
}

#[test]
fn test_nav_asol_zero_when_insolvent() {
    // TVL < Liability should return NAV = 0
    let tvl = 90 * SOL_PRECISION;
    let liability = 100 * SOL_PRECISION;
    let asol_supply = 50 * SOL_PRECISION;
    
    assert_eq!(nav_asol(tvl, liability, asol_supply), Some(0));
}

#[test]
fn test_nav_asol_zero_supply_edge_case() {
    // First mint case - no aSOL exists yet
    let tvl = 100 * SOL_PRECISION;
    let liability = 0;
    let asol_supply = 0;
    
    assert_eq!(nav_asol(tvl, liability, asol_supply), None);
}

#[test]
fn test_simulate_40_percent_price_drop() {
    // Initial state: TVL = 200 SOL, Liability = 100 SOL
    let initial_tvl = 200 * SOL_PRECISION;
    let liability = 100 * SOL_PRECISION;
    let asol_supply = 100 * SOL_PRECISION;
    
    // Initial CR = 200%
    assert_eq!(compute_cr_bps(initial_tvl, liability), 20_000);
    
    // Initial aSOL NAV = 1.0 SOL
    assert_eq!(nav_asol(initial_tvl, liability, asol_supply), Some(SOL_PRECISION));
    
    // Simulate 40% SOL price drop (TVL drops to 120 SOL)
    let crashed_tvl = 120 * SOL_PRECISION;
    
    // New CR = 120%
    assert_eq!(compute_cr_bps(crashed_tvl, liability), 12_000);
    
    // New aSOL NAV = (120 - 100) / 100 = 0.2 SOL
    // Equity absorbed the entire loss
    let new_nav = nav_asol(crashed_tvl, liability, asol_supply);
    assert_eq!(new_nav, Some(SOL_PRECISION / 5)); // 0.2 SOL
}

#[test]
fn test_simulate_60_percent_price_drop() {
    // Initial state: TVL = 200 SOL, Liability = 100 SOL
    let initial_tvl = 200 * SOL_PRECISION;
    let liability = 100 * SOL_PRECISION;
    let asol_supply = 100 * SOL_PRECISION;
    
    // Simulate 60% SOL price drop (TVL drops to 80 SOL)
    let crashed_tvl = 80 * SOL_PRECISION;
    
    // New CR = 80% (insolvent!)
    assert_eq!(compute_cr_bps(crashed_tvl, liability), 8_000);
    
    // aSOL NAV should be 0 (TVL < Liability)
    assert_eq!(nav_asol(crashed_tvl, liability, asol_supply), Some(0));
}

#[test]
fn test_apply_fee_half_percent() {
    let amount = 1_000_000;
    let fee_bps = 50; // 0.5%
    
    let (net, fee) = apply_fee(amount, fee_bps).unwrap();
    
    assert_eq!(fee, 5_000); // 0.5% of 1M
    assert_eq!(net, 995_000);
    assert_eq!(net + fee, amount); // Conservation check
}

#[test]
fn test_apply_fee_zero() {
    let amount = 1_000_000;
    let fee_bps = 0;
    
    let (net, fee) = apply_fee(amount, fee_bps).unwrap();
    
    assert_eq!(fee, 0);
    assert_eq!(net, amount);
}

#[test]
fn test_compute_liability_sol() {
    // amUSD supply = 100,000 (with USD_PRECISION = 1e6)
    // SOL price = $100 (with USD_PRECISION = 1e6)
    // Expected liability = 100,000 / 100 = 1,000 SOL = 1,000 * SOL_PRECISION lamports
    
    let amusd_supply = 100_000 * USD_PRECISION;
    let sol_price = 100 * USD_PRECISION;
    
    let liability = compute_liability_sol(amusd_supply, sol_price).unwrap();
    assert_eq!(liability, 1_000 * SOL_PRECISION);
}

#[test]
fn test_nav_amusd() {
    // SOL price = $100
    // amUSD NAV should be 1/100 = 0.01 SOL = 0.01 * SOL_PRECISION lamports
    
    let sol_price = 100 * USD_PRECISION;
    let nav = nav_amusd(sol_price).unwrap();
    
    assert_eq!(nav, SOL_PRECISION / 100);
}

#[test]
fn test_fee_bps_increase_when_low() {
    let base = 100u64;
    let target = 15_000u64;

    // At or above target, fee stays base
    assert_eq!(fee_bps_increase_when_low(base, 15_000, target), base);
    assert_eq!(fee_bps_increase_when_low(base, 20_000, target), base);

    // Below target, fee scales up: base * (target / cr)
    assert_eq!(fee_bps_increase_when_low(base, 10_000, target), 150);

    // Extreme low CR should be capped by MAX_FEE_MULTIPLIER_BPS (4x)
    assert_eq!(fee_bps_increase_when_low(base, 1_000, target), 400);
}

#[test]
fn test_fee_bps_decrease_when_low() {
    let base = 100u64;
    let target = 15_000u64;

    // At or above target, fee stays base
    assert_eq!(fee_bps_decrease_when_low(base, 15_000, target), base);
    assert_eq!(fee_bps_decrease_when_low(base, 20_000, target), base);

    // Below target, fee scales down: base * (cr / target)
    assert_eq!(fee_bps_decrease_when_low(base, 10_000, target), 66);

    // Very low CR can reduce fee to zero
    assert_eq!(fee_bps_decrease_when_low(base, 0, target), 0);
}

#[test]
fn test_compute_liability_sol_rounds_up_fractional_case() {
    // $1 / $3 => 333_333_333.333... lamports, must ceil.
    let amusd_supply = USD_PRECISION;
    let sol_price = 3 * USD_PRECISION;

    let liability = compute_liability_sol(amusd_supply, sol_price).unwrap();
    assert_eq!(liability, 333_333_334);
}

#[test]
fn test_compute_rounding_delta_units() {
    assert_eq!(compute_rounding_delta_units(100, 100), Some(0));
    assert_eq!(compute_rounding_delta_units(100, 101), Some(1));
}

#[test]
fn test_usd_dust_to_lamports_up() {
    // 1 micro-USD at $100/SOL => 10 lamports (ceil)
    let lamports = usd_dust_to_lamports_up(1, 100 * USD_PRECISION).unwrap();
    assert_eq!(lamports, 10);
}

    #[test]
fn test_dynamic_fee_curve_all_actions_green_yellow_red() {
    let base = 100u64;
    let min_cr = 13_000u64;
    let target_cr = 15_000u64;
    let mmin = 5_000u64;  // 0.5x
    let mmax = 20_000u64; // 2.0x
    let unc_idx = 0u64;
    let unc_max = 20_000u64;

    // Green (CR >= target): base fee
    assert_eq!(
        compute_dynamic_fee_bps(base, FeeAction::AmusdMint, 16_000, min_cr, target_cr, mmin, mmax, unc_idx, unc_max),
        Some(100)
    );
    assert_eq!(
        compute_dynamic_fee_bps(base, FeeAction::AsolRedeem, 16_000, min_cr, target_cr, mmin, mmax, unc_idx, unc_max),
        Some(100)
    );
    assert_eq!(
        compute_dynamic_fee_bps(base, FeeAction::AmUSDRedeem, 16_000, min_cr, target_cr, mmin, mmax, unc_idx, unc_max),
        Some(100)
    );
    assert_eq!(
        compute_dynamic_fee_bps(base, FeeAction::AsolMint, 16_000, min_cr, target_cr, mmin, mmax, unc_idx, unc_max),
        Some(100)
    );

    // Yellow midpoint CR=14_000 (halfway): 1.5x for risk-increasing, 0.75x for risk-reducing.
    assert_eq!(
        compute_dynamic_fee_bps(base, FeeAction::AmusdMint, 14_000, min_cr, target_cr, mmin, mmax, unc_idx, unc_max),
        Some(150)
    );
    assert_eq!(
        compute_dynamic_fee_bps(base, FeeAction::AsolRedeem, 14_000, min_cr, target_cr, mmin, mmax, unc_idx, unc_max),
        Some(150)
    );
    assert_eq!(
        compute_dynamic_fee_bps(base, FeeAction::AmUSDRedeem, 14_000, min_cr, target_cr, mmin, mmax, unc_idx, unc_max),
        Some(75)
    );
    assert_eq!(
        compute_dynamic_fee_bps(base, FeeAction::AsolMint, 14_000, min_cr, target_cr, mmin, mmax, unc_idx, unc_max),
        Some(75)
    );

    // Red (CR <= min): clamp to extreme multipliers.
    assert_eq!(
        compute_dynamic_fee_bps(base, FeeAction::AmusdMint, 12_000, min_cr, target_cr, mmin, mmax, unc_idx, unc_max),
        Some(200)
    );
    assert_eq!(
        compute_dynamic_fee_bps(base, FeeAction::AsolRedeem, 12_000, min_cr, target_cr, mmin, mmax, unc_idx, unc_max),
        Some(200)
    );
    assert_eq!(
        compute_dynamic_fee_bps(base, FeeAction::AmUSDRedeem, 12_000, min_cr, target_cr, mmin, mmax, unc_idx, unc_max),
        Some(50)
    );
    assert_eq!(
        compute_dynamic_fee_bps(base, FeeAction::AsolMint, 12_000, min_cr, target_cr, mmin, mmax, unc_idx, unc_max),
        Some(50)
    );
}

#[test]
fn test_uncertainty_applies_only_to_risk_increasing_actions() {
    let base = 100u64;
    let min_cr = 13_000u64;
    let target_cr = 15_000u64;
    let mmin = 10_000u64;
    let mmax = 40_000u64;

    // uncertainty_up = 10_000 + floor(500 * 10_000 / 1000) = 15_000 (1.5x)
    let unc_idx = 500u64;
    let unc_max = 20_000u64;

    assert_eq!(
        compute_dynamic_fee_bps(base, FeeAction::AmusdMint, 16_000, min_cr, target_cr, mmin, mmax, unc_idx, unc_max),
        Some(150)
    );
    assert_eq!(
        compute_dynamic_fee_bps(base, FeeAction::AsolRedeem, 16_000, min_cr, target_cr, mmin, mmax, unc_idx, unc_max),
        Some(150)
    );

    // Risk reducing should stay neutral under uncertainty.
    assert_eq!(
        compute_dynamic_fee_bps(base, FeeAction::AmUSDRedeem, 16_000, min_cr, target_cr, mmin, mmax, unc_idx, unc_max),
        Some(100)
    );
    assert_eq!(
        compute_dynamic_fee_bps(base, FeeAction::AsolMint, 16_000, min_cr, target_cr, mmin, mmax, unc_idx, unc_max),
        Some(100)
    );
}

#[test]
fn test_invalid_multiplier_bounds_fail() {
    let result = compute_dynamic_fee_bps(
        100,
        FeeAction::AmusdMint,
        14_000,
        13_000,
        15_000,
        12_000, 
        9_000,  
        0,
        20_000,
    );
    assert!(result.is_none());
}
