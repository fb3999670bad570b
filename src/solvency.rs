//! Properties of the four operations, proved over their contracts.

use vstd::prelude::*;

use crate::instructions::mint_amusd::{mint_amusd_amounts_spec, mint_amusd_spec};
use crate::instructions::initialize::initial_state;
use crate::instructions::mint_asol::mint_asol_spec;
use crate::instructions::redeem_amusd::{
    haircut_payout_spec, redeem_amusd_fee_spec, redeem_amusd_payout_spec, redeem_amusd_spec,
};
use crate::instructions::redeem_asol::redeem_asol_spec;
use crate::invariants::balance_sheet_deviation;
use crate::math::{
    accounting_equity_spec, claimable_equity_spec, cr_bps_spec, tvl_spec, BPS_PRECISION, SOL_PRECISION,
};
use crate::state::{GlobalState, OperationContext};

verus! {

/// TVL and liability are computable from the ledger and
/// `TVL == Liability + AccountingEquity + RoundingReserve` holds exactly,
/// hence within every path's rounding bound.
pub open spec fn balance_sheet_balanced(s: GlobalState) -> bool {
    match (s.tvl_view(), s.liability_view()) {
        (Some(t), Some(l)) => balance_sheet_deviation(
            t as int,
            l as int,
            accounting_equity_spec(t, l, s.rounding_reserve_lamports),
            s.rounding_reserve_lamports as int,
        ) == 0,
        _ => false,
    }
}

/// The ledger invariant: a balanced balance sheet and a reserve within its cap.
pub open spec fn ledger_invariant(s: GlobalState) -> bool {
    balance_sheet_balanced(s) && s.rounding_reserve_lamports <= s.max_rounding_reserve_lamports
}

/// One state-changing request to the operation engine.
#[derive(Clone, Copy, Debug, PartialEq, Eq, Structural)]
pub enum Operation {
    MintAmusd { lst_amount: u64, min_amusd_out: u64 },
    RedeemAmusd { amusd_amount: u64, min_lst_out: u64 },
    MintAsol { lst_amount: u64, min_asol_out: u64 },
    RedeemAsol { asol_amount: u64, min_lst_out: u64 },
}

/// The ledger after one request: the committed state, or the same state
/// when the request is refused.
pub open spec fn apply_operation(s: GlobalState, ctx: OperationContext, op: Operation) -> GlobalState {
    match op {
        Operation::MintAmusd { lst_amount, min_amusd_out } => match mint_amusd_spec(
            s,
            ctx,
            lst_amount,
            min_amusd_out,
        ) {
            Ok(c) => c.state,
            Err(_) => s,
        },
        Operation::RedeemAmusd { amusd_amount, min_lst_out } => match redeem_amusd_spec(
            s,
            ctx,
            amusd_amount,
            min_lst_out,
        ) {
            Ok(c) => c.state,
            Err(_) => s,
        },
        Operation::MintAsol { lst_amount, min_asol_out } => match mint_asol_spec(
            s,
            ctx,
            lst_amount,
            min_asol_out,
        ) {
            Ok(c) => c.state,
            Err(_) => s,
        },
        Operation::RedeemAsol { asol_amount, min_lst_out } => match redeem_asol_spec(
            s,
            ctx,
            asol_amount,
            min_lst_out,
        ) {
            Ok(c) => c.state,
            Err(_) => s,
        },
    }
}

/// The ledger after a sequence of requests, each with its call context.
pub open spec fn run_operations(s: GlobalState, steps: Seq<(OperationContext, Operation)>) -> GlobalState
    decreases steps.len(),
{
    if steps.len() == 0 {
        s
    } else {
        run_operations(apply_operation(s, steps[0].0, steps[0].1), steps.skip(1))
    }
}

/// Every committed amUSD mint leaves a balanced ledger with the reserve within its cap.
pub proof fn lemma_mint_amusd_commit_keeps_invariant(
    s: GlobalState,
    ctx: OperationContext,
    lst_amount: u64,
    min_amusd_out: u64,
)
    ensures
        match mint_amusd_spec(s, ctx, lst_amount, min_amusd_out) {
            Ok(c) => ledger_invariant(c.state),
            Err(_) => true,
        },
{
}

/// Every committed amUSD redemption leaves a balanced ledger with the reserve within its cap.
pub proof fn lemma_redeem_amusd_commit_keeps_invariant(
    s: GlobalState,
    ctx: OperationContext,
    amusd_amount: u64,
    min_lst_out: u64,
)
    ensures
        match redeem_amusd_spec(s, ctx, amusd_amount, min_lst_out) {
            Ok(c) => ledger_invariant(c.state),
            Err(_) => true,
        },
{
}

/// Every committed aSOL mint leaves a balanced ledger with the reserve within its cap.
pub proof fn lemma_mint_asol_commit_keeps_invariant(
    s: GlobalState,
    ctx: OperationContext,
    lst_amount: u64,
    min_asol_out: u64,
)
    ensures
        match mint_asol_spec(s, ctx, lst_amount, min_asol_out) {
            Ok(c) => ledger_invariant(c.state),
            Err(_) => true,
        },
{
}

/// Every committed aSOL redemption leaves a balanced ledger with the reserve within its cap.
pub proof fn lemma_redeem_asol_commit_keeps_invariant(
    s: GlobalState,
    ctx: OperationContext,
    asol_amount: u64,
    min_lst_out: u64,
)
    ensures
        match redeem_asol_spec(s, ctx, asol_amount, min_lst_out) {
            Ok(c) => ledger_invariant(c.state),
            Err(_) => true,
        },
{
}

/// A freshly initialized ledger satisfies the invariant.
pub proof fn lemma_initial_state_satisfies_invariant(
    min_cr_bps: u64,
    target_cr_bps: u64,
    mock_sol_price_usd: u64,
    mock_lst_to_sol_rate: u64,
    current_slot: u64,
)
    ensures
        ledger_invariant(
            initial_state(
                min_cr_bps,
                target_cr_bps,
                mock_sol_price_usd,
                mock_lst_to_sol_rate,
                current_slot,
            ),
        ),
{
}

/// Balance-sheet conservation and reserve boundedness: from a ledger that
/// satisfies the invariant, every sequence of mint and redeem requests,
/// committed or refused, leaves a ledger that satisfies it.
pub proof fn lemma_operation_sequences_keep_invariant(
    s: GlobalState,
    steps: Seq<(OperationContext, Operation)>,
)
    requires
        ledger_invariant(s),
    ensures
        ledger_invariant(run_operations(s, steps)),
    decreases steps.len(),
{
    if steps.len() > 0 {
        let (ctx, op) = steps[0];
        match op {
            Operation::MintAmusd { lst_amount, min_amusd_out } => {
                lemma_mint_amusd_commit_keeps_invariant(s, ctx, lst_amount, min_amusd_out);
            },
            Operation::RedeemAmusd { amusd_amount, min_lst_out } => {
                lemma_redeem_amusd_commit_keeps_invariant(s, ctx, amusd_amount, min_lst_out);
            },
            Operation::MintAsol { lst_amount, min_asol_out } => {
                lemma_mint_asol_commit_keeps_invariant(s, ctx, lst_amount, min_asol_out);
            },
            Operation::RedeemAsol { asol_amount, min_lst_out } => {
                lemma_redeem_asol_commit_keeps_invariant(s, ctx, asol_amount, min_lst_out);
            },
        }
        lemma_operation_sequences_keep_invariant(apply_operation(s, ctx, op), steps.skip(1));
    }
}

/// Redeeming aSOL never changes the liability.
pub proof fn lemma_redeem_asol_keeps_liability(
    s: GlobalState,
    ctx: OperationContext,
    asol_amount: u64,
    min_lst_out: u64,
)
    ensures
        match redeem_asol_spec(s, ctx, asol_amount, min_lst_out) {
            Ok(c) => c.state.liability_view() == s.liability_view(),
            Err(_) => true,
        },
{
}

/// Bootstrap: the first aSOL mint prices aSOL at NAV 1:1, so the aSOL
/// minted (to the caller and as fee) equals the lamport value of the deposit.
pub proof fn lemma_bootstrap_mint_is_one_to_one(
    s: GlobalState,
    ctx: OperationContext,
    lst_amount: u64,
    min_asol_out: u64,
)
    requires
        s.asol_supply == 0,
    ensures
        match mint_asol_spec(s, ctx, lst_amount, min_asol_out) {
            Ok(c) => c.event.nav == SOL_PRECISION && tvl_spec(lst_amount, s.mock_lst_to_sol_rate)
                == Some((c.event.asol_minted + c.event.fee) as u64) && c.state.asol_supply
                == c.event.asol_minted + c.event.fee,
            Err(_) => true,
        },
{
}


proof fn lemma_floor_le(num: int, den: int, y: int)
    requires
        0 <= num <= y * den,
        den > 0,
    ensures
        num / den <= y,
{
    assert(num / den <= y) by (nonlinear_arith)
        requires
            0 <= num <= y * den,
            den > 0,
    ;
}

proof fn lemma_ceil_le(num: int, den: int, y: int)
    requires
        0 <= num <= y * den,
        den > 0,
    ensures
        (num + den - 1) / den <= y,
{
    assert((num + den - 1) / den <= y) by (nonlinear_arith)
        requires
            0 <= num <= y * den,
            den > 0,
    ;
}

proof fn lemma_floor_times_den(x: int, den: int)
    requires
        x >= 0,
        den > 0,
    ensures
        (x / den) * den <= x,
        x < (x / den + 1) * den,
        x / den >= 0,
{
    assert((x / den) * den <= x && x < (x / den + 1) * den && x / den >= 0) by (nonlinear_arith)
        requires
            x >= 0,
            den > 0,
    ;
}

proof fn lemma_mul_le(x: int, y: int, m: int)
    requires
        0 <= x <= y,
        m >= 0,
    ensures
        0 <= x * m <= y * m,
{
    assert(0 <= x * m <= y * m) by (nonlinear_arith)
        requires
            0 <= x <= y,
            m >= 0,
    ;
}

/// The lamport value paid for `net_in` amUSD below 100% CR: the par value,
/// rounded down, times `cr / 10_000`, rounded down.
pub open spec fn haircut_value(s: GlobalState, cr: u64, net_in: u64) -> int {
    (net_in * SOL_PRECISION / (s.mock_sol_price_usd as int)) * cr / (BPS_PRECISION as int)
}

proof fn lemma_haircut_value_bounds(n: int, k: int, price: int, cr: int)
    requires
        n >= 0,
        k > 0,
        price > 0,
        0 <= cr < BPS_PRECISION,
    ensures
        ({
            let v = (n * k / price) * cr / (BPS_PRECISION as int);
            &&& v * price * BPS_PRECISION <= n * k * cr
            &&& n * k * cr < (v + 2) * price * BPS_PRECISION
        }),
{
    let b = BPS_PRECISION as int;
    let p = n * k / price;
    assert(n * k >= 0) by (nonlinear_arith)
        requires
            n >= 0,
            k > 0,
    ;
    lemma_floor_times_den(n * k, price);
    assert(p * cr >= 0) by (nonlinear_arith)
        requires
            p >= 0,
            cr >= 0,
    ;
    lemma_floor_times_den(p * cr, b);
    let v = p * cr / b;
    assert(v * price * b <= n * k * cr) by (nonlinear_arith)
        requires
            v * b <= p * cr,
            p * price <= n * k,
            price > 0,
            cr >= 0,
            v >= 0,
    ;
    assert(n * k * cr < (v + 2) * price * b) by (nonlinear_arith)
        requires
            p * cr < (v + 1) * b,
            n * k < (p + 1) * price,
            price > 0,
            0 <= cr < b,
            v >= 0,
            p >= 0,
    ;
}

/// Insolvency haircut: when CR is below 100%, a redemption charges no fee,
/// burns the whole input, and pays the par value times CR: a lamport value
/// `v` with `v <= par * cr / 10_000 < v + 2`, converted to LST rounding down.
pub proof fn lemma_insolvent_redemption_pays_par_times_cr(
    s: GlobalState,
    ctx: OperationContext,
    amusd_amount: u64,
    min_lst_out: u64,
)
    ensures
        match redeem_amusd_spec(s, ctx, amusd_amount, min_lst_out) {
            Ok(c) => c.event.old_cr_bps < BPS_PRECISION ==> {
                let v = haircut_value(s, c.event.old_cr_bps, amusd_amount);
                &&& c.event.fee == 0
                &&& c.event.amusd_burned == amusd_amount
                &&& Some(c.settlement.collateral_out) == haircut_payout_spec(
                    s,
                    c.event.old_cr_bps,
                    amusd_amount,
                )
                &&& c.settlement.collateral_out == v * SOL_PRECISION / (
                s.mock_lst_to_sol_rate as int)
                &&& v * s.mock_sol_price_usd * BPS_PRECISION <= amusd_amount * SOL_PRECISION
                    * c.event.old_cr_bps
                &&& amusd_amount * SOL_PRECISION * c.event.old_cr_bps < (v + 2)
                    * s.mock_sol_price_usd * BPS_PRECISION
            },
            Err(_) => true,
        },
{
    match redeem_amusd_spec(s, ctx, amusd_amount, min_lst_out) {
        Ok(c) => {
            if c.event.old_cr_bps < BPS_PRECISION {
                lemma_haircut_value_bounds(
                    amusd_amount as int,
                    SOL_PRECISION as int,
                    s.mock_sol_price_usd as int,
                    c.event.old_cr_bps as int,
                );
            }
        },
        Err(_) => {},
    }
}

/// Round-trip dust: minting amUSD with `lst_amount` LST and then redeeming
/// all the amUSD received, at the same price and rate, never pays out more
/// LST than was deposited, and leaves the reserve within its cap.
pub proof fn lemma_mint_then_redeem_creates_no_value(
    s: GlobalState,
    mint_ctx: OperationContext,
    redeem_ctx: OperationContext,
    lst_amount: u64,
    min_amusd_out: u64,
    min_lst_out: u64,
)
    ensures
        match mint_amusd_spec(s, mint_ctx, lst_amount, min_amusd_out) {
            Ok(c1) => match redeem_amusd_spec(
                c1.state,
                redeem_ctx,
                c1.event.amusd_minted,
                min_lst_out,
            ) {
                Ok(c2) => c2.settlement.collateral_out <= lst_amount
                    && c2.state.rounding_reserve_lamports
                    <= c2.state.max_rounding_reserve_lamports,
                Err(_) => true,
            },
            Err(_) => true,
        },
{
    match mint_amusd_spec(s, mint_ctx, lst_amount, min_amusd_out) {
        Ok(c1) => {
            let s1 = c1.state;
            let n = c1.event.amusd_minted;
            match redeem_amusd_spec(s1, redeem_ctx, n, min_lst_out) {
                Ok(c2) => {
                    let k = SOL_PRECISION as int;
                    let rate = s.mock_lst_to_sol_rate as int;
                    let price = s.mock_sol_price_usd as int;
                    let (sv, gross, credit) = mint_amusd_amounts_spec(s, lst_amount).unwrap();
                    assert(n <= gross);
                    let old_cr = c2.event.old_cr_bps;
                    let (net_in, fee) = redeem_amusd_fee_spec(s1, old_cr, n).unwrap();
                    assert(net_in == c2.event.amusd_burned);
                    assert(net_in <= n);
                    // sv = floor(lst_amount * rate / k), gross = floor(sv * price / k)
                    assert(lst_amount * rate >= 0) by (nonlinear_arith)
                        requires
                            rate > 0,
                    ;
                    lemma_floor_times_den(lst_amount * rate, k);
                    assert(sv * price >= 0) by (nonlinear_arith)
                        requires
                            price > 0,
                    ;
                    lemma_floor_times_den(sv * price, k);
                    lemma_mul_le(net_in as int, gross as int, k);
                    assert(gross * k == k * gross) by (nonlinear_arith);
                    assert(net_in * k == k * net_in) by (nonlinear_arith);
                    // par values of the burned amount are at most sv
                    lemma_floor_le(net_in * k, price, sv as int);
                    lemma_ceil_le(net_in * k, price, sv as int);
                    let par_down = net_in * k / price;
                    let sol_up = (net_in * k + price - 1) / price;
                    // any lamport value up to sv converts to at most lst_amount LST
                    lemma_mul_le(par_down, sv as int, k);
                    lemma_mul_le(sol_up, sv as int, k);
                    assert(sv * k == k * sv) by (nonlinear_arith);
                    lemma_floor_le(par_down * k, rate, lst_amount as int);
                    lemma_ceil_le(sol_up * k, rate, lst_amount as int);
                    if old_cr < BPS_PRECISION {
                        assert(par_down * old_cr >= 0) by (nonlinear_arith)
                            requires
                                par_down >= 0,
                        ;
                        lemma_floor_times_den(par_down * old_cr, BPS_PRECISION as int);
                        let h = par_down * old_cr / (BPS_PRECISION as int);
                        assert(h <= par_down) by (nonlinear_arith)
                            requires
                                h * BPS_PRECISION <= par_down * old_cr,
                                old_cr < BPS_PRECISION,
                                par_down >= 0,
                                h >= 0,
                        ;
                        lemma_mul_le(h, par_down, k);
                        lemma_floor_le(h * k, rate, lst_amount as int);
                    }
                },
                Err(_) => {},
            }
        },
        Err(_) => {},
    }
}


proof fn lemma_floor_ratio_monotone(x: int, c: int, y: int, d: int)
    requires
        x >= 0,
        y >= 0,
        c > 0,
        d > 0,
        x * d >= y * c,
    ensures
        x / c >= y / d,
{
    lemma_floor_times_den(y, d);
    let q = y / d;
    assert(q * c <= x) by (nonlinear_arith)
        requires
            q * d <= y,
            x * d >= y * c,
            c > 0,
            d > 0,
            q >= 0,
    ;
    assert(x / c >= q) by (nonlinear_arith)
        requires
            q * c <= x,
            c > 0,
            q >= 0,
    ;
}

proof fn lemma_ceil_plus_floor(a: int, b: int, den: int)
    requires
        a >= 0,
        b >= 0,
        den > 0,
    ensures
        (a + den - 1) / den + b / den <= (a + b + den - 1) / den,
{
    assert((a + den - 1) / den + b / den <= (a + b + den - 1) / den) by (nonlinear_arith)
        requires
            a >= 0,
            b >= 0,
            den > 0,
    ;
}

proof fn lemma_floor_drop_le_ceil(a: int, b: int, den: int)
    requires
        0 <= b <= a,
        den > 0,
    ensures
        a / den - (a - b) / den <= (b + den - 1) / den,
        (a - b) / den <= a / den,
{
    assert(a / den - (a - b) / den <= (b + den - 1) / den && (a - b) / den <= a / den)
        by (nonlinear_arith)
        requires
            0 <= b <= a,
            den > 0,
    ;
}

/// Core inequality: removing `dt` of TVL and at least `p` of liability,
/// with `dt * l <= p * t`, never lowers `t / l`.
proof fn lemma_cr_not_lowered(t: int, l: int, t2: int, l2: int, dt: int, p: int)
    requires
        t >= 0,
        l > 0,
        l2 > 0,
        t2 >= t - dt,
        t2 >= 0,
        l2 + p <= l,
        p >= 0,
        dt * l <= p * t,
    ensures
        t2 * BPS_PRECISION / l2 >= t * BPS_PRECISION / l,
{
    assert(t2 * l >= t * l2) by (nonlinear_arith)
        requires
            t >= 0,
            l > 0,
            t2 >= t - dt,
            l2 + p <= l,
            dt * l <= p * t,
    ;
    assert((t2 * BPS_PRECISION) * l >= (t * BPS_PRECISION) * l2) by (nonlinear_arith)
        requires
            t2 * l >= t * l2,
    ;
    lemma_floor_ratio_monotone(t2 * BPS_PRECISION, l2, t * BPS_PRECISION, l);
}

/// CR under stable-token redemption: an amUSD redemption that takes no
/// reserve-funded rounding uplift (every redemption below 100% CR, and any
/// solvent one whose uplift the reserve does not cover) never lowers CR.
pub proof fn lemma_unsubsidized_stable_redemption_keeps_cr(
    s: GlobalState,
    ctx: OperationContext,
    amusd_amount: u64,
    min_lst_out: u64,
)
    ensures
        match redeem_amusd_spec(s, ctx, amusd_amount, min_lst_out) {
            Ok(c) => c.state.rounding_reserve_lamports == s.rounding_reserve_lamports
                ==> c.event.new_cr_bps >= c.event.old_cr_bps,
            Err(_) => true,
        },
{
    match redeem_amusd_spec(s, ctx, amusd_amount, min_lst_out) {
        Ok(c) => {
            if c.state.rounding_reserve_lamports == s.rounding_reserve_lamports
                && c.state.amusd_supply > 0 {
                let k = SOL_PRECISION as int;
                let b = BPS_PRECISION as int;
                let price = s.mock_sol_price_usd as int;
                let rate = s.mock_lst_to_sol_rate as int;
                let t = s.tvl_view().unwrap() as int;
                let l = s.liability_view().unwrap() as int;
                let old_cr = c.event.old_cr_bps;
                let n = c.event.amusd_burned as int;
                let out = c.settlement.collateral_out as int;
                let lst = s.total_lst_amount as int;
                let supply = s.amusd_supply as int;
                let t2 = c.event.new_tvl as int;
                let l2 = c.state.liability_view().unwrap() as int;
                let p = n * k / price;
                assert(old_cr == cr_bps_spec(t as u64, l as u64));
                assert(n > 0);
                assert(t == lst * rate / k);
                assert(t2 == (lst - out) * rate / k);
                assert(l == (supply * k + price - 1) / price);
                assert(l2 == ((supply - n) * k + price - 1) / price);
                // liability falls by at least the rounded-down par value
                assert(n * k >= 0 && (supply - n) * k >= 0) by (nonlinear_arith)
                    requires
                        n >= 0,
                        supply - n >= 0,
                        k > 0,
                ;
                assert((supply - n) * k + n * k == supply * k) by (nonlinear_arith);
                lemma_ceil_plus_floor((supply - n) * k, n * k, price);
                assert(l2 >= 1) by (nonlinear_arith)
                    requires
                        l2 == ((supply - n) * k + price - 1) / price,
                        supply - n >= 1,
                        k > 0,
                        price > 0,
                ;
                // TVL falls by at most the rounded-up lamport value of the payout
                assert(out * rate >= 0 && lst * rate >= out * rate) by (nonlinear_arith)
                    requires
                        0 <= out <= lst,
                        rate > 0,
                ;
                assert((lst - out) * rate == lst * rate - out * rate) by (nonlinear_arith);
                lemma_floor_drop_le_ceil(lst * rate, out * rate, k);
                let dt = t - t2;
                lemma_floor_times_den(n * k, price);
                if old_cr < BPS_PRECISION {
                    // haircut payout: out = floor(h * k / rate), h = floor(p * cr / b)
                    assert(p * old_cr >= 0) by (nonlinear_arith)
                        requires
                            p >= 0,
                            old_cr >= 0,
                    ;
                    lemma_floor_times_den(p * old_cr, b);
                    let h = p * old_cr / b;
                    assert(h * k >= 0) by (nonlinear_arith)
                        requires
                            h >= 0,
                            k > 0,
                    ;
                    lemma_floor_times_den(h * k, rate);
                    assert(out == h * k / rate);
                    assert(out * rate <= h * k) by (nonlinear_arith)
                        requires
                            out == h * k / rate,
                            (h * k / rate) * rate <= h * k,
                    ;
                    lemma_ceil_le(out * rate, k, h);
                    assert(l > 0);
                    lemma_floor_times_den(t * b, l);
                    assert(old_cr * l <= t * b);
                    assert(h * b * l <= p * old_cr * l) by (nonlinear_arith)
                        requires
                            h * b <= p * old_cr,
                            l > 0,
                    ;
                    assert(p * old_cr * l <= p * t * b) by (nonlinear_arith)
                        requires
                            old_cr * l <= t * b,
                            p >= 0,
                    ;
                    assert(h * l <= p * t) by (nonlinear_arith)
                        requires
                            h * b * l <= p * t * b,
                            b > 0,
                    ;
                    assert(dt * l <= p * t) by (nonlinear_arith)
                        requires
                            dt <= h,
                            h * l <= p * t,
                            l > 0,
                    ;
                    lemma_cr_not_lowered(t, l, t2, l2, dt, p);
                } else {
                    // conservative payout: out = floor(p * k / rate)
                    let (lst_out, debit, kl) = redeem_amusd_payout_spec(s, old_cr, n as u64).unwrap();
                    assert(p * k >= 0) by (nonlinear_arith)
                        requires
                            p >= 0,
                            k > 0,
                    ;
                    lemma_floor_times_den(p * k, rate);
                    let lpd = p * k / rate;
                    if out != lpd {
                        let su = (n * k + price - 1) / price;
                        let lu = (su * k + rate - 1) / rate;
                        assert(out == lu);
                        let delta = lu - lpd;
                        assert(delta >= 1);
                        assert((delta * rate + k - 1) / k >= 1) by (nonlinear_arith)
                            requires
                                delta >= 1,
                                rate >= 1,
                                k > 0,
                        ;
                        assert(debit >= 1);
                    }
                    assert(out == p * k / rate);
                    assert(out * rate <= p * k) by (nonlinear_arith)
                        requires
                            out == p * k / rate,
                            (p * k / rate) * rate <= p * k,
                    ;
                    lemma_ceil_le(out * rate, k, p);
                    assert(t * b / l >= b);
                    assert(t >= l) by (nonlinear_arith)
                        requires
                            t * b / l >= b,
                            l > 0,
                            b > 0,
                            t >= 0,
                    ;
                    assert(dt * l <= p * t) by (nonlinear_arith)
                        requires
                            dt <= p,
                            t >= l,
                            l > 0,
                            p >= 0,
                    ;
                    lemma_cr_not_lowered(t, l, t2, l2, dt, p);
                }
            }
        },
        Err(_) => {},
    }
}


/// Worthless equity is frozen: with aSOL outstanding and no claimable
/// equity (`TVL <= Liability + RoundingReserve`), NAV is zero and every aSOL
/// mint and every aSOL redemption is refused.
pub proof fn lemma_zero_nav_freezes_equity(
    s: GlobalState,
    ctx: OperationContext,
    amount: u64,
    min_out: u64,
)
    requires
        s.asol_supply > 0,
        s.tvl_view() is Some,
        s.liability_view() is Some,
        claimable_equity_spec(
            s.tvl_view().unwrap(),
            s.liability_view().unwrap(),
            s.rounding_reserve_lamports,
        ) == 0,
    ensures
        mint_asol_spec(s, ctx, amount, min_out) is Err,
        redeem_asol_spec(s, ctx, amount, min_out) is Err,
{
}

} // verus!
