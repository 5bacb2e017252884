//! Pre-flight validation of a swap: evaluates every guard that a swap applies
//! and reports each one in a `SwapChecklist`, without changing anything.
//!
//! The guards that live in other parts of the contract (pair validity, the
//! circuit breaker, KYC, the rate limiter, the concentration and position
//! limits, and the oracle store) are taken as their outcomes; the arithmetic is done here: oracle freshness, pool depth,
//! and the slippage estimate of the constant-product pool with its 0.3% fee.
use vstd::prelude::*;
use crate::errors::SwapChecklist;

verus! {

/// Oldest oracle price, in seconds, that still counts as fresh.
pub const ORACLE_STALE_THRESHOLD_SECS: u64 = 600;

/// Pool fee assumed by the slippage estimate, in basis points.
pub const PREFLIGHT_FEE_BPS: u128 = 30;

/// Slippage limit used until an admin sets one, in basis points.
pub const DEFAULT_MAX_SLIPPAGE_BPS: u32 = 10_000;

/// A stored oracle price.
#[derive(Clone, Copy, Debug, PartialEq, Eq, Structural)]
pub struct OraclePrice {
    /// The price.
    pub price: u128,
    /// Time at which the price was stored.
    pub timestamp: u64,
}

/// Everything a pre-flight check reads besides the amount.
#[derive(Clone, Copy, Debug, PartialEq, Eq)]
pub struct PreflightInputs {
    /// The pair passed the pair validation.
    pub pair_valid: bool,
    /// The circuit breaker is active.
    pub circuit_breaker_active: bool,
    /// The user is KYC-verified.
    pub kyc_verified: bool,
    /// The user's balance of the input token.
    pub balance: i128,
    /// The swap rate limit allows another swap.
    pub rate_limit_ok: bool,
    /// The user's concentration limit would be exceeded.
    pub concentration_exceeded: bool,
    /// The position limit allows the bought amount.
    pub position_limit_ok: bool,
    /// The stored price of `(from, to)`, if any.
    pub direct_price: Option<OraclePrice>,
    /// The stored price of `(to, from)`, if any.
    pub inverse_price: Option<OraclePrice>,
    /// The current time.
    pub now: u64,
    /// The input token is XLM (otherwise USDCSIM is the input side).
    pub from_is_xlm: bool,
    /// The pool's XLM reserve.
    pub xlm_liquidity: i128,
    /// The pool's USDCSIM reserve.
    pub usdc_liquidity: i128,
}

/// Whether an oracle price is fresh at `now`: at most 600 s old and positive.
pub open spec fn price_fresh(p: OraclePrice, now: u64) -> bool {
    (if now >= p.timestamp { now - p.timestamp } else { 0 }) <= ORACLE_STALE_THRESHOLD_SECS
        && p.price > 0
}

/// The oracle guard: the stored price for the pair (direct, else inverse)
/// must be fresh; only when no price is stored for either direction does the
/// 1:1 fallback apply, to any positive amount.
pub open spec fn oracle_ok_spec(i: PreflightInputs, amount: i128) -> bool {
    match i.direct_price {
        Some(p) => price_fresh(p, i.now),
        None => match i.inverse_price {
            Some(p) => price_fresh(p, i.now),
            None => amount > 0,
        },
    }
}

/// Every field of the checklist is green.
pub open spec fn all_green(c: SwapChecklist) -> bool {
    &&& c.balance_ok
    &&& c.kyc_ok
    &&& c.rate_limit_ok
    &&& c.slippage_ok
    &&& c.oracle_fresh_ok
    &&& c.pool_depth_ok
    &&& c.circuit_breaker_ok
    &&& c.trading_paused_ok
    &&& c.pair_ok
    &&& c.risk_limits_ok
}

/// The input-side reserve, as the estimate reads it in `u128`.
pub open spec fn reserve_in(i: PreflightInputs) -> u128 {
    if i.from_is_xlm { i.xlm_liquidity as u128 } else { i.usdc_liquidity as u128 }
}

/// The output-side reserve, as the estimate reads it in `u128`.
pub open spec fn reserve_out(i: PreflightInputs) -> u128 {
    if i.from_is_xlm { i.usdc_liquidity as u128 } else { i.xlm_liquidity as u128 }
}

/// Constant-product output for input `x` against reserves `rin`, `rout`.
pub open spec fn cp_out(rin: int, rout: int, x: int) -> int {
    (rout * x) / (rin + x)
}

/// The amount left after the 0.3% fee.
pub open spec fn after_fee(amount_u: int) -> int {
    (amount_u * 9970) / 10_000
}

/// The slippage limit in force: the stored one, else the default.
pub open spec fn max_slip(stored: Option<u32>) -> u32 {
    match stored {
        Some(m) => m,
        None => DEFAULT_MAX_SLIPPAGE_BPS,
    }
}

/// The slippage guard: with both reserves positive, the estimated slippage in
/// basis points — the output lost to the fee relative to the fee-free output —
/// is within the limit; with an empty side it does not apply.
pub open spec fn slippage_ok_spec(i: PreflightInputs, amount: i128, stored_max: Option<u32>) -> bool {
    let rin = reserve_in(i) as int;
    let rout = reserve_out(i) as int;
    if rin > 0 && rout > 0 {
        let a = (amount as u128) as int;
        let actual = cp_out(rin, rout, after_fee(a));
        let theoretical = cp_out(rin, rout, a);
        theoretical > 0 ==> ((theoretical - actual) * 10_000) / theoretical <= max_slip(stored_max)
    } else {
        true
    }
}

/// The slippage estimate fits in `u128` at every step.
pub open spec fn estimate_fits(i: PreflightInputs, amount: i128) -> bool {
    let rin = reserve_in(i) as int;
    let rout = reserve_out(i) as int;
    let a = (amount as u128) as int;
    rin > 0 && rout > 0 ==> {
        &&& a * 9970 <= u128::MAX
        &&& rout * after_fee(a) <= u128::MAX
        &&& rin + after_fee(a) <= u128::MAX
        &&& rout * a <= u128::MAX
        &&& rin + a <= u128::MAX
        &&& (cp_out(rin, rout, a) - cp_out(rin, rout, after_fee(a))) * 10_000 <= u128::MAX
    }
}

/// The checklist a pre-flight check gives: nothing passes for an invalid
/// pair; only the pair passes while trading is paused; otherwise every guard
/// is reported on its own.
pub open spec fn checklist_spec(
    i: PreflightInputs,
    amount: i128,
    paused: bool,
    stored_max: Option<u32>,
) -> SwapChecklist {
    let none = SwapChecklist {
        balance_ok: false,
        kyc_ok: false,
        rate_limit_ok: false,
        slippage_ok: false,
        oracle_fresh_ok: false,
        pool_depth_ok: false,
        circuit_breaker_ok: false,
        trading_paused_ok: false,
        pair_ok: false,
        risk_limits_ok: false,
    };
    if !i.pair_valid {
        none
    } else if paused {
        SwapChecklist { pair_ok: true, ..none }
    } else {
        SwapChecklist {
            balance_ok: i.balance >= amount,
            kyc_ok: i.kyc_verified,
            rate_limit_ok: i.rate_limit_ok,
            slippage_ok: slippage_ok_spec(i, amount, stored_max),
            oracle_fresh_ok: oracle_ok_spec(i, amount),
            pool_depth_ok: if i.from_is_xlm { i.usdc_liquidity >= amount } else { i.xlm_liquidity >= amount },
            circuit_breaker_ok: !i.circuit_breaker_active,
            trading_paused_ok: true,
            pair_ok: true,
            risk_limits_ok: !i.concentration_exceeded && i.position_limit_ok,
        }
    }
}

proof fn lemma_div_cross(a: int, b: int, c: int, d: int)
    requires
        a >= 0,
        c >= 0,
        b > 0,
        d > 0,
        a * d <= c * b,
    ensures
        a / b <= c / d,
{
    let q = a / b;
    assert(q * b <= a) by (nonlinear_arith)
        requires
            q == a / b,
            b > 0,
            a >= 0,
    ;
    assert(q * b * d <= c * b) by (nonlinear_arith)
        requires
            q * b <= a,
            d > 0,
            a * d <= c * b,
    ;
    assert(q * d <= c) by (nonlinear_arith)
        requires
            q * b * d <= c * b,
            b > 0,
    ;
    assert(q <= c / d) by (nonlinear_arith)
        requires
            q * d <= c,
            d > 0,
            c >= 0,
    ;
}

/// A smaller input never yields a larger constant-product output.
pub proof fn lemma_cp_out_monotone(rin: int, rout: int, x: int, y: int)
    requires
        rin > 0,
        rout >= 0,
        0 <= x <= y,
    ensures
        0 <= cp_out(rin, rout, x) <= cp_out(rin, rout, y),
{
    assert(rout * x * (rin + y) <= rout * y * (rin + x)) by (nonlinear_arith)
        requires
            rin > 0,
            rout >= 0,
            0 <= x <= y,
    ;
    assert(rout * x >= 0 && rout * y >= 0) by (nonlinear_arith)
        requires
            rout >= 0,
            x >= 0,
            y >= 0,
    ;
    lemma_div_cross(rout * x, rin + x, rout * y, rin + y);
    assert(cp_out(rin, rout, x) >= 0) by (nonlinear_arith)
        requires
            rout * x >= 0,
            rin + x > 0,
            cp_out(rin, rout, x) == (rout * x) / (rin + x),
    ;
}

fn oracle_fresh(p: &OraclePrice, now: u64) -> (r: bool)
    ensures
        r == price_fresh(*p, now),
{
    let age = now.saturating_sub(p.timestamp);
    age <= ORACLE_STALE_THRESHOLD_SECS && p.price > 0
}

/// Evaluates every swap guard for swapping `amount` with `inputs` while
/// trading is `paused` or not and `stored_max_slippage_bps` is the stored
/// slippage limit, reporting each in the checklist without changing anything.
pub fn preflight_swap(
    inputs: &PreflightInputs,
    amount: i128,
    paused: bool,
    stored_max_slippage_bps: Option<u32>,
) -> (r: SwapChecklist)
    requires
        inputs.pair_valid && !paused ==> estimate_fits(*inputs, amount),
    ensures
        r == checklist_spec(*inputs, amount, paused, stored_max_slippage_bps),
{
    let mut checklist = SwapChecklist {
        balance_ok: false,
        kyc_ok: false,
        rate_limit_ok: false,
        slippage_ok: false,
        oracle_fresh_ok: false,
        pool_depth_ok: false,
        circuit_breaker_ok: false,
        trading_paused_ok: false,
        pair_ok: false,
        risk_limits_ok: false,
    };
    checklist.pair_ok = inputs.pair_valid;
    if !checklist.pair_ok {
        return checklist;
    }
    checklist.trading_paused_ok = !paused;
    if !checklist.trading_paused_ok {
        return checklist;
    }
    checklist.circuit_breaker_ok = !inputs.circuit_breaker_active;
    checklist.kyc_ok = inputs.kyc_verified;
    checklist.balance_ok = inputs.balance >= amount;
    checklist.rate_limit_ok = inputs.rate_limit_ok;
    checklist.risk_limits_ok = !inputs.concentration_exceeded && inputs.position_limit_ok;
    checklist.oracle_fresh_ok = match &inputs.direct_price {
        Some(p) => oracle_fresh(p, inputs.now),
        None => match &inputs.inverse_price {
            Some(p) => oracle_fresh(p, inputs.now),
            None => amount > 0,
        },
    };
    let xlm_liq = inputs.xlm_liquidity;
    let usdc_liq = inputs.usdc_liquidity;
    checklist.pool_depth_ok = if inputs.from_is_xlm {
        usdc_liq >= amount
    } else {
        xlm_liq >= amount
    };
    let (rin, rout): (u128, u128) = if inputs.from_is_xlm {
        (xlm_liq as u128, usdc_liq as u128)
    } else {
        (usdc_liq as u128, xlm_liq as u128)
    };
    if rin > 0 && rout > 0 {
        let amount_u = amount as u128;
        let amount_after_fee = amount_u * (10_000 - PREFLIGHT_FEE_BPS) / 10_000;
        let actual_out = (rout * amount_after_fee) / (rin + amount_after_fee);
        let theoretical_out = (rout * amount_u) / (rin + amount_u);
        let max_slip: u32 = match stored_max_slippage_bps {
            Some(m) => m,
            None => DEFAULT_MAX_SLIPPAGE_BPS,
        };
        proof {
            assert(amount_after_fee <= amount_u) by (nonlinear_arith)
                requires
                    amount_after_fee == amount_u * 9970 / 10_000,
                    amount_u >= 0,
            ;
            lemma_cp_out_monotone(rin as int, rout as int, amount_after_fee as int, amount_u as int);
        }
        let slippage_ok = if theoretical_out > 0 {
            let slippage_bps = ((theoretical_out - actual_out) * 10_000) / theoretical_out;
            slippage_bps <= max_slip as u128
        } else {
            true
        };
        checklist.slippage_ok = slippage_ok;
    } else {
        checklist.slippage_ok = true;
    }
    checklist
}

/// The constant-product estimate never pays out the whole output reserve,
/// the fee-charged output never exceeds the fee-free one, and the pool's
/// product of reserves does not shrink when the input is added and the
/// output removed.
pub proof fn law_estimate_bounded(rin: int, rout: int, x: int)
    requires
        rin > 0,
        rout > 0,
        x >= 0,
    ensures
        0 <= cp_out(rin, rout, after_fee(x)) <= cp_out(rin, rout, x) < rout,
        (rin + x) * (rout - cp_out(rin, rout, x)) >= rin * rout,
{
    assert(0 <= after_fee(x) <= x) by (nonlinear_arith)
        requires
            x >= 0,
            after_fee(x) == (x * 9970) / 10_000,
    ;
    lemma_cp_out_monotone(rin, rout, after_fee(x), x);
    let o = cp_out(rin, rout, x);
    assert(o * (rin + x) <= rout * x) by (nonlinear_arith)
        requires
            o == (rout * x) / (rin + x),
            rin + x > 0,
            rout * x >= 0,
    ;
    assert(rout * x < rout * (rin + x)) by (nonlinear_arith)
        requires
            rin > 0,
            rout > 0,
            x >= 0,
    ;
    assert(o < rout) by (nonlinear_arith)
        requires
            o * (rin + x) <= rout * x,
            rout * x < rout * (rin + x),
            rin + x > 0,
    ;
    assert((rin + x) * (rout - o) >= rin * rout) by (nonlinear_arith)
        requires
            o * (rin + x) <= rout * x,
    ;
}

/// The slippage estimate runs the swap through the pool in its direction:
/// swapping from XLM, the input `a` (the amount read as `u128`) enters the
/// XLM reserve and comes out of the USDCSIM reserve, and the reverse from
/// USDCSIM. With both reserves positive, `slippage_ok` holds exactly when the
/// output lost to the 0.3% fee, in basis points of the fee-free output, is
/// within the limit in force (the stored one, else 10 000); with an empty
/// reserve it holds.
pub proof fn law_slippage_estimated_in_swap_direction(
    i: PreflightInputs,
    amount: i128,
    stored_max_slippage_bps: Option<u32>,
)
    requires
        i.pair_valid,
    ensures
        ({
            let c = checklist_spec(i, amount, false, stored_max_slippage_bps);
            let a = (amount as u128) as int;
            let f = (a * 9970) / 10_000;
            let limit: int = match stored_max_slippage_bps {
                Some(m) => m as int,
                None => 10_000,
            };
            let x = i.xlm_liquidity as int;
            let u = i.usdc_liquidity as int;
            &&& x > 0 && u > 0 && i.from_is_xlm ==> c.slippage_ok == ({
                let theoretical = (u * a) / (x + a);
                let actual = (u * f) / (x + f);
                theoretical > 0 ==> ((theoretical - actual) * 10_000) / theoretical <= limit
            })
            &&& x > 0 && u > 0 && !i.from_is_xlm ==> c.slippage_ok == ({
                let theoretical = (x * a) / (u + a);
                let actual = (x * f) / (u + f);
                theoretical > 0 ==> ((theoretical - actual) * 10_000) / theoretical <= limit
            })
            &&& (x == 0 || u == 0) ==> c.slippage_ok
        }),
{
}

/// What each pre-flight check reports. The pair check reports the pair's
/// validity, and an invalid pair fails every other check. A valid pair while
/// trading is paused reports only the pair. Otherwise:
/// - the balance check passes when the balance covers the amount;
/// - the KYC, rate-limit, circuit-breaker and risk checks report those
///   guards;
/// - the depth check passes when the output reserve (USDCSIM from XLM, XLM
///   from USDCSIM) covers the amount;
/// - the oracle check uses the stored direct price, else the stored inverse
///   one, which must be positive and at most 600 s old; only with no stored
///   price does it pass, for a positive amount.
pub proof fn law_preflight_reports_each_guard(
    i: PreflightInputs,
    amount: i128,
    paused: bool,
    stored_max_slippage_bps: Option<u32>,
)
    ensures
        ({
            let c = checklist_spec(i, amount, paused, stored_max_slippage_bps);
            &&& c.pair_ok == i.pair_valid
            &&& c.trading_paused_ok == (i.pair_valid && !paused)
            &&& !(i.pair_valid && !paused) ==> {
                &&& !c.balance_ok && !c.kyc_ok && !c.rate_limit_ok && !c.slippage_ok
                &&& !c.oracle_fresh_ok && !c.pool_depth_ok && !c.circuit_breaker_ok && !c.risk_limits_ok
            }
            &&& i.pair_valid && !paused ==> {
                &&& c.balance_ok == (i.balance >= amount)
                &&& c.kyc_ok == i.kyc_verified
                &&& c.rate_limit_ok == i.rate_limit_ok
                &&& c.circuit_breaker_ok == !i.circuit_breaker_active
                &&& c.risk_limits_ok == (!i.concentration_exceeded && i.position_limit_ok)
                &&& i.from_is_xlm ==> c.pool_depth_ok == (i.usdc_liquidity >= amount)
                &&& !i.from_is_xlm ==> c.pool_depth_ok == (i.xlm_liquidity >= amount)
                &&& i.direct_price matches Some(p) ==> c.oracle_fresh_ok == (p.price > 0 && (i.now < p.timestamp
                    || i.now - p.timestamp <= 600))
                &&& i.direct_price is None ==> (i.inverse_price matches Some(p) ==> c.oracle_fresh_ok == (p.price
                    > 0 && (i.now < p.timestamp || i.now - p.timestamp <= 600)))
                &&& i.direct_price is None && i.inverse_price is None ==> c.oracle_fresh_ok == (amount > 0)
            }
        }),
{
}

} // verus!
