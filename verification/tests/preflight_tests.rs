use peerx::errors::SwapChecklist;
use peerx::preflight::{preflight_swap, OraclePrice, PreflightInputs};

fn healthy() -> PreflightInputs {
    PreflightInputs {
        pair_valid: true,
        circuit_breaker_active: false,
        kyc_verified: true,
        balance: 1_000,
        rate_limit_ok: true,
        concentration_exceeded: false,
        position_limit_ok: true,
        direct_price: None,
        inverse_price: None,
        now: 0,
        from_is_xlm: true,
        xlm_liquidity: 10_000,
        usdc_liquidity: 10_000,
    }
}

fn all_ok() -> SwapChecklist {
    SwapChecklist {
        balance_ok: true,
        kyc_ok: true,
        rate_limit_ok: true,
        slippage_ok: true,
        oracle_fresh_ok: true,
        pool_depth_ok: true,
        circuit_breaker_ok: true,
        trading_paused_ok: true,
        pair_ok: true,
        risk_limits_ok: true,
    }
}

fn none_ok() -> SwapChecklist {
    SwapChecklist {
        balance_ok: false,
        kyc_ok: false,
        rate_limit_ok: false,
        slippage_ok: false,
        oracle_fresh_ok: false,
        pool_depth_ok: false,
        circuit_breaker_ok: false,
        trading_paused_ok: false,
        pair_ok: false,
        risk_limits_ok: false,
    }
}

#[test]
fn healthy_swap_is_all_green() {
    assert_eq!(preflight_swap(&healthy(), 100, false, None), all_ok());
}

#[test]
fn invalid_pair_fails_everything() {
    let i = PreflightInputs { pair_valid: false, ..healthy() };
    assert_eq!(preflight_swap(&i, 100, false, None), none_ok());
}

#[test]
fn paused_trading_only_reports_the_pair() {
    assert_eq!(preflight_swap(&healthy(), 100, true, None), SwapChecklist { pair_ok: true, ..none_ok() });
}

#[test]
fn slippage_estimate_against_the_limit() {
    // 100 into 10 000 / 10 000: fee-free output 99, with the 0.3% fee 98,
    // so the estimated slippage is 101 basis points.
    assert!(preflight_swap(&healthy(), 100, false, Some(101)).slippage_ok);
    assert!(!preflight_swap(&healthy(), 100, false, Some(100)).slippage_ok);
    // An empty side skips the estimate.
    let empty = PreflightInputs { usdc_liquidity: 0, ..healthy() };
    assert!(preflight_swap(&empty, 100, false, Some(0)).slippage_ok);
}

#[test]
fn individual_guards_are_reported() {
    let i = PreflightInputs { circuit_breaker_active: true, kyc_verified: false, balance: 99, rate_limit_ok: false, ..healthy() };
    let c = preflight_swap(&i, 100, false, None);
    assert_eq!(c, SwapChecklist { circuit_breaker_ok: false, kyc_ok: false, balance_ok: false, rate_limit_ok: false, ..all_ok() });
}

#[test]
fn pool_depth_checks_the_output_side() {
    let i = PreflightInputs { usdc_liquidity: 50, ..healthy() };
    assert!(!preflight_swap(&i, 100, false, None).pool_depth_ok);
    let j = PreflightInputs { from_is_xlm: false, xlm_liquidity: 50, ..healthy() };
    assert!(!preflight_swap(&j, 100, false, None).pool_depth_ok);
    let k = PreflightInputs { from_is_xlm: false, ..healthy() };
    assert!(preflight_swap(&k, 100, false, None).pool_depth_ok);
}

#[test]
fn oracle_freshness_boundary() {
    let price = OraclePrice { price: 5, timestamp: 0 };
    let fresh = PreflightInputs { direct_price: Some(price), now: 600, ..healthy() };
    assert!(preflight_swap(&fresh, 0, false, None).oracle_fresh_ok);
    let stale = PreflightInputs { direct_price: Some(price), now: 601, ..healthy() };
    assert!(!preflight_swap(&stale, 0, false, None).oracle_fresh_ok);
    // A stale stored price fails whatever the amount: the 1:1 fallback is
    // only for a pair with no stored price.
    assert!(!preflight_swap(&stale, 1, false, None).oracle_fresh_ok);
    assert!(!preflight_swap(&stale, 1_000, false, None).oracle_fresh_ok);
    let no_price = healthy();
    assert!(preflight_swap(&no_price, 1, false, None).oracle_fresh_ok);
    assert!(!preflight_swap(&no_price, 0, false, None).oracle_fresh_ok);
    let stale_inverse = PreflightInputs { inverse_price: Some(price), now: 601, ..healthy() };
    assert!(!preflight_swap(&stale_inverse, 100, false, None).oracle_fresh_ok);
    let zero_price = PreflightInputs { direct_price: Some(OraclePrice { price: 0, timestamp: 0 }), ..healthy() };
    assert!(!preflight_swap(&zero_price, 0, false, None).oracle_fresh_ok);
    let inverse = PreflightInputs { inverse_price: Some(price), now: 10, ..healthy() };
    assert!(preflight_swap(&inverse, 0, false, None).oracle_fresh_ok);
    // A stored direct price is used even when the inverse one would be fresh.
    let both = PreflightInputs { direct_price: Some(price), inverse_price: Some(OraclePrice { price: 5, timestamp: 700 }), now: 700, ..healthy() };
    assert!(!preflight_swap(&both, 0, false, None).oracle_fresh_ok);
}

#[test]
fn risk_limits_are_reported() {
    let concentrated = PreflightInputs { concentration_exceeded: true, ..healthy() };
    assert_eq!(preflight_swap(&concentrated, 100, false, None), SwapChecklist { risk_limits_ok: false, ..all_ok() });
    let over_position = PreflightInputs { position_limit_ok: false, ..healthy() };
    assert_eq!(preflight_swap(&over_position, 100, false, None), SwapChecklist { risk_limits_ok: false, ..all_ok() });
}
