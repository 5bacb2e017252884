use peerx::contract::CounterContract;
use peerx::errors::PeerXError;
use peerx::preflight::{preflight_swap, PreflightInputs};
use peerx::swap::{safe_swap_accepts, swap_fee, SafeSwapDecision, SwapPlan};
use peerx::types::Token;

#[test]
fn fee_is_taken_from_the_input() {
    assert_eq!(swap_fee(10_000, 30), (30, 9_970));
    assert_eq!(swap_fee(99, 30), (0, 99));
    assert_eq!(swap_fee(-10_000, 30), (-30, -9_970));
    assert_eq!(swap_fee(12_345, 0), (0, 12_345));
}

#[test]
fn symbols_classify_into_tokens() {
    assert_eq!(Token::from_symbol("XLM"), Token::Xlm);
    assert_eq!(Token::from_symbol("USDCSIM"), Token::UsdcSim);
    assert_eq!(Token::from_symbol("TOKA"), Token::Other("TOKA".to_string()));
    assert_eq!(Token::from_symbol("xlm"), Token::Other("xlm".to_string()));
}

#[test]
fn safe_swap_accepts_only_distinct_pool_tokens_and_positive_amounts() {
    assert!(safe_swap_accepts(&Token::Xlm, &Token::UsdcSim, 100));
    assert!(safe_swap_accepts(&Token::UsdcSim, &Token::Xlm, 1));
    assert!(!safe_swap_accepts(&Token::Xlm, &Token::Xlm, 100));
    assert!(!safe_swap_accepts(&Token::Other("TOKA".to_string()), &Token::Xlm, 100));
    assert!(!safe_swap_accepts(&Token::Xlm, &Token::UsdcSim, 0));
}

#[test]
fn swap_guards_fail_in_order() {
    let kyc_err = Err(PeerXError::KYCVerificationRequired);
    assert_eq!(CounterContract::swap(100, kyc_err, false, true, true, false, 30), Err(PeerXError::KYCVerificationRequired));
    assert_eq!(CounterContract::swap(100, Ok(()), false, true, true, false, 30), Err(PeerXError::RateLimitExceeded));
    assert_eq!(CounterContract::swap(100, Ok(()), true, true, true, false, 30), Err(PeerXError::CircuitBreakerActive));
    assert_eq!(CounterContract::swap(100, Ok(()), true, false, true, true, 30), Err(PeerXError::InvalidAmount));
    assert_eq!(CounterContract::swap(100, Ok(()), true, false, false, false, 30), Err(PeerXError::InvalidAmount));
}

#[test]
fn accepted_swap_splits_fee_from_input() {
    assert_eq!(
        CounterContract::swap(10_000, Ok(()), true, false, false, true, 30),
        Ok(SwapPlan { fee_amount: 30, swap_amount: 9_970 })
    );
    assert_eq!(
        CounterContract::swap(50, Ok(()), true, false, false, true, 30),
        Ok(SwapPlan { fee_amount: 0, swap_amount: 50 })
    );
}

#[test]
fn safe_swap_decides_between_failed_order_and_swap() {
    assert_eq!(CounterContract::safe_swap(&Token::Xlm, &Token::UsdcSim, 100, false), SafeSwapDecision::FailedOrder);
    assert_eq!(CounterContract::safe_swap(&Token::Xlm, &Token::Xlm, 100, true), SafeSwapDecision::FailedOrder);
    assert_eq!(CounterContract::safe_swap(&Token::Xlm, &Token::UsdcSim, -1, true), SafeSwapDecision::FailedOrder);
    assert_eq!(CounterContract::safe_swap(&Token::Xlm, &Token::UsdcSim, 100, true), SafeSwapDecision::Execute);
}

#[test]
fn green_preflight_swap_succeeds() {
    let inputs = PreflightInputs {
        pair_valid: true,
        circuit_breaker_active: false,
        kyc_verified: true,
        balance: 1_000,
        rate_limit_ok: true,
        concentration_exceeded: false,
        position_limit_ok: true,
        direct_price: None,
        inverse_price: None,
        now: 0,
        from_is_xlm: true,
        xlm_liquidity: 10_000,
        usdc_liquidity: 10_000,
    };
    let c = preflight_swap(&inputs, 100, false, None);
    assert!(c.balance_ok && c.kyc_ok && c.rate_limit_ok && c.slippage_ok && c.oracle_fresh_ok);
    assert!(c.pool_depth_ok && c.circuit_breaker_ok && c.trading_paused_ok && c.pair_ok && c.risk_limits_ok);
    let r = CounterContract::swap(100, Ok(()), inputs.rate_limit_ok, inputs.circuit_breaker_active, inputs.concentration_exceeded, inputs.position_limit_ok, 30);
    assert!(r.is_ok());
    let blocked = PreflightInputs { concentration_exceeded: true, ..inputs };
    assert!(!preflight_swap(&blocked, 100, false, None).risk_limits_ok);
}
