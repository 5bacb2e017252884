use peerx::errors::PeerXError;
use peerx::contract::CounterContract;
use peerx::liquidity::{LPPosition, PoolState};
use peerx::sqrt::pool_integer_sqrt;
use peerx::types::Address;

fn user() -> Address {
    Address::new("GUSER".to_string())
}

fn empty_pool() -> PoolState {
    PoolState { xlm: 0, usdc: 0, total_lp_tokens: 0 }
}

#[test]
fn integer_square_root_values() {
    assert_eq!(pool_integer_sqrt(1), 1);
    assert_eq!(pool_integer_sqrt(2), 1);
    assert_eq!(pool_integer_sqrt(16), 4);
    assert_eq!(pool_integer_sqrt(10_000), 100);
    assert_eq!(pool_integer_sqrt(24), 4);
    assert_eq!(pool_integer_sqrt(1 << 64), 1 << 32);
    // One below a perfect square, where the Babylonian guesses alternate.
    assert_eq!(pool_integer_sqrt(3), 1);
    assert_eq!(pool_integer_sqrt(8), 2);
    assert_eq!(pool_integer_sqrt(15), 3);
    assert_eq!(pool_integer_sqrt(48), 6);
    assert_eq!(pool_integer_sqrt(99), 9);
    assert_eq!(pool_integer_sqrt(u128::MAX - 1), u64::MAX as u128);
}

#[test]
fn first_deposit_mints_square_root_of_product() {
    let plan = CounterContract::add_liquidity(100, 100, &user(), Ok(()), true, empty_pool(), 5_000, 5_000, None).unwrap();
    assert_eq!(plan.lp_tokens_minted, 100);
    assert_eq!(plan.position, LPPosition { lp_address: user(), xlm_deposited: 100, usdc_deposited: 100, lp_tokens_minted: 100 });
    assert_eq!(plan.pool, PoolState { xlm: 100, usdc: 100, total_lp_tokens: 100 });
    assert_eq!((plan.xlm_balance, plan.usdc_balance), (4_900, 4_900));
    let plan = CounterContract::add_liquidity(4, 9, &user(), Ok(()), true, empty_pool(), 10, 10, None).unwrap();
    assert_eq!(plan.lp_tokens_minted, 6);
    // floor(sqrt(8)) = 2.
    let plan = CounterContract::add_liquidity(1, 8, &user(), Ok(()), true, empty_pool(), 10, 10, None).unwrap();
    assert_eq!(plan.lp_tokens_minted, 2);
    let plan = CounterContract::add_liquidity(400, 100, &user(), Ok(()), true, empty_pool(), 1_000, 1_000, None).unwrap();
    assert_eq!(plan.lp_tokens_minted, 200);
    assert_eq!((plan.xlm_balance, plan.usdc_balance), (600, 900));
}

#[test]
fn later_deposit_mints_smaller_share_and_grows_position() {
    let pool = PoolState { xlm: 1_000, usdc: 2_000, total_lp_tokens: 500 };
    let existing = LPPosition { lp_address: user(), xlm_deposited: 10, usdc_deposited: 20, lp_tokens_minted: 5 };
    let plan = CounterContract::add_liquidity(100, 100, &user(), Ok(()), true, pool, 1_000, 1_000, Some(existing)).unwrap();
    assert_eq!(plan.lp_tokens_minted, 25);
    assert_eq!(plan.position, LPPosition { lp_address: user(), xlm_deposited: 110, usdc_deposited: 120, lp_tokens_minted: 30 });
    assert_eq!(plan.pool, PoolState { xlm: 1_100, usdc: 2_100, total_lp_tokens: 525 });
    assert_eq!((plan.xlm_balance, plan.usdc_balance), (900, 900));
}

#[test]
fn deposit_errors_in_order() {
    let p = empty_pool();
    assert_eq!(
        CounterContract::add_liquidity(100, 100, &user(), Err(PeerXError::KYCVerificationRequired), true, p, 0, 0, None),
        Err(PeerXError::KYCVerificationRequired)
    );
    assert_eq!(CounterContract::add_liquidity(0, 100, &user(), Ok(()), false, p, 0, 0, None), Err(PeerXError::InvalidAmount));
    assert_eq!(CounterContract::add_liquidity(100, 100, &user(), Ok(()), false, p, 0, 0, None), Err(PeerXError::RateLimitExceeded));
    assert_eq!(CounterContract::add_liquidity(100, 100, &user(), Ok(()), true, p, 99, 500, None), Err(PeerXError::InsufficientBalance));
    let drained = PoolState { xlm: 0, usdc: 0, total_lp_tokens: 5 };
    assert_eq!(CounterContract::add_liquidity(100, 100, &user(), Ok(()), true, drained, 500, 500, None), Err(PeerXError::InvalidAmount));
}

#[test]
fn withdrawal_pays_proportional_share() {
    let pos = LPPosition { lp_address: user(), xlm_deposited: 100, usdc_deposited: 100, lp_tokens_minted: 100 };
    let pool = PoolState { xlm: 100, usdc: 100, total_lp_tokens: 100 };
    let plan = CounterContract::remove_liquidity(50, Ok(()), Some(pos), pool, 7, 8).unwrap();
    assert_eq!((plan.xlm_amount, plan.usdc_amount), (50, 50));
    assert_eq!(plan.pool, PoolState { xlm: 50, usdc: 50, total_lp_tokens: 50 });
    assert_eq!((plan.xlm_balance, plan.usdc_balance), (57, 58));
    assert_eq!(plan.position, LPPosition { lp_address: user(), xlm_deposited: 50, usdc_deposited: 50, lp_tokens_minted: 50 });
}

#[test]
fn withdrawal_errors_in_order() {
    let pos = LPPosition { lp_address: user(), xlm_deposited: 10, usdc_deposited: 10, lp_tokens_minted: 100 };
    let pool = PoolState { xlm: 1_000, usdc: 1_000, total_lp_tokens: 100 };
    assert_eq!(CounterContract::remove_liquidity(10, Err(PeerXError::KYCVerificationRequired), Some(pos.clone()), pool, 0, 0), Err(PeerXError::KYCVerificationRequired));
    assert_eq!(CounterContract::remove_liquidity(0, Ok(()), Some(pos.clone()), pool, 0, 0), Err(PeerXError::InvalidAmount));
    assert_eq!(CounterContract::remove_liquidity(10, Ok(()), None, pool, 0, 0), Err(PeerXError::LPPositionNotFound));
    assert_eq!(CounterContract::remove_liquidity(101, Ok(()), Some(pos.clone()), pool, 0, 0), Err(PeerXError::InsufficientLPTokens));
    let no_supply = PoolState { xlm: 1_000, usdc: 1_000, total_lp_tokens: 0 };
    assert_eq!(CounterContract::remove_liquidity(10, Ok(()), Some(pos.clone()), no_supply, 0, 0), Err(PeerXError::LPPositionNotFound));
    let dry = PoolState { xlm: 0, usdc: 1_000, total_lp_tokens: 100 };
    assert_eq!(CounterContract::remove_liquidity(10, Ok(()), Some(pos.clone()), dry, 0, 0), Err(PeerXError::InvalidAmount));
    // 50 of 100 LP tokens would pay 500, above 101% of the 10 deposited.
    assert_eq!(CounterContract::remove_liquidity(50, Ok(()), Some(pos), pool, 0, 0), Err(PeerXError::InsufficientBalance));
}

#[test]
fn deposit_then_withdraw_returns_no_more_than_deposited() {
    let pool = PoolState { xlm: 1_000, usdc: 2_000, total_lp_tokens: 500 };
    let plan = CounterContract::add_liquidity(100, 100, &user(), Ok(()), true, pool, 1_000, 1_000, None).unwrap();
    let after = PoolState { xlm: 1_100, usdc: 2_100, total_lp_tokens: 500 + plan.lp_tokens_minted };
    assert_eq!(plan.pool, after);
    let out = CounterContract::remove_liquidity(plan.lp_tokens_minted, Ok(()), Some(plan.position), plan.pool, plan.xlm_balance, plan.usdc_balance).unwrap();
    assert_eq!((out.xlm_amount, out.usdc_amount), (52, 100));
    assert!(out.xlm_amount <= 100 && out.usdc_amount <= 100);
}

#[test]
fn positions_list_holds_the_position_if_any() {
    assert!(CounterContract::get_lp_positions(None).is_empty());
    let pos = LPPosition { lp_address: user(), xlm_deposited: 1, usdc_deposited: 2, lp_tokens_minted: 3 };
    assert_eq!(CounterContract::get_lp_positions(Some(pos.clone())), vec![pos]);
}

#[test]
fn deposit_into_empty_pool_then_withdraw_everything_restores_all() {
    let plan = CounterContract::add_liquidity(400, 100, &user(), Ok(()), true, empty_pool(), 1_000, 1_000, None).unwrap();
    assert_eq!(plan.pool, PoolState { xlm: 400, usdc: 100, total_lp_tokens: 200 });
    let out = CounterContract::remove_liquidity(plan.lp_tokens_minted, Ok(()), Some(plan.position), plan.pool, plan.xlm_balance, plan.usdc_balance).unwrap();
    assert_eq!((out.xlm_amount, out.usdc_amount), (400, 100));
    assert_eq!(out.pool, empty_pool());
    assert_eq!((out.xlm_balance, out.usdc_balance), (1_000, 1_000));
    assert_eq!(out.position, LPPosition { lp_address: user(), xlm_deposited: 0, usdc_deposited: 0, lp_tokens_minted: 0 });
}
