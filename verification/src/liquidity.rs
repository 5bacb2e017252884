//! Liquidity provision for the built-in XLM / USDCSIM pool: how many LP tokens
//! a deposit mints, and what burning LP tokens pays out.
//!
//! The first deposit into an empty pool mints `floor(sqrt(xlm * usdc))` LP
//! tokens, computed with the Babylonian method (see `sqrt`); later deposits
//! mint the smaller of the two proportional shares. Burning LP tokens pays the
//! proportional share of both reserves, capped at 101% of what the position
//! deposited.
use vstd::prelude::*;
use crate::arith::{div_toward_zero, clamp_i128, clamp_u128, sat_add_i128, sat_mul_i128, sat_mul_u128, sat_sub_i128};
use crate::contract::CounterContract;
use crate::errors::PeerXError;
use crate::types::Address;
use crate::sqrt::{int_sqrt, is_isqrt, lemma_int_sqrt_is_isqrt, pool_integer_sqrt};

verus! {

/// A liquidity provider's position in the pool.
#[derive(Debug, PartialEq, Eq)]
pub struct LPPosition {
    /// The provider.
    pub lp_address: Address,
    /// XLM deposited (net of withdrawals).
    pub xlm_deposited: i128,
    /// USDCSIM deposited (net of withdrawals).
    pub usdc_deposited: i128,
    /// LP tokens held.
    pub lp_tokens_minted: i128,
}

impl Clone for LPPosition {
    fn clone(&self) -> (r: Self)
        ensures
            r == *self,
    {
        LPPosition {
            lp_address: self.lp_address.clone(),
            xlm_deposited: self.xlm_deposited,
            usdc_deposited: self.usdc_deposited,
            lp_tokens_minted: self.lp_tokens_minted,
        }
    }
}

/// The pool's reserves and outstanding LP tokens.
#[derive(Clone, Copy, Debug, PartialEq, Eq, Structural)]
pub struct PoolState {
    /// XLM reserve.
    pub xlm: i128,
    /// USDCSIM reserve.
    pub usdc: i128,
    /// LP tokens outstanding.
    pub total_lp_tokens: i128,
}

/// What an accepted deposit does: the LP tokens it mints, the provider's
/// position, the pool and the provider's balances afterwards.
#[derive(Debug, PartialEq, Eq)]
pub struct AddLiquidityPlan {
    /// LP tokens minted for the deposit.
    pub lp_tokens_minted: i128,
    /// The provider's position after the deposit.
    pub position: LPPosition,
    /// The pool after the deposit: both reserves grown by the deposit and the
    /// LP supply grown by the minted tokens.
    pub pool: PoolState,
    /// The provider's XLM balance after the deposit is debited.
    pub xlm_balance: i128,
    /// The provider's USDCSIM balance after the deposit is debited.
    pub usdc_balance: i128,
}

/// What an accepted withdrawal does: the amounts paid out, the pool, the
/// provider's balances and position afterwards.
#[derive(Debug, PartialEq, Eq)]
pub struct RemoveLiquidityPlan {
    /// XLM paid out.
    pub xlm_amount: i128,
    /// USDCSIM paid out.
    pub usdc_amount: i128,
    /// The pool after the withdrawal: both reserves less the payouts and the
    /// LP supply less the burned tokens.
    pub pool: PoolState,
    /// The provider's XLM balance after the payout is credited.
    pub xlm_balance: i128,
    /// The provider's USDCSIM balance after the payout is credited.
    pub usdc_balance: i128,
    /// The provider's position afterwards.
    pub position: LPPosition,
}

/// The proportional share of a reserve that `amount` buys against
/// `total_lp` outstanding LP tokens, as the pool computes it in `u128`
/// (0 when the reserve is empty or negative).
pub open spec fn share_spec(amount: i128, total_lp: i128, reserve: i128) -> u128 {
    if reserve > 0 {
        (clamp_u128((amount as u128) * (total_lp as u128)) / ((reserve as u128) as int)) as u128
    } else {
        0
    }
}

/// The LP tokens that a deposit of `xlm` and `usdc` mints into `pool`.
pub open spec fn minted_spec(xlm: i128, usdc: i128, pool: PoolState) -> i128 {
    if pool.total_lp_tokens == 0 {
        int_sqrt(clamp_u128((xlm as u128) * (usdc as u128)) as nat) as i128
    } else {
        let a = share_spec(xlm, pool.total_lp_tokens, pool.xlm) as i128;
        let b = share_spec(usdc, pool.total_lp_tokens, pool.usdc) as i128;
        if a <= b { a } else { b }
    }
}

/// The position after a deposit of `xlm`, `usdc` minting `lp`: the existing
/// one grown (saturating), or a new one for `user`.
pub open spec fn grown_position(existing: Option<LPPosition>, user: Address, xlm: i128, usdc: i128, lp: i128) -> LPPosition {
    match existing {
        Some(p) => LPPosition {
            lp_address: p.lp_address,
            xlm_deposited: clamp_i128(p.xlm_deposited + xlm) as i128,
            usdc_deposited: clamp_i128(p.usdc_deposited + usdc) as i128,
            lp_tokens_minted: clamp_i128(p.lp_tokens_minted + lp) as i128,
        },
        None => LPPosition { lp_address: user, xlm_deposited: xlm, usdc_deposited: usdc, lp_tokens_minted: lp },
    }
}

fn share(amount: i128, total_lp: i128, reserve: i128) -> (r: u128)
    requires
        amount > 0,
    ensures
        r == share_spec(amount, total_lp, reserve),
{
    if reserve > 0 {
        sat_mul_u128(amount as u128, total_lp as u128) / (reserve as u128)
    } else {
        0
    }
}

/// The most a withdrawal may pay out of a reserve for a position that
/// deposited `deposited`: 101% of it (saturating, rounded toward zero).
pub open spec fn payout_cap(deposited: i128) -> int {
    div_toward_zero(clamp_i128(deposited * 101), 100)
}

/// The part of a reserve that burning `lp` of `total` LP tokens pays out, as
/// the pool computes it in `u128` and converts back.
pub open spec fn payout_spec(lp: i128, reserve: i128, total: i128) -> i128 {
    ((clamp_u128((lp as u128) * (reserve as u128)) / ((total as u128) as int)) as u128) as i128
}

fn payout(lp: i128, reserve: i128, total: i128) -> (r: i128)
    requires
        lp > 0,
        total > 0,
    ensures
        r == payout_spec(lp, reserve, total),
{
    (sat_mul_u128(lp as u128, reserve as u128) / (total as u128)) as i128
}

fn cap_101_percent(deposited: i128) -> (r: i128)
    ensures
        r == payout_cap(deposited),
{
    let scaled = sat_mul_i128(deposited, 101);
    match scaled.checked_div(100) {
        Some(v) => v,
        None => 0,
    }
}

/// Whether a deposit passes every check: KYC, positive amounts, the LP rate
/// limit, balances covering it, and at least one LP token minted.
pub open spec fn add_liquidity_accepts(
    xlm_amount: i128,
    usdc_amount: i128,
    kyc: Result<(), PeerXError>,
    rate_limit_ok: bool,
    pool: PoolState,
    xlm_balance: i128,
    usdc_balance: i128,
) -> bool {
    &&& kyc is Ok
    &&& xlm_amount > 0 && usdc_amount > 0
    &&& rate_limit_ok
    &&& xlm_balance >= xlm_amount && usdc_balance >= usdc_amount
    &&& minted_spec(xlm_amount, usdc_amount, pool) > 0
}

/// The outcome of a deposit of `xlm_amount` XLM and `usdc_amount` USDCSIM by
/// `user` into `pool`: the first failing check's error, or the plan in which
/// the amounts leave the user's balances and join the reserves, and the
/// minted tokens join the supply and the user's position.
pub open spec fn add_liquidity_spec(
    xlm_amount: i128,
    usdc_amount: i128,
    user: Address,
    kyc: Result<(), PeerXError>,
    rate_limit_ok: bool,
    pool: PoolState,
    xlm_balance: i128,
    usdc_balance: i128,
    existing: Option<LPPosition>,
) -> Result<AddLiquidityPlan, PeerXError> {
    match kyc {
        Err(e) => Err(e),
        Ok(_) => if xlm_amount <= 0 || usdc_amount <= 0 {
            Err(PeerXError::InvalidAmount)
        } else if !rate_limit_ok {
            Err(PeerXError::RateLimitExceeded)
        } else if xlm_balance < xlm_amount || usdc_balance < usdc_amount {
            Err(PeerXError::InsufficientBalance)
        } else if minted_spec(xlm_amount, usdc_amount, pool) <= 0 {
            Err(PeerXError::InvalidAmount)
        } else {
            let lp = minted_spec(xlm_amount, usdc_amount, pool);
            Ok(
                AddLiquidityPlan {
                    lp_tokens_minted: lp,
                    position: grown_position(existing, user, xlm_amount, usdc_amount, lp),
                    pool: PoolState {
                        xlm: (pool.xlm + xlm_amount) as i128,
                        usdc: (pool.usdc + usdc_amount) as i128,
                        total_lp_tokens: (pool.total_lp_tokens + lp) as i128,
                    },
                    xlm_balance: (xlm_balance - xlm_amount) as i128,
                    usdc_balance: (usdc_balance - usdc_amount) as i128,
                },
            )
        },
    }
}

/// Whether a withdrawal passes every check: KYC, a positive amount within
/// the position, an LP supply, positive payouts within 101% of what the
/// position deposited.
pub open spec fn remove_liquidity_accepts(
    lp_tokens: i128,
    kyc: Result<(), PeerXError>,
    position: Option<LPPosition>,
    pool: PoolState,
) -> bool {
    &&& kyc is Ok
    &&& lp_tokens > 0
    &&& position is Some
    &&& position.unwrap().lp_tokens_minted >= lp_tokens
    &&& pool.total_lp_tokens > 0
    &&& payout_spec(lp_tokens, pool.xlm, pool.total_lp_tokens) > 0
    &&& payout_spec(lp_tokens, pool.usdc, pool.total_lp_tokens) > 0
    &&& payout_spec(lp_tokens, pool.xlm, pool.total_lp_tokens) <= payout_cap(position.unwrap().xlm_deposited)
    &&& payout_spec(lp_tokens, pool.usdc, pool.total_lp_tokens) <= payout_cap(position.unwrap().usdc_deposited)
}

/// The outcome of burning `lp_tokens` of the position `position` in `pool`:
/// the first failing check's error, or the plan in which the proportional
/// payouts leave the reserves (saturating) and are credited to the user's
/// balances, the burned tokens leave the supply, and the position shrinks.
pub open spec fn remove_liquidity_spec(
    lp_tokens: i128,
    kyc: Result<(), PeerXError>,
    position: Option<LPPosition>,
    pool: PoolState,
    xlm_balance: i128,
    usdc_balance: i128,
) -> Result<RemoveLiquidityPlan, PeerXError> {
    match kyc {
        Err(e) => Err(e),
        Ok(_) => if lp_tokens <= 0 {
            Err(PeerXError::InvalidAmount)
        } else if position is None {
            Err(PeerXError::LPPositionNotFound)
        } else if position.unwrap().lp_tokens_minted < lp_tokens {
            Err(PeerXError::InsufficientLPTokens)
        } else if pool.total_lp_tokens <= 0 {
            Err(PeerXError::LPPositionNotFound)
        } else {
            let pos = position.unwrap();
            let x = payout_spec(lp_tokens, pool.xlm, pool.total_lp_tokens);
            let u = payout_spec(lp_tokens, pool.usdc, pool.total_lp_tokens);
            if x <= 0 || u <= 0 {
                Err(PeerXError::InvalidAmount)
            } else if x > payout_cap(pos.xlm_deposited) || u > payout_cap(pos.usdc_deposited) {
                Err(PeerXError::InsufficientBalance)
            } else {
                Ok(
                    RemoveLiquidityPlan {
                        xlm_amount: x,
                        usdc_amount: u,
                        pool: PoolState {
                            xlm: clamp_i128(pool.xlm - x) as i128,
                            usdc: clamp_i128(pool.usdc - u) as i128,
                            total_lp_tokens: (pool.total_lp_tokens - lp_tokens) as i128,
                        },
                        xlm_balance: (xlm_balance + x) as i128,
                        usdc_balance: (usdc_balance + u) as i128,
                        position: LPPosition {
                            lp_address: pos.lp_address,
                            xlm_deposited: clamp_i128(pos.xlm_deposited - x) as i128,
                            usdc_deposited: clamp_i128(pos.usdc_deposited - u) as i128,
                            lp_tokens_minted: clamp_i128(pos.lp_tokens_minted - lp_tokens) as i128,
                        },
                    },
                )
            }
        },
    }
}

impl CounterContract {
    /// Decides a deposit of `xlm_amount` XLM and `usdc_amount` USDCSIM by `user`
    /// into `pool`. `kyc` is the outcome of the user's KYC check and
    /// `rate_limit_ok` that of the LP rate limit; `xlm_balance` and `usdc_balance`
    /// are the user's balances; `existing` is the user's position, if any.
    ///
    /// Errors, in this order: the KYC error; `InvalidAmount` for a non-positive
    /// amount; `RateLimitExceeded`; `InsufficientBalance`; `InvalidAmount` when
    /// the deposit would mint no LP tokens. On success the plan gives the
    /// minted tokens, the position, the pool (reserves and supply grown) and
    /// the user's balances (debited by the deposit).
    pub fn add_liquidity(
        xlm_amount: i128,
        usdc_amount: i128,
        user: &Address,
        kyc: Result<(), PeerXError>,
        rate_limit_ok: bool,
        pool: PoolState,
        xlm_balance: i128,
        usdc_balance: i128,
        existing: Option<LPPosition>,
    ) -> (r: Result<AddLiquidityPlan, PeerXError>)
        requires
            kyc is Ok && xlm_amount > 0 && usdc_amount > 0 && rate_limit_ok && xlm_balance >= xlm_amount
                && usdc_balance >= usdc_amount && pool.total_lp_tokens == 0 ==> xlm_amount
                * usdc_amount < u128::MAX,
            add_liquidity_accepts(xlm_amount, usdc_amount, kyc, rate_limit_ok, pool, xlm_balance, usdc_balance)
                ==> {
                &&& pool.xlm + xlm_amount <= i128::MAX
                &&& pool.usdc + usdc_amount <= i128::MAX
                &&& pool.total_lp_tokens + minted_spec(xlm_amount, usdc_amount, pool) <= i128::MAX
            },
        ensures
            r == add_liquidity_spec(
                xlm_amount,
                usdc_amount,
                *user,
                kyc,
                rate_limit_ok,
                pool,
                xlm_balance,
                usdc_balance,
                existing,
            ),
    {
        if let Err(e) = kyc {
            return Err(e);
        }
        if xlm_amount <= 0 || usdc_amount <= 0 {
            return Err(PeerXError::InvalidAmount);
        }
        if !rate_limit_ok {
            return Err(PeerXError::RateLimitExceeded);
        }
        if xlm_balance < xlm_amount || usdc_balance < usdc_amount {
            return Err(PeerXError::InsufficientBalance);
        }
        let lp_tokens_minted: i128 = if pool.total_lp_tokens == 0 {
            let product = sat_mul_u128(xlm_amount as u128, usdc_amount as u128);
            proof {
                assert(xlm_amount * usdc_amount > 0) by (nonlinear_arith)
                    requires
                        xlm_amount > 0,
                        usdc_amount > 0,
                ;
            }
            if product == 0 {
                return Err(PeerXError::InvalidAmount);
            }
            let root = pool_integer_sqrt(product);
            proof {
                assert(root * root <= product);
                assert(root < 0x1_0000_0000_0000_0000) by (nonlinear_arith)
                    requires
                        root * root <= product,
                        product < u128::MAX,
                {
                    if root >= 0x1_0000_0000_0000_0000 {
                        assert(root * root >= 0x1_0000_0000_0000_0000 * 0x1_0000_0000_0000_0000);
                    }
                }
            }
            root as i128
        } else {
            let xlm_share = share(xlm_amount, pool.total_lp_tokens, pool.xlm);
            let usdc_share = share(usdc_amount, pool.total_lp_tokens, pool.usdc);
            let a = xlm_share as i128;
            let b = usdc_share as i128;
            if a <= b {
                a
            } else {
                b
            }
        };
        if lp_tokens_minted <= 0 {
            return Err(PeerXError::InvalidAmount);
        }
        let position = match existing {
            Some(pos) => LPPosition {
                lp_address: pos.lp_address,
                xlm_deposited: sat_add_i128(pos.xlm_deposited, xlm_amount),
                usdc_deposited: sat_add_i128(pos.usdc_deposited, usdc_amount),
                lp_tokens_minted: sat_add_i128(pos.lp_tokens_minted, lp_tokens_minted),
            },
            None => LPPosition {
                lp_address: user.clone(),
                xlm_deposited: xlm_amount,
                usdc_deposited: usdc_amount,
                lp_tokens_minted,
            },
        };
        let new_pool = PoolState {
            xlm: pool.xlm + xlm_amount,
            usdc: pool.usdc + usdc_amount,
            total_lp_tokens: pool.total_lp_tokens + lp_tokens_minted,
        };
        Ok(
            AddLiquidityPlan {
                lp_tokens_minted,
                position,
                pool: new_pool,
                xlm_balance: xlm_balance - xlm_amount,
                usdc_balance: usdc_balance - usdc_amount,
            },
        )
    }

    /// Decides a withdrawal that burns `lp_tokens` of `user`'s position
    /// `position` from `pool`; `kyc` is the outcome of the user's KYC check,
    /// `xlm_balance` and `usdc_balance` are the user's balances.
    ///
    /// Errors, in this order: the KYC error; `InvalidAmount` for a non-positive
    /// `lp_tokens`; `LPPositionNotFound` without a position;
    /// `InsufficientLPTokens` when the position holds fewer tokens;
    /// `LPPositionNotFound` when no LP tokens are outstanding; `InvalidAmount`
    /// when either payout is not positive; `InsufficientBalance` when a payout
    /// exceeds 101% of what the position deposited of that token. On success
    /// the plan gives the payouts, the pool (reserves and supply shrunk), the
    /// user's balances (credited with the payouts) and the position.
    pub fn remove_liquidity(
        lp_tokens: i128,
        kyc: Result<(), PeerXError>,
        position: Option<LPPosition>,
        pool: PoolState,
        xlm_balance: i128,
        usdc_balance: i128,
    ) -> (r: Result<RemoveLiquidityPlan, PeerXError>)
        requires
            remove_liquidity_accepts(lp_tokens, kyc, position, pool) ==> {
                &&& xlm_balance + payout_spec(lp_tokens, pool.xlm, pool.total_lp_tokens) <= i128::MAX
                &&& usdc_balance + payout_spec(lp_tokens, pool.usdc, pool.total_lp_tokens) <= i128::MAX
            },
        ensures
            r == remove_liquidity_spec(lp_tokens, kyc, position, pool, xlm_balance, usdc_balance),
    {
        if let Err(e) = kyc {
            return Err(e);
        }
        if lp_tokens <= 0 {
            return Err(PeerXError::InvalidAmount);
        }
        let pos = match position {
            Some(p) => p,
            None => return Err(PeerXError::LPPositionNotFound),
        };
        if pos.lp_tokens_minted < lp_tokens {
            return Err(PeerXError::InsufficientLPTokens);
        }
        if pool.total_lp_tokens <= 0 {
            return Err(PeerXError::LPPositionNotFound);
        }
        let xlm_amount = payout(lp_tokens, pool.xlm, pool.total_lp_tokens);
        let usdc_amount = payout(lp_tokens, pool.usdc, pool.total_lp_tokens);
        if xlm_amount <= 0 || usdc_amount <= 0 {
            return Err(PeerXError::InvalidAmount);
        }
        if xlm_amount > cap_101_percent(pos.xlm_deposited) || usdc_amount > cap_101_percent(
            pos.usdc_deposited,
        ) {
            return Err(PeerXError::InsufficientBalance);
        }
        let new_pool = PoolState {
            xlm: sat_sub_i128(pool.xlm, xlm_amount),
            usdc: sat_sub_i128(pool.usdc, usdc_amount),
            total_lp_tokens: pool.total_lp_tokens - lp_tokens,
        };
        let position = LPPosition {
            lp_address: pos.lp_address,
            xlm_deposited: sat_sub_i128(pos.xlm_deposited, xlm_amount),
            usdc_deposited: sat_sub_i128(pos.usdc_deposited, usdc_amount),
            lp_tokens_minted: sat_sub_i128(pos.lp_tokens_minted, lp_tokens),
        };
        Ok(
            RemoveLiquidityPlan {
                xlm_amount,
                usdc_amount,
                pool: new_pool,
                xlm_balance: xlm_balance + xlm_amount,
                usdc_balance: usdc_balance + usdc_amount,
                position,
            },
        )
    }

    /// The user's positions as a list: the position if there is one.
    pub fn get_lp_positions(position: Option<LPPosition>) -> (r: Vec<LPPosition>)
        ensures
            position matches Some(p) ==> r@ == seq![p],
            position is None ==> r@.len() == 0,
    {
        let mut result: Vec<LPPosition> = Vec::new();
        if let Some(p) = position {
            result.push(p);
        }
        result
    }
}

/// The first deposit into an empty pool mints `floor(sqrt(xlm * usdc))` LP
/// tokens, and that is always at least one token.
pub proof fn law_first_deposit_mints_sqrt(xlm: i128, usdc: i128, pool: PoolState)
    requires
        xlm > 0,
        usdc > 0,
        xlm * usdc < u128::MAX,
        pool.total_lp_tokens == 0,
    ensures
        minted_spec(xlm, usdc, pool) == int_sqrt((xlm * usdc) as nat),
        is_isqrt((xlm * usdc) as nat, minted_spec(xlm, usdc, pool) as nat),
        minted_spec(xlm, usdc, pool) >= 1,
{
    let n = (xlm * usdc) as nat;
    assert(xlm * usdc > 0) by (nonlinear_arith)
        requires
            xlm > 0,
            usdc > 0,
    ;
    assert(clamp_u128((xlm as u128) * (usdc as u128)) == n);
    lemma_int_sqrt_facts(n);
}

/// The integer square root of a positive `n` below `u128::MAX` is its
/// integer square root, at least 1 and below `2^64`.
proof fn lemma_int_sqrt_facts(n: nat)
    requires
        0 < n < u128::MAX,
    ensures
        is_isqrt(n, int_sqrt(n)),
        1 <= int_sqrt(n) < 0x1_0000_0000_0000_0000,
{
    lemma_int_sqrt_is_isqrt(n);
    let s = int_sqrt(n);
    assert(s < 0x1_0000_0000_0000_0000) by (nonlinear_arith)
        requires
            s * s <= n,
            n < u128::MAX,
    {
        if s >= 0x1_0000_0000_0000_0000 {
            assert(s * s >= 0x1_0000_0000_0000_0000 * 0x1_0000_0000_0000_0000);
        }
    }
    assert(s >= 1) by (nonlinear_arith)
        requires
            n < (s + 1) * (s + 1),
            n > 0,
    ;
}

/// A deposit followed by burning the LP tokens it minted never pays out
/// more than was deposited: for a pool with positive reserves and supply,
/// once the deposit `(xlm, usdc)` has minted `m` tokens and joined the pool,
/// burning those `m` tokens pays at most `xlm` and at most `usdc` (as long as
/// no intermediate value saturates).
pub proof fn law_deposit_then_withdraw_creates_nothing(xlm: i128, usdc: i128, pool: PoolState)
    requires
        xlm > 0,
        usdc > 0,
        pool.xlm > 0,
        pool.usdc > 0,
        pool.total_lp_tokens > 0,
        xlm * pool.total_lp_tokens <= i128::MAX,
        usdc * pool.total_lp_tokens <= i128::MAX,
        minted_spec(xlm, usdc, pool) > 0,
        pool.xlm + xlm <= i128::MAX,
        pool.usdc + usdc <= i128::MAX,
        pool.total_lp_tokens + minted_spec(xlm, usdc, pool) <= i128::MAX,
        minted_spec(xlm, usdc, pool) * (pool.xlm + xlm) <= u128::MAX,
        minted_spec(xlm, usdc, pool) * (pool.usdc + usdc) <= u128::MAX,
    ensures
        ({
            let m = minted_spec(xlm, usdc, pool);
            let after = PoolState {
                xlm: (pool.xlm + xlm) as i128,
                usdc: (pool.usdc + usdc) as i128,
                total_lp_tokens: (pool.total_lp_tokens + m) as i128,
            };
            &&& payout_spec(m, after.xlm, after.total_lp_tokens) <= xlm
            &&& payout_spec(m, after.usdc, after.total_lp_tokens) <= usdc
        }),
{
    let t = pool.total_lp_tokens;
    let m = minted_spec(xlm, usdc, pool);
    let a = share_spec(xlm, t, pool.xlm);
    let b = share_spec(usdc, t, pool.usdc);
    assert(xlm * t > 0 && usdc * t > 0) by (nonlinear_arith)
        requires
            xlm > 0,
            usdc > 0,
            t > 0,
    ;
    assert(clamp_u128((xlm as u128) * (t as u128)) == xlm * t);
    assert(clamp_u128((usdc as u128) * (t as u128)) == usdc * t);
    assert(a == (xlm * t) / (pool.xlm as int));
    assert(b == (usdc * t) / (pool.usdc as int));
    assert(a <= xlm * t && b <= usdc * t) by (nonlinear_arith)
        requires
            a == (xlm * t) / (pool.xlm as int),
            b == (usdc * t) / (pool.usdc as int),
            pool.xlm >= 1,
            pool.usdc >= 1,
            xlm * t > 0,
            usdc * t > 0,
    ;
    assert(m <= a && m <= b);
    assert(m * pool.xlm <= xlm * t) by (nonlinear_arith)
        requires
            0 < m <= a,
            a == (xlm * t) / (pool.xlm as int),
            pool.xlm >= 1,
            xlm * t > 0,
    {
        assert(a * pool.xlm <= xlm * t);
    }
    assert(m * pool.usdc <= usdc * t) by (nonlinear_arith)
        requires
            0 < m <= b,
            b == (usdc * t) / (pool.usdc as int),
            pool.usdc >= 1,
            usdc * t > 0,
    {
        assert(b * pool.usdc <= usdc * t);
    }
    let x2 = pool.xlm + xlm;
    let u2 = pool.usdc + usdc;
    let t2 = t + m;
    assert(clamp_u128((m as u128) * (x2 as u128)) == m * x2);
    assert(clamp_u128((m as u128) * (u2 as u128)) == m * u2);
    assert((m * x2) / t2 <= xlm) by (nonlinear_arith)
        requires
            m * pool.xlm <= xlm * t,
            x2 == pool.xlm + xlm,
            t2 == t + m,
            m > 0,
            t > 0,
            xlm > 0,
    {
        assert(m * x2 <= xlm * t2);
    }
    assert((m * u2) / t2 <= usdc) by (nonlinear_arith)
        requires
            m * pool.usdc <= usdc * t,
            u2 == pool.usdc + usdc,
            t2 == t + m,
            m > 0,
            t > 0,
            usdc > 0,
    {
        assert(m * u2 <= usdc * t2);
    }
}

/// A deposit into an empty pool by a user without a position, followed by
/// burning every LP token it minted, pays back exactly what was deposited:
/// the user's balances, the reserves and the LP supply are back where they
/// were, and the position holds nothing (as long as no intermediate value
/// saturates).
pub proof fn law_deposit_withdraw_round_trip(
    xlm: i128,
    usdc: i128,
    user: Address,
    xlm_balance: i128,
    usdc_balance: i128,
)
    requires
        0 < xlm <= xlm_balance,
        0 < usdc <= usdc_balance,
        xlm * usdc < u128::MAX,
        xlm * 101 <= i128::MAX,
        usdc * 101 <= i128::MAX,
        int_sqrt((xlm * usdc) as nat) * xlm <= u128::MAX,
        int_sqrt((xlm * usdc) as nat) * usdc <= u128::MAX,
    ensures
        ({
            let empty = PoolState { xlm: 0, usdc: 0, total_lp_tokens: 0 };
            let added = add_liquidity_spec(xlm, usdc, user, Ok(()), true, empty, xlm_balance, usdc_balance, None);
            let plan = added.unwrap();
            &&& added is Ok
            &&& plan.pool == PoolState { xlm, usdc, total_lp_tokens: plan.lp_tokens_minted }
            &&& plan.xlm_balance == xlm_balance - xlm
            &&& plan.usdc_balance == usdc_balance - usdc
            &&& remove_liquidity_spec(
                plan.lp_tokens_minted,
                Ok(()),
                Some(plan.position),
                plan.pool,
                plan.xlm_balance,
                plan.usdc_balance,
            ) == Ok::<RemoveLiquidityPlan, PeerXError>(
                RemoveLiquidityPlan {
                    xlm_amount: xlm,
                    usdc_amount: usdc,
                    pool: empty,
                    xlm_balance,
                    usdc_balance,
                    position: LPPosition {
                        lp_address: user,
                        xlm_deposited: 0,
                        usdc_deposited: 0,
                        lp_tokens_minted: 0,
                    },
                },
            )
        }),
{
    let empty = PoolState { xlm: 0, usdc: 0, total_lp_tokens: 0 };
    let n = (xlm * usdc) as nat;
    law_first_deposit_mints_sqrt(xlm, usdc, empty);
    assert(xlm * usdc > 0) by (nonlinear_arith)
        requires
            xlm > 0,
            usdc > 0,
    ;
    lemma_int_sqrt_facts(n);
    let m = int_sqrt(n);
    assert(minted_spec(xlm, usdc, empty) == m);
    assert(m * xlm >= 0 && m * usdc >= 0) by (nonlinear_arith)
        requires
            m >= 1,
            xlm > 0,
            usdc > 0,
    ;
    assert(clamp_u128((m as u128) * (xlm as u128)) == m * xlm);
    assert(clamp_u128((m as u128) * (usdc as u128)) == m * usdc);
    assert((m * xlm) / (m as int) == xlm) by (nonlinear_arith)
        requires
            m >= 1,
    ;
    assert((m * usdc) / (m as int) == usdc) by (nonlinear_arith)
        requires
            m >= 1,
    ;
    assert(payout_spec(m as i128, xlm, m as i128) == xlm);
    assert(payout_spec(m as i128, usdc, m as i128) == usdc);
    assert(xlm * 101 >= 0 && usdc * 101 >= 0);
    assert((xlm * 101) / 100 >= xlm) by (nonlinear_arith)
        requires
            xlm > 0,
    ;
    assert((usdc * 101) / 100 >= usdc) by (nonlinear_arith)
        requires
            usdc > 0,
    ;
    assert(payout_cap(xlm) >= xlm);
    assert(payout_cap(usdc) >= usdc);
}

/// A withdrawal never pays, of either token on its own, more than 101% of
/// what the position deposited of that token: a successful withdrawal pays
/// `100 * xlm_amount <= 101 * xlm_deposited` and
/// `100 * usdc_amount <= 101 * usdc_deposited`, and a request that passes
/// every other check but whose proportional payout `lp * reserve / total`
/// exceeds that bound on either token alone fails with
/// `InsufficientBalance` (as long as `101 * deposited` fits in `i128`).
pub proof fn law_withdrawal_capped_per_token(
    lp_tokens: i128,
    kyc: Result<(), PeerXError>,
    pos: LPPosition,
    pool: PoolState,
    xlm_balance: i128,
    usdc_balance: i128,
)
    requires
        pos.xlm_deposited * 101 <= i128::MAX,
        pos.usdc_deposited * 101 <= i128::MAX,
    ensures
        remove_liquidity_spec(lp_tokens, kyc, Some(pos), pool, xlm_balance, usdc_balance) matches Ok(plan)
            ==> 100 * plan.xlm_amount <= 101 * pos.xlm_deposited && 100 * plan.usdc_amount <= 101
            * pos.usdc_deposited,
        ({
            let t = pool.total_lp_tokens as int;
            let x = (lp_tokens * pool.xlm) / t;
            let u = (lp_tokens * pool.usdc) / t;
            &&& kyc is Ok
            &&& 0 < lp_tokens <= pos.lp_tokens_minted
            &&& t > 0
            &&& pool.xlm >= 0 && pool.usdc >= 0
            &&& lp_tokens * pool.xlm <= u128::MAX && lp_tokens * pool.usdc <= u128::MAX
            &&& 0 < x <= i128::MAX && 0 < u <= i128::MAX
            &&& (100 * x > 101 * pos.xlm_deposited || 100 * u > 101 * pos.usdc_deposited)
        }) ==> remove_liquidity_spec(lp_tokens, kyc, Some(pos), pool, xlm_balance, usdc_balance)
            == Err::<RemoveLiquidityPlan, PeerXError>(PeerXError::InsufficientBalance),
{
    let r = remove_liquidity_spec(lp_tokens, kyc, Some(pos), pool, xlm_balance, usdc_balance);
    let px = payout_spec(lp_tokens, pool.xlm, pool.total_lp_tokens);
    let pu = payout_spec(lp_tokens, pool.usdc, pool.total_lp_tokens);
    if r is Ok {
        lemma_cap_bound(pos.xlm_deposited, px as int);
        lemma_cap_bound(pos.usdc_deposited, pu as int);
    }
    if kyc is Ok && 0 < lp_tokens <= pos.lp_tokens_minted && pool.total_lp_tokens > 0 && pool.xlm >= 0
        && pool.usdc >= 0 && lp_tokens * pool.xlm <= u128::MAX && lp_tokens * pool.usdc <= u128::MAX {
        let t = pool.total_lp_tokens as int;
        assert(lp_tokens * pool.xlm >= 0 && lp_tokens * pool.usdc >= 0) by (nonlinear_arith)
            requires
                lp_tokens > 0,
                pool.xlm >= 0,
                pool.usdc >= 0,
        ;
        assert(clamp_u128((lp_tokens as u128) * (pool.xlm as u128)) == lp_tokens * pool.xlm);
        assert(clamp_u128((lp_tokens as u128) * (pool.usdc as u128)) == lp_tokens * pool.usdc);
        let x = (lp_tokens * pool.xlm) / t;
        let u = (lp_tokens * pool.usdc) / t;
        if 0 < x <= i128::MAX && 0 < u <= i128::MAX {
            assert(px == x);
            assert(pu == u);
            lemma_cap_bound(pos.xlm_deposited, x);
            lemma_cap_bound(pos.usdc_deposited, u);
        }
    }
}

/// For a deposit whose 101% fits in `i128`, a positive `x` is within the
/// cap of `deposited` exactly when `100 * x <= 101 * deposited`.
proof fn lemma_cap_bound(deposited: i128, x: int)
    requires
        deposited * 101 <= i128::MAX,
        x > 0,
    ensures
        (x <= payout_cap(deposited)) == (100 * x <= 101 * deposited),
{
    if deposited >= 0 {
        assert(payout_cap(deposited) == (deposited * 101) / 100);
        assert(x <= (deposited * 101) / 100 <==> 100 * x <= 101 * deposited) by (nonlinear_arith)
            requires
                deposited >= 0,
                x > 0,
        ;
    } else {
        assert(clamp_i128(deposited * 101) < 0);
        assert(payout_cap(deposited) <= 0);
    }
}

/// A successful deposit moves exactly the deposited amounts: the user's
/// balances fall by `xlm_amount` and `usdc_amount`, the XLM and USDCSIM
/// reserves grow by those same amounts, the LP supply grows by the minted
/// tokens (each as long as it fits in `i128`, which `add_liquidity`
/// requires), and the provider's position records the XLM deposit under XLM
/// and the USDCSIM deposit under USDCSIM — grown from an existing position
/// (when nothing saturates), or a new position for the user.
pub proof fn law_deposit_credits_each_token(
    xlm_amount: i128,
    usdc_amount: i128,
    user: Address,
    kyc: Result<(), PeerXError>,
    rate_limit_ok: bool,
    pool: PoolState,
    xlm_balance: i128,
    usdc_balance: i128,
    existing: Option<LPPosition>,
)
    ensures
        add_liquidity_spec(
            xlm_amount,
            usdc_amount,
            user,
            kyc,
            rate_limit_ok,
            pool,
            xlm_balance,
            usdc_balance,
            existing,
        ) matches Ok(plan) ==> {
            &&& plan.lp_tokens_minted > 0
            &&& plan.xlm_balance == xlm_balance - xlm_amount
            &&& plan.usdc_balance == usdc_balance - usdc_amount
            &&& pool.xlm + xlm_amount <= i128::MAX ==> plan.pool.xlm == pool.xlm + xlm_amount
            &&& pool.usdc + usdc_amount <= i128::MAX ==> plan.pool.usdc == pool.usdc + usdc_amount
            &&& pool.total_lp_tokens + plan.lp_tokens_minted <= i128::MAX ==> plan.pool.total_lp_tokens
                == pool.total_lp_tokens + plan.lp_tokens_minted
            &&& existing is None ==> plan.position.lp_address == user && plan.position.xlm_deposited
                == xlm_amount && plan.position.usdc_deposited == usdc_amount
                && plan.position.lp_tokens_minted == plan.lp_tokens_minted
            &&& existing matches Some(p) ==> {
                &&& plan.position.lp_address == p.lp_address
                &&& p.xlm_deposited + xlm_amount <= i128::MAX ==> plan.position.xlm_deposited
                    == p.xlm_deposited + xlm_amount
                &&& p.usdc_deposited + usdc_amount <= i128::MAX ==> plan.position.usdc_deposited
                    == p.usdc_deposited + usdc_amount
                &&& p.lp_tokens_minted + plan.lp_tokens_minted <= i128::MAX
                    ==> plan.position.lp_tokens_minted == p.lp_tokens_minted + plan.lp_tokens_minted
            }
        },
{
}

/// A successful withdrawal of `lp` of the `T` outstanding LP tokens pays the
/// proportional shares `lp * X / T` of the XLM reserve `X` and `lp * Y / T`
/// of the USDCSIM reserve `Y` (as long as the products fit in `i128`); both
/// are positive; the reserves fall by them, the LP supply falls to `T - lp`,
/// the user's XLM and USDCSIM balances rise by them, and the position loses
/// the burned tokens and the paid-out amounts of each token (when nothing
/// saturates).
pub proof fn law_withdrawal_moves_proportional_share(
    lp_tokens: i128,
    kyc: Result<(), PeerXError>,
    pos: LPPosition,
    pool: PoolState,
    xlm_balance: i128,
    usdc_balance: i128,
)
    ensures
        remove_liquidity_spec(lp_tokens, kyc, Some(pos), pool, xlm_balance, usdc_balance) matches Ok(plan)
            ==> {
            &&& kyc is Ok
            &&& 0 < lp_tokens <= pos.lp_tokens_minted
            &&& pool.total_lp_tokens > 0
            &&& plan.xlm_amount > 0 && plan.usdc_amount > 0
            &&& pool.xlm >= 0 && lp_tokens * pool.xlm <= i128::MAX ==> plan.xlm_amount == (lp_tokens
                * pool.xlm) / (pool.total_lp_tokens as int)
            &&& pool.usdc >= 0 && lp_tokens * pool.usdc <= i128::MAX ==> plan.usdc_amount == (lp_tokens
                * pool.usdc) / (pool.total_lp_tokens as int)
            &&& pool.xlm - plan.xlm_amount >= i128::MIN ==> plan.pool.xlm == pool.xlm - plan.xlm_amount
            &&& pool.usdc - plan.usdc_amount >= i128::MIN ==> plan.pool.usdc == pool.usdc - plan.usdc_amount
            &&& plan.pool.total_lp_tokens == pool.total_lp_tokens - lp_tokens
            &&& xlm_balance + plan.xlm_amount <= i128::MAX ==> plan.xlm_balance == xlm_balance + plan.xlm_amount
            &&& usdc_balance + plan.usdc_amount <= i128::MAX ==> plan.usdc_balance == usdc_balance
                + plan.usdc_amount
            &&& plan.position.lp_address == pos.lp_address
            &&& plan.position.lp_tokens_minted == pos.lp_tokens_minted - lp_tokens
            &&& pos.xlm_deposited - plan.xlm_amount >= i128::MIN ==> plan.position.xlm_deposited
                == pos.xlm_deposited - plan.xlm_amount
            &&& pos.usdc_deposited - plan.usdc_amount >= i128::MIN ==> plan.position.usdc_deposited
                == pos.usdc_deposited - plan.usdc_amount
        },
{
    if remove_liquidity_spec(lp_tokens, kyc, Some(pos), pool, xlm_balance, usdc_balance) is Ok {
        let t = pool.total_lp_tokens as int;
        if pool.xlm >= 0 && lp_tokens * pool.xlm <= i128::MAX {
            assert(lp_tokens * pool.xlm >= 0) by (nonlinear_arith)
                requires
                    lp_tokens > 0,
                    pool.xlm >= 0,
            ;
            assert(clamp_u128((lp_tokens as u128) * (pool.xlm as u128)) == lp_tokens * pool.xlm);
            assert((lp_tokens * pool.xlm) / t <= lp_tokens * pool.xlm) by (nonlinear_arith)
                requires
                    lp_tokens * pool.xlm >= 0,
                    t > 0,
            ;
            assert((lp_tokens * pool.xlm) / t >= 0) by (nonlinear_arith)
                requires
                    lp_tokens * pool.xlm >= 0,
                    t > 0,
            ;
        }
        if pool.usdc >= 0 && lp_tokens * pool.usdc <= i128::MAX {
            assert(lp_tokens * pool.usdc >= 0) by (nonlinear_arith)
                requires
                    lp_tokens > 0,
                    pool.usdc >= 0,
            ;
            assert(clamp_u128((lp_tokens as u128) * (pool.usdc as u128)) == lp_tokens * pool.usdc);
            assert((lp_tokens * pool.usdc) / t <= lp_tokens * pool.usdc) by (nonlinear_arith)
                requires
                    lp_tokens * pool.usdc >= 0,
                    t > 0,
            ;
            assert((lp_tokens * pool.usdc) / t >= 0) by (nonlinear_arith)
                requires
                    lp_tokens * pool.usdc >= 0,
                    t > 0,
            ;
        }
    }
}

/// The LP tokens a successful deposit mints: into an empty pool (no LP
/// supply), the integer square root of `xlm * usdc`; into a pool with supply
/// `T` and positive reserves `X` and `Y`, the smaller of the proportional
/// shares `xlm * T / X` and `usdc * T / Y` (as long as the products fit in
/// `i128`). A deposit that passes every other check but would mint nothing
/// fails with `InvalidAmount`.
pub proof fn law_deposit_mints_proportional_share(
    xlm_amount: i128,
    usdc_amount: i128,
    user: Address,
    kyc: Result<(), PeerXError>,
    rate_limit_ok: bool,
    pool: PoolState,
    xlm_balance: i128,
    usdc_balance: i128,
    existing: Option<LPPosition>,
)
    ensures
        add_liquidity_spec(
            xlm_amount,
            usdc_amount,
            user,
            kyc,
            rate_limit_ok,
            pool,
            xlm_balance,
            usdc_balance,
            existing,
        ) matches Ok(plan) ==> {
            &&& kyc is Ok && rate_limit_ok
            &&& 0 < xlm_amount <= xlm_balance && 0 < usdc_amount <= usdc_balance
            &&& pool.total_lp_tokens == 0 && xlm_amount * usdc_amount < u128::MAX ==> {
                let n = xlm_amount * usdc_amount;
                plan.lp_tokens_minted * plan.lp_tokens_minted <= n < (plan.lp_tokens_minted + 1) * (
                plan.lp_tokens_minted + 1)
            }
            &&& pool.total_lp_tokens > 0 && pool.xlm > 0 && pool.usdc > 0 && xlm_amount
                * pool.total_lp_tokens <= i128::MAX && usdc_amount * pool.total_lp_tokens <= i128::MAX
                ==> {
                let a = (xlm_amount * pool.total_lp_tokens) / (pool.xlm as int);
                let b = (usdc_amount * pool.total_lp_tokens) / (pool.usdc as int);
                plan.lp_tokens_minted == if a <= b { a } else { b }
            }
        },
        ({
            &&& kyc is Ok && rate_limit_ok
            &&& 0 < xlm_amount <= xlm_balance && 0 < usdc_amount <= usdc_balance
            &&& pool.total_lp_tokens > 0 && pool.xlm > 0 && pool.usdc > 0
            &&& xlm_amount * pool.total_lp_tokens <= i128::MAX && usdc_amount * pool.total_lp_tokens
                <= i128::MAX
            &&& ((xlm_amount * pool.total_lp_tokens) / (pool.xlm as int) == 0 || (usdc_amount
                * pool.total_lp_tokens) / (pool.usdc as int) == 0)
        }) ==> add_liquidity_spec(
            xlm_amount,
            usdc_amount,
            user,
            kyc,
            rate_limit_ok,
            pool,
            xlm_balance,
            usdc_balance,
            existing,
        ) == Err::<AddLiquidityPlan, PeerXError>(PeerXError::InvalidAmount),
{
    let t = pool.total_lp_tokens;
    if kyc is Ok && rate_limit_ok && 0 < xlm_amount <= xlm_balance && 0 < usdc_amount <= usdc_balance {
        if t == 0 && xlm_amount * usdc_amount < u128::MAX {
            law_first_deposit_mints_sqrt(xlm_amount, usdc_amount, pool);
        }
        if t > 0 && pool.xlm > 0 && pool.usdc > 0 && xlm_amount * t <= i128::MAX && usdc_amount * t
            <= i128::MAX {
            assert(xlm_amount * t > 0 && usdc_amount * t > 0) by (nonlinear_arith)
                requires
                    xlm_amount > 0,
                    usdc_amount > 0,
                    t > 0,
            ;
            assert(clamp_u128((xlm_amount as u128) * (t as u128)) == xlm_amount * t);
            assert(clamp_u128((usdc_amount as u128) * (t as u128)) == usdc_amount * t);
            let a = (xlm_amount * t) / (pool.xlm as int);
            let b = (usdc_amount * t) / (pool.usdc as int);
            assert(0 <= a <= xlm_amount * t && 0 <= b <= usdc_amount * t) by (nonlinear_arith)
                requires
                    a == (xlm_amount * t) / (pool.xlm as int),
                    b == (usdc_amount * t) / (pool.usdc as int),
                    pool.xlm >= 1,
                    pool.usdc >= 1,
                    xlm_amount * t > 0,
                    usdc_amount * t > 0,
            ;
            assert(share_spec(xlm_amount, t, pool.xlm) == a);
            assert(share_spec(usdc_amount, t, pool.usdc) == b);
        }
    }
}

/// Burning `lp` of `total` LP tokens pays the proportional share
/// `lp * reserve / total` of a reserve, which never exceeds the reserve (as
/// long as the product does not saturate).
pub proof fn law_withdrawal_is_proportional(lp: i128, reserve: i128, total: i128)
    requires
        0 < lp <= total,
        reserve >= 0,
        lp * reserve <= u128::MAX,
    ensures
        payout_spec(lp, reserve, total) == (lp * reserve) / (total as int),
        payout_spec(lp, reserve, total) <= reserve,
{
    assert(lp * reserve >= 0) by (nonlinear_arith)
        requires
            lp > 0,
            reserve >= 0,
    ;
    assert(clamp_u128((lp as u128) * (reserve as u128)) == lp * reserve);
    assert((lp * reserve) / (total as int) <= reserve) by (nonlinear_arith)
        requires
            0 < lp <= total,
            reserve >= 0,
    {
        assert(lp * reserve <= total * reserve);
    }
}

} // verus!
