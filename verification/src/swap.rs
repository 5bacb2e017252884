//! The arithmetic and input checks of a swap: the trading fee taken from the
//! input, and the inputs that the non-panicking swap accepts.
use vstd::prelude::*;
use crate::arith::div_toward_zero;
use crate::contract::CounterContract;
use crate::errors::PeerXError;
use crate::preflight::{all_green, checklist_spec, PreflightInputs};
use crate::types::Token;

verus! {

/// Basis points in one whole.
pub const BPS_DENOMINATOR: i128 = 10_000;

/// The fee charged on `amount` at `fee_bps` basis points, rounded toward zero.
pub open spec fn fee_spec(amount: i128, fee_bps: u32) -> int {
    div_toward_zero(amount * fee_bps, 10_000)
}

/// Splits a swap input into the fee (`amount * fee_bps / 10_000`, rounded
/// toward zero) and the part that is swapped.
pub fn swap_fee(amount: i128, fee_bps: u32) -> (r: (i128, i128))
    requires
        i128::MIN <= amount * fee_bps <= i128::MAX,
        i128::MIN <= amount - fee_spec(amount, fee_bps) <= i128::MAX,
    ensures
        r.0 == fee_spec(amount, fee_bps),
        r.1 == amount - r.0,
{
    let scaled = amount * (fee_bps as i128);
    let fee_amount = match scaled.checked_div(BPS_DENOMINATOR) {
        Some(v) => v,
        None => 0,
    };
    (fee_amount, amount - fee_amount)
}

/// A fee of at most 1% on a non-negative amount is non-negative, at most 1%
/// of the amount, and never more than the amount.
pub proof fn law_fee_within_bounds(amount: i128, fee_bps: u32)
    requires
        amount >= 0,
        fee_bps <= 100,
    ensures
        0 <= fee_spec(amount, fee_bps) <= amount / 100,
        fee_spec(amount, fee_bps) <= amount,
{
    assert(0 <= amount * fee_bps <= amount * 100) by (nonlinear_arith)
        requires
            amount >= 0,
            fee_bps <= 100,
    ;
    assert((amount * fee_bps) / 10_000 <= amount / 100) by (nonlinear_arith)
        requires
            0 <= amount * fee_bps <= amount * 100,
            amount >= 0,
    {
        assert((amount * 100) / 10_000 == amount / 100);
    }
}

/// Whether the non-panicking swap accepts a request: both tokens are the
/// pool's (`XLM`, `USDCSIM`), they differ, and the amount is positive.
pub open spec fn safe_swap_accepts_spec(from: Token, to: Token, amount: i128) -> bool {
    from.is_pool_token() && to.is_pool_token() && from != to && amount > 0
}

/// Whether the non-panicking swap accepts a request; a refused request is
/// counted as a failed order and yields 0.
pub fn safe_swap_accepts(from: &Token, to: &Token, amount: i128) -> (r: bool)
    ensures
        r == safe_swap_accepts_spec(*from, *to, amount),
{
    let tokens_ok = match (from, to) {
        (Token::Xlm, Token::Xlm) | (Token::Xlm, Token::UsdcSim) | (Token::UsdcSim, Token::Xlm) | (
            Token::UsdcSim,
            Token::UsdcSim,
        ) => true,
        _ => false,
    };
    let pair_ok = match (from, to) {
        (Token::Xlm, Token::Xlm) | (Token::UsdcSim, Token::UsdcSim) => false,
        _ => true,
    };
    let amount_ok = amount > 0;
    tokens_ok && pair_ok && amount_ok
}

/// What an accepted swap takes from its input before the pool exchange.
#[derive(Clone, Copy, Debug, PartialEq, Eq, Structural)]
pub struct SwapPlan {
    /// The fee collected from the input (debited only when positive).
    pub fee_amount: i128,
    /// The part of the input that goes through the pool.
    pub swap_amount: i128,
}

/// What the non-panicking swap does with a request.
#[derive(Clone, Copy, Debug, PartialEq, Eq, Structural)]
pub enum SafeSwapDecision {
    /// The swap fails: one failed order is counted, a fail event is
    /// published and 0 is returned.
    FailedOrder,
    /// The swap runs for the whole amount.
    Execute,
}

/// Whether the fee arithmetic of a swap of `amount` at `fee_bps` stays within
/// `i128`.
pub open spec fn swap_fee_fits(amount: i128, fee_bps: u32) -> bool {
    &&& i128::MIN <= amount * fee_bps <= i128::MAX
    &&& i128::MIN <= amount - fee_spec(amount, fee_bps) <= i128::MAX
}

/// The outcome of a swap of `amount` given the outcomes of its guards: the
/// first failing guard's error, or the fee and the amount swapped.
pub open spec fn swap_spec(
    amount: i128,
    kyc: Result<(), PeerXError>,
    rate_limit_ok: bool,
    circuit_breaker_active: bool,
    concentration_exceeded: bool,
    position_limit_ok: bool,
    fee_bps: u32,
) -> Result<SwapPlan, PeerXError> {
    match kyc {
        Err(e) => Err(e),
        Ok(_) => if !rate_limit_ok {
            Err(PeerXError::RateLimitExceeded)
        } else if circuit_breaker_active {
            Err(PeerXError::CircuitBreakerActive)
        } else if concentration_exceeded || !position_limit_ok {
            Err(PeerXError::InvalidAmount)
        } else {
            Ok(
                SwapPlan {
                    fee_amount: fee_spec(amount, fee_bps) as i128,
                    swap_amount: (amount - fee_spec(amount, fee_bps)) as i128,
                },
            )
        },
    }
}

/// What the non-panicking swap decides for a request.
pub open spec fn safe_swap_spec(from: Token, to: Token, amount: i128, verified: bool) -> SafeSwapDecision {
    if verified && safe_swap_accepts_spec(from, to, amount) {
        SafeSwapDecision::Execute
    } else {
        SafeSwapDecision::FailedOrder
    }
}

impl CounterContract {
    /// Decides a swap of `amount`. `kyc` is the outcome of the user's
    /// authentication and KYC check; `rate_limit_ok` that of the swap rate
    /// limit for the user's tier; `circuit_breaker_active`,
    /// `concentration_exceeded` and `position_limit_ok` those of the risk
    /// checks; `fee_bps` the user's effective fee.
    ///
    /// Errors, in this order: the KYC error; `RateLimitExceeded`;
    /// `CircuitBreakerActive`; `InvalidAmount` when the concentration limit is
    /// exceeded; `InvalidAmount` when the position limit is exceeded.
    /// Otherwise the fee is `amount * fee_bps / 10_000` rounded toward zero
    /// and the rest is swapped.
    pub fn swap(
        amount: i128,
        kyc: Result<(), PeerXError>,
        rate_limit_ok: bool,
        circuit_breaker_active: bool,
        concentration_exceeded: bool,
        position_limit_ok: bool,
        fee_bps: u32,
    ) -> (r: Result<SwapPlan, PeerXError>)
        requires
            kyc is Ok && rate_limit_ok && !circuit_breaker_active && !concentration_exceeded
                && position_limit_ok ==> swap_fee_fits(amount, fee_bps),
        ensures
            r == swap_spec(
                amount,
                kyc,
                rate_limit_ok,
                circuit_breaker_active,
                concentration_exceeded,
                position_limit_ok,
                fee_bps,
            ),
    {
        if let Err(e) = kyc {
            return Err(e);
        }
        if !rate_limit_ok {
            return Err(PeerXError::RateLimitExceeded);
        }
        if circuit_breaker_active {
            return Err(PeerXError::CircuitBreakerActive);
        }
        if concentration_exceeded {
            return Err(PeerXError::InvalidAmount);
        }
        if !position_limit_ok {
            return Err(PeerXError::InvalidAmount);
        }
        let (fee_amount, swap_amount) = swap_fee(amount, fee_bps);
        Ok(SwapPlan { fee_amount, swap_amount })
    }

    /// Decides what the non-panicking swap does: a request from a user who is
    /// not authenticated and verified, or one that `safe_swap_accepts`
    /// refuses, is a failed order; otherwise the swap runs.
    pub fn safe_swap(from: &Token, to: &Token, amount: i128, verified: bool) -> (r: SafeSwapDecision)
        ensures
            r == safe_swap_spec(*from, *to, amount, verified),
    {
        if !verified {
            return SafeSwapDecision::FailedOrder;
        }
        if !safe_swap_accepts(from, to, amount) {
            return SafeSwapDecision::FailedOrder;
        }
        SafeSwapDecision::Execute
    }
}

/// A fully green pre-flight checklist means the swap succeeds: when every
/// field of the checklist for `inputs` is true, a swap on the same state —
/// whose KYC check passes for the verified user who authorises it, and whose
/// rate limit, circuit breaker and risk limits are those the pre-flight read —
/// returns `Ok` (as long as its fee arithmetic stays within `i128`).
pub proof fn law_green_preflight_means_swap_succeeds(
    inputs: PreflightInputs,
    amount: i128,
    paused: bool,
    stored_max_slippage_bps: Option<u32>,
    kyc: Result<(), PeerXError>,
    fee_bps: u32,
)
    requires
        all_green(checklist_spec(inputs, amount, paused, stored_max_slippage_bps)),
        inputs.kyc_verified ==> kyc is Ok,
        swap_fee_fits(amount, fee_bps),
    ensures
        swap_spec(
            amount,
            kyc,
            inputs.rate_limit_ok,
            inputs.circuit_breaker_active,
            inputs.concentration_exceeded,
            inputs.position_limit_ok,
            fee_bps,
        ) is Ok,
{
}

/// The non-panicking swap runs only between the pool's two tokens: it
/// executes exactly when the user is verified, the source and the target are
/// each `XLM` or `USDCSIM`, they differ, and the amount is positive; every
/// other request is a failed order.
pub proof fn law_safe_swap_only_between_pool_tokens(from: Token, to: Token, amount: i128, verified: bool)
    ensures
        safe_swap_spec(from, to, amount, verified) == SafeSwapDecision::Execute <==> {
            &&& verified
            &&& from is Xlm || from is UsdcSim
            &&& to is Xlm || to is UsdcSim
            &&& from != to
            &&& amount > 0
        },
        safe_swap_spec(from, to, amount, verified) is Execute || safe_swap_spec(from, to, amount, verified)
            is FailedOrder,
{
}

/// A swap succeeds exactly when its KYC check, rate limit, circuit breaker,
/// concentration limit and position limit all pass, and the first failing
/// guard's error is returned otherwise. A successful swap splits the input
/// into a fee and a swapped part that add up to the input, the fee being
/// `amount * fee_bps / 10_000` rounded toward zero: for a non-negative amount
/// it is the floor of that quotient, and at 100 basis points or less it is at
/// most 1% of the amount.
pub proof fn law_swap_guards_and_fee_split(
    amount: i128,
    kyc: Result<(), PeerXError>,
    rate_limit_ok: bool,
    circuit_breaker_active: bool,
    concentration_exceeded: bool,
    position_limit_ok: bool,
    fee_bps: u32,
)
    ensures
        ({
            let r = swap_spec(
                amount,
                kyc,
                rate_limit_ok,
                circuit_breaker_active,
                concentration_exceeded,
                position_limit_ok,
                fee_bps,
            );
            &&& r is Ok <==> (kyc is Ok && rate_limit_ok && !circuit_breaker_active && !concentration_exceeded
                && position_limit_ok)
            &&& kyc matches Err(e) ==> r == Err::<SwapPlan, PeerXError>(e)
            &&& kyc is Ok && !rate_limit_ok ==> r == Err::<SwapPlan, PeerXError>(PeerXError::RateLimitExceeded)
            &&& kyc is Ok && rate_limit_ok && circuit_breaker_active ==> r == Err::<SwapPlan, PeerXError>(
                PeerXError::CircuitBreakerActive,
            )
            &&& kyc is Ok && rate_limit_ok && !circuit_breaker_active && (concentration_exceeded
                || !position_limit_ok) ==> r == Err::<SwapPlan, PeerXError>(PeerXError::InvalidAmount)
            &&& swap_fee_fits(amount, fee_bps) ==> (r matches Ok(plan) ==> {
                &&& plan.fee_amount + plan.swap_amount == amount
                &&& amount >= 0 ==> plan.fee_amount == (amount * fee_bps) / 10_000
                &&& amount < 0 ==> plan.fee_amount == -(((-amount) * fee_bps) / 10_000)
                &&& amount >= 0 && fee_bps <= 100 ==> 0 <= plan.fee_amount && 100 * plan.fee_amount
                    <= amount
            })
        }),
{
    assert((-amount) * fee_bps == -(amount * fee_bps)) by (nonlinear_arith);
    if amount >= 0 {
        assert(amount * fee_bps >= 0) by (nonlinear_arith)
            requires
                amount >= 0,
        ;
    } else {
        assert(amount * fee_bps <= 0) by (nonlinear_arith)
            requires
                amount < 0,
        ;
    }
    if amount >= 0 && fee_bps <= 100 {
        law_fee_within_bounds(amount, fee_bps);
        assert(100 * (amount / 100) <= amount) by (nonlinear_arith)
            requires
                amount >= 0,
        ;
    }
}

} // verus!