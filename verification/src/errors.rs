//! The error catalog shared by the PeerX contract logic.
//!
//! Every error carries a stable numeric code (see [`PeerXError::code`]):
//!   1–9 admin / access control, 10–19 trading state, 100–109 validation,
//!   200–209 oracle / invariants, 300–309 rate limiting / slippage,
//!   400–409 liquidity pool, 500–519 KYC, 600–609 staking,
//!   700–709 emergency, 800–809 referrals, 1000–1009 treasury.
use vstd::prelude::*;

verus! {

/// Unified error type of the PeerX contract logic.
#[derive(Clone, Copy, Debug, PartialEq, Eq, Structural)]
pub enum PeerXError {
    /// The caller is not the configured admin.
    NotAdmin,
    /// The caller is not the configured read-only (auditor/dashboard) role.
    NotReadOnlyRole,
    /// Arguments for a read-only dispatch did not decode into the expected shape.
    InvalidReadArgs,
    /// The requested function is not on the read-only allowlist.
    UnsupportedReadOnlyFunction,
    /// Trading is paused.
    TradingPaused,
    /// The user is frozen.
    UserFrozen,
    /// The circuit breaker has tripped.
    CircuitBreakerTripped,
    /// An amount is zero, negative or otherwise unusable.
    InvalidAmount,
    /// An amount overflowed.
    AmountOverflow,
    /// A token symbol is not recognised.
    InvalidTokenSymbol,
    /// The swap pair is not supported.
    InvalidSwapPair,
    /// The balance does not cover the operation.
    InsufficientBalance,
    /// A swap of zero was requested.
    ZeroAmountSwap,
    /// A contract invariant does not hold.
    InvariantViolation,
    /// The oracle price is stale.
    StalePrice,
    /// The oracle price is invalid.
    InvalidPrice,
    /// No oracle price is set.
    PriceNotSet,
    /// The oracle is not configured.
    OracleNotConfigured,
    /// The oracle is not active.
    OracleNotActive,
    /// The circuit breaker is active.
    CircuitBreakerActive,
    /// The circuit breaker was triggered.
    CircuitBreakerTriggered,
    /// A configuration value is invalid.
    InvalidConfig,
    /// The rate limit is exceeded.
    RateLimitExceeded,
    /// The slippage tolerance is exceeded.
    SlippageExceeded,
    /// No liquidity position exists for the user.
    LPPositionNotFound,
    /// The position holds fewer LP tokens than requested.
    InsufficientLPTokens,
    /// KYC verification is required.
    KYCVerificationRequired,
    /// The caller is not a KYC operator.
    NotKYCOperator,
    /// The KYC status transition is not allowed.
    InvalidKYCStateTransition,
    /// A terminal KYC status cannot change without a governance override.
    KYCTerminalStateImmutable,
    /// An operator cannot verify itself.
    SelfVerificationNotAllowed,
    /// The governance override does not exist.
    KYCOverrideNotFound,
    /// The governance override timelock has not elapsed.
    KYCTimelockNotElapsed,
    /// The governance override was already executed.
    KYCOverrideAlreadyExecuted,
    /// The timelock duration is invalid.
    InvalidTimelockDuration,
    /// The pending KYC request expired.
    KYCRequestExpired,
    /// The expiry duration is invalid.
    InvalidExpiryDuration,
    /// KYC input data exceeds the allowed size.
    KYCDataTooLarge,
    /// The maximum number of KYC operators is registered.
    KYCOperatorLimitReached,
    /// The stake duration is not supported.
    InvalidStakeDuration,
    /// The stake does not exist.
    StakeNotFound,
    /// The stake is not active.
    StakeNotActive,
    /// The stake is still locked.
    StakeLocked,
    /// No bonuses can be claimed.
    NoClaimableBonuses,
    /// The bonus distribution is not due yet.
    DistributionTooEarly,
    /// The caller is not the emergency admin.
    NotEmergencyAdmin,
    /// A user cannot refer itself.
    SelfReferral,
    /// The user was already referred.
    AlreadyReferred,
    /// The referral would form a cycle.
    CircularReferral,
    /// A treasury amount is zero or negative.
    TreasuryInvalidAmount,
    /// The treasury balance does not cover the withdrawal.
    TreasuryInsufficientFunds,
    /// The withdrawal request does not exist.
    TreasuryWithdrawNotFound,
    /// The withdrawal request was already executed.
    TreasuryWithdrawAlreadyExecuted,
    /// The withdrawal timelock has not elapsed.
    TreasuryTimelockNotElapsed,
    /// The withdrawal phase is neither `request` nor `execute`.
    TreasuryInvalidPhase,
}

impl PeerXError {
    /// The numeric contract error code of this error.
    pub open spec fn spec_code(self) -> u32 {
        match self {
            PeerXError::NotAdmin => 1,
            PeerXError::NotReadOnlyRole => 2,
            PeerXError::InvalidReadArgs => 3,
            PeerXError::UnsupportedReadOnlyFunction => 4,
            PeerXError::TradingPaused => 10,
            PeerXError::UserFrozen => 11,
            PeerXError::CircuitBreakerTripped => 12,
            PeerXError::InvalidAmount => 100,
            PeerXError::AmountOverflow => 101,
            PeerXError::InvalidTokenSymbol => 102,
            PeerXError::InvalidSwapPair => 103,
            PeerXError::InsufficientBalance => 104,
            PeerXError::ZeroAmountSwap => 105,
            PeerXError::InvariantViolation => 200,
            PeerXError::StalePrice => 201,
            PeerXError::InvalidPrice => 202,
            PeerXError::PriceNotSet => 203,
            PeerXError::OracleNotConfigured => 204,
            PeerXError::OracleNotActive => 205,
            PeerXError::CircuitBreakerActive => 206,
            PeerXError::CircuitBreakerTriggered => 207,
            PeerXError::InvalidConfig => 208,
            PeerXError::RateLimitExceeded => 300,
            PeerXError::SlippageExceeded => 301,
            PeerXError::LPPositionNotFound => 400,
            PeerXError::InsufficientLPTokens => 401,
            PeerXError::KYCVerificationRequired => 500,
            PeerXError::NotKYCOperator => 501,
            PeerXError::InvalidKYCStateTransition => 502,
            PeerXError::KYCTerminalStateImmutable => 503,
            PeerXError::SelfVerificationNotAllowed => 504,
            PeerXError::KYCOverrideNotFound => 505,
            PeerXError::KYCTimelockNotElapsed => 506,
            PeerXError::KYCOverrideAlreadyExecuted => 507,
            PeerXError::InvalidTimelockDuration => 508,
            PeerXError::KYCRequestExpired => 509,
            PeerXError::InvalidExpiryDuration => 510,
            PeerXError::KYCDataTooLarge => 511,
            PeerXError::KYCOperatorLimitReached => 512,
            PeerXError::InvalidStakeDuration => 600,
            PeerXError::StakeNotFound => 601,
            PeerXError::StakeNotActive => 602,
            PeerXError::StakeLocked => 603,
            PeerXError::NoClaimableBonuses => 604,
            PeerXError::DistributionTooEarly => 605,
            PeerXError::NotEmergencyAdmin => 700,
            PeerXError::SelfReferral => 800,
            PeerXError::AlreadyReferred => 801,
            PeerXError::CircularReferral => 802,
            PeerXError::TreasuryInvalidAmount => 1000,
            PeerXError::TreasuryInsufficientFunds => 1001,
            PeerXError::TreasuryWithdrawNotFound => 1002,
            PeerXError::TreasuryWithdrawAlreadyExecuted => 1003,
            PeerXError::TreasuryTimelockNotElapsed => 1004,
            PeerXError::TreasuryInvalidPhase => 1005,
        }
    }

    /// The numeric contract error code of this error.
    pub fn code(&self) -> (r: u32)
        ensures
            r == self.spec_code(),
    {
        match self {
            PeerXError::NotAdmin => 1,
            PeerXError::NotReadOnlyRole => 2,
            PeerXError::InvalidReadArgs => 3,
            PeerXError::UnsupportedReadOnlyFunction => 4,
            PeerXError::TradingPaused => 10,
            PeerXError::UserFrozen => 11,
            PeerXError::CircuitBreakerTripped => 12,
            PeerXError::InvalidAmount => 100,
            PeerXError::AmountOverflow => 101,
            PeerXError::InvalidTokenSymbol => 102,
            PeerXError::InvalidSwapPair => 103,
            PeerXError::InsufficientBalance => 104,
            PeerXError::ZeroAmountSwap => 105,
            PeerXError::InvariantViolation => 200,
            PeerXError::StalePrice => 201,
            PeerXError::InvalidPrice => 202,
            PeerXError::PriceNotSet => 203,
            PeerXError::OracleNotConfigured => 204,
            PeerXError::OracleNotActive => 205,
            PeerXError::CircuitBreakerActive => 206,
            PeerXError::CircuitBreakerTriggered => 207,
            PeerXError::InvalidConfig => 208,
            PeerXError::RateLimitExceeded => 300,
            PeerXError::SlippageExceeded => 301,
            PeerXError::LPPositionNotFound => 400,
            PeerXError::InsufficientLPTokens => 401,
            PeerXError::KYCVerificationRequired => 500,
            PeerXError::NotKYCOperator => 501,
            PeerXError::InvalidKYCStateTransition => 502,
            PeerXError::KYCTerminalStateImmutable => 503,
            PeerXError::SelfVerificationNotAllowed => 504,
            PeerXError::KYCOverrideNotFound => 505,
            PeerXError::KYCTimelockNotElapsed => 506,
            PeerXError::KYCOverrideAlreadyExecuted => 507,
            PeerXError::InvalidTimelockDuration => 508,
            PeerXError::KYCRequestExpired => 509,
            PeerXError::InvalidExpiryDuration => 510,
            PeerXError::KYCDataTooLarge => 511,
            PeerXError::KYCOperatorLimitReached => 512,
            PeerXError::InvalidStakeDuration => 600,
            PeerXError::StakeNotFound => 601,
            PeerXError::StakeNotActive => 602,
            PeerXError::StakeLocked => 603,
            PeerXError::NoClaimableBonuses => 604,
            PeerXError::DistributionTooEarly => 605,
            PeerXError::NotEmergencyAdmin => 700,
            PeerXError::SelfReferral => 800,
            PeerXError::AlreadyReferred => 801,
            PeerXError::CircularReferral => 802,
            PeerXError::TreasuryInvalidAmount => 1000,
            PeerXError::TreasuryInsufficientFunds => 1001,
            PeerXError::TreasuryWithdrawNotFound => 1002,
            PeerXError::TreasuryWithdrawAlreadyExecuted => 1003,
            PeerXError::TreasuryTimelockNotElapsed => 1004,
            PeerXError::TreasuryInvalidPhase => 1005,
        }
    }

    /// The error that carries the given contract error code, if any.
    pub open spec fn spec_from_code(code: u32) -> Option<PeerXError> {
        if code == 1 {
            Some(PeerXError::NotAdmin)
        } else if code == 2 {
            Some(PeerXError::NotReadOnlyRole)
        } else if code == 3 {
            Some(PeerXError::InvalidReadArgs)
        } else if code == 4 {
            Some(PeerXError::UnsupportedReadOnlyFunction)
        } else if code == 10 {
            Some(PeerXError::TradingPaused)
        } else if code == 11 {
            Some(PeerXError::UserFrozen)
        } else if code == 12 {
            Some(PeerXError::CircuitBreakerTripped)
        } else if code == 100 {
            Some(PeerXError::InvalidAmount)
        } else if code == 101 {
            Some(PeerXError::AmountOverflow)
        } else if code == 102 {
            Some(PeerXError::InvalidTokenSymbol)
        } else if code == 103 {
            Some(PeerXError::InvalidSwapPair)
        } else if code == 104 {
            Some(PeerXError::InsufficientBalance)
        } else if code == 105 {
            Some(PeerXError::ZeroAmountSwap)
        } else if code == 200 {
            Some(PeerXError::InvariantViolation)
        } else if code == 201 {
            Some(PeerXError::StalePrice)
        } else if code == 202 {
            Some(PeerXError::InvalidPrice)
        } else if code == 203 {
            Some(PeerXError::PriceNotSet)
        } else if code == 204 {
            Some(PeerXError::OracleNotConfigured)
        } else if code == 205 {
            Some(PeerXError::OracleNotActive)
        } else if code == 206 {
            Some(PeerXError::CircuitBreakerActive)
        } else if code == 207 {
            Some(PeerXError::CircuitBreakerTriggered)
        } else if code == 208 {
            Some(PeerXError::InvalidConfig)
        } else if code == 300 {
            Some(PeerXError::RateLimitExceeded)
        } else if code == 301 {
            Some(PeerXError::SlippageExceeded)
        } else if code == 400 {
            Some(PeerXError::LPPositionNotFound)
        } else if code == 401 {
            Some(PeerXError::InsufficientLPTokens)
        } else if code == 500 {
            Some(PeerXError::KYCVerificationRequired)
        } else if code == 501 {
            Some(PeerXError::NotKYCOperator)
        } else if code == 502 {
            Some(PeerXError::InvalidKYCStateTransition)
        } else if code == 503 {
            Some(PeerXError::KYCTerminalStateImmutable)
        } else if code == 504 {
            Some(PeerXError::SelfVerificationNotAllowed)
        } else if code == 505 {
            Some(PeerXError::KYCOverrideNotFound)
        } else if code == 506 {
            Some(PeerXError::KYCTimelockNotElapsed)
        } else if code == 507 {
            Some(PeerXError::KYCOverrideAlreadyExecuted)
        } else if code == 508 {
            Some(PeerXError::InvalidTimelockDuration)
        } else if code == 509 {
            Some(PeerXError::KYCRequestExpired)
        } else if code == 510 {
            Some(PeerXError::InvalidExpiryDuration)
        } else if code == 511 {
            Some(PeerXError::KYCDataTooLarge)
        } else if code == 512 {
            Some(PeerXError::KYCOperatorLimitReached)
        } else if code == 600 {
            Some(PeerXError::InvalidStakeDuration)
        } else if code == 601 {
            Some(PeerXError::StakeNotFound)
        } else if code == 602 {
            Some(PeerXError::StakeNotActive)
        } else if code == 603 {
            Some(PeerXError::StakeLocked)
        } else if code == 604 {
            Some(PeerXError::NoClaimableBonuses)
        } else if code == 605 {
            Some(PeerXError::DistributionTooEarly)
        } else if code == 700 {
            Some(PeerXError::NotEmergencyAdmin)
        } else if code == 800 {
            Some(PeerXError::SelfReferral)
        } else if code == 801 {
            Some(PeerXError::AlreadyReferred)
        } else if code == 802 {
            Some(PeerXError::CircularReferral)
        } else if code == 1000 {
            Some(PeerXError::TreasuryInvalidAmount)
        } else if code == 1001 {
            Some(PeerXError::TreasuryInsufficientFunds)
        } else if code == 1002 {
            Some(PeerXError::TreasuryWithdrawNotFound)
        } else if code == 1003 {
            Some(PeerXError::TreasuryWithdrawAlreadyExecuted)
        } else if code == 1004 {
            Some(PeerXError::TreasuryTimelockNotElapsed)
        } else if code == 1005 {
            Some(PeerXError::TreasuryInvalidPhase)
        } else {
            None
        }
    }

    /// The error that carries the given contract error code, if any.
    pub fn from_code(code: u32) -> (r: Option<PeerXError>)
        ensures
            r == Self::spec_from_code(code),
    {
        if code == 1 {
            Some(PeerXError::NotAdmin)
        } else if code == 2 {
            Some(PeerXError::NotReadOnlyRole)
        } else if code == 3 {
            Some(PeerXError::InvalidReadArgs)
        } else if code == 4 {
            Some(PeerXError::UnsupportedReadOnlyFunction)
        } else if code == 10 {
            Some(PeerXError::TradingPaused)
        } else if code == 11 {
            Some(PeerXError::UserFrozen)
        } else if code == 12 {
            Some(PeerXError::CircuitBreakerTripped)
        } else if code == 100 {
            Some(PeerXError::InvalidAmount)
        } else if code == 101 {
            Some(PeerXError::AmountOverflow)
        } else if code == 102 {
            Some(PeerXError::InvalidTokenSymbol)
        } else if code == 103 {
            Some(PeerXError::InvalidSwapPair)
        } else if code == 104 {
            Some(PeerXError::InsufficientBalance)
        } else if code == 105 {
            Some(PeerXError::ZeroAmountSwap)
        } else if code == 200 {
            Some(PeerXError::InvariantViolation)
        } else if code == 201 {
            Some(PeerXError::StalePrice)
        } else if code == 202 {
            Some(PeerXError::InvalidPrice)
        } else if code == 203 {
            Some(PeerXError::PriceNotSet)
        } else if code == 204 {
            Some(PeerXError::OracleNotConfigured)
        } else if code == 205 {
            Some(PeerXError::OracleNotActive)
        } else if code == 206 {
            Some(PeerXError::CircuitBreakerActive)
        } else if code == 207 {
            Some(PeerXError::CircuitBreakerTriggered)
        } else if code == 208 {
            Some(PeerXError::InvalidConfig)
        } else if code == 300 {
            Some(PeerXError::RateLimitExceeded)
        } else if code == 301 {
            Some(PeerXError::SlippageExceeded)
        } else if code == 400 {
            Some(PeerXError::LPPositionNotFound)
        } else if code == 401 {
            Some(PeerXError::InsufficientLPTokens)
        } else if code == 500 {
            Some(PeerXError::KYCVerificationRequired)
        } else if code == 501 {
            Some(PeerXError::NotKYCOperator)
        } else if code == 502 {
            Some(PeerXError::InvalidKYCStateTransition)
        } else if code == 503 {
            Some(PeerXError::KYCTerminalStateImmutable)
        } else if code == 504 {
            Some(PeerXError::SelfVerificationNotAllowed)
        } else if code == 505 {
            Some(PeerXError::KYCOverrideNotFound)
        } else if code == 506 {
            Some(PeerXError::KYCTimelockNotElapsed)
        } else if code == 507 {
            Some(PeerXError::KYCOverrideAlreadyExecuted)
        } else if code == 508 {
            Some(PeerXError::InvalidTimelockDuration)
        } else if code == 509 {
            Some(PeerXError::KYCRequestExpired)
        } else if code == 510 {
            Some(PeerXError::InvalidExpiryDuration)
        } else if code == 511 {
            Some(PeerXError::KYCDataTooLarge)
        } else if code == 512 {
            Some(PeerXError::KYCOperatorLimitReached)
        } else if code == 600 {
            Some(PeerXError::InvalidStakeDuration)
        } else if code == 601 {
            Some(PeerXError::StakeNotFound)
        } else if code == 602 {
            Some(PeerXError::StakeNotActive)
        } else if code == 603 {
            Some(PeerXError::StakeLocked)
        } else if code == 604 {
            Some(PeerXError::NoClaimableBonuses)
        } else if code == 605 {
            Some(PeerXError::DistributionTooEarly)
        } else if code == 700 {
            Some(PeerXError::NotEmergencyAdmin)
        } else if code == 800 {
            Some(PeerXError::SelfReferral)
        } else if code == 801 {
            Some(PeerXError::AlreadyReferred)
        } else if code == 802 {
            Some(PeerXError::CircularReferral)
        } else if code == 1000 {
            Some(PeerXError::TreasuryInvalidAmount)
        } else if code == 1001 {
            Some(PeerXError::TreasuryInsufficientFunds)
        } else if code == 1002 {
            Some(PeerXError::TreasuryWithdrawNotFound)
        } else if code == 1003 {
            Some(PeerXError::TreasuryWithdrawAlreadyExecuted)
        } else if code == 1004 {
            Some(PeerXError::TreasuryTimelockNotElapsed)
        } else if code == 1005 {
            Some(PeerXError::TreasuryInvalidPhase)
        } else {
            None
        }
    }
}

/// Alias kept for callers that name the error `ContractError`.
pub type ContractError = PeerXError;

/// One failed guard of a swap pre-flight check.
#[derive(Clone, Copy, Debug, PartialEq, Eq, Structural)]
pub enum SwapChecklistError {
    /// The balance check failed.
    BalanceCheckFailed,
    /// The user is not KYC-verified.
    KYCNotVerified,
    /// The rate limit is exceeded.
    RateLimitExceeded,
    /// The slippage check failed.
    SlippageCheckFailed,
    /// The oracle price is stale.
    OracleStale,
    /// The pool reserves are insufficient.
    PoolDepthInsufficient,
    /// The circuit breaker is active.
    CircuitBreakerActive,
    /// Trading is paused.
    TradingPaused,
    /// The swap pair is invalid.
    InvalidSwapPair,
}

impl SwapChecklistError {
    /// The numeric contract error code of this error.
    pub open spec fn spec_code(self) -> u32 {
        match self {
            SwapChecklistError::BalanceCheckFailed => 900,
            SwapChecklistError::KYCNotVerified => 901,
            SwapChecklistError::RateLimitExceeded => 902,
            SwapChecklistError::SlippageCheckFailed => 903,
            SwapChecklistError::OracleStale => 904,
            SwapChecklistError::PoolDepthInsufficient => 905,
            SwapChecklistError::CircuitBreakerActive => 906,
            SwapChecklistError::TradingPaused => 907,
            SwapChecklistError::InvalidSwapPair => 908,
        }
    }

    /// The numeric contract error code of this error.
    pub fn code(&self) -> (r: u32)
        ensures
            r == self.spec_code(),
    {
        match self {
            SwapChecklistError::BalanceCheckFailed => 900,
            SwapChecklistError::KYCNotVerified => 901,
            SwapChecklistError::RateLimitExceeded => 902,
            SwapChecklistError::SlippageCheckFailed => 903,
            SwapChecklistError::OracleStale => 904,
            SwapChecklistError::PoolDepthInsufficient => 905,
            SwapChecklistError::CircuitBreakerActive => 906,
            SwapChecklistError::TradingPaused => 907,
            SwapChecklistError::InvalidSwapPair => 908,
        }
    }

    /// The error that carries the given contract error code, if any.
    pub open spec fn spec_from_code(code: u32) -> Option<SwapChecklistError> {
        if code == 900 {
            Some(SwapChecklistError::BalanceCheckFailed)
        } else if code == 901 {
            Some(SwapChecklistError::KYCNotVerified)
        } else if code == 902 {
            Some(SwapChecklistError::RateLimitExceeded)
        } else if code == 903 {
            Some(SwapChecklistError::SlippageCheckFailed)
        } else if code == 904 {
            Some(SwapChecklistError::OracleStale)
        } else if code == 905 {
            Some(SwapChecklistError::PoolDepthInsufficient)
        } else if code == 906 {
            Some(SwapChecklistError::CircuitBreakerActive)
        } else if code == 907 {
            Some(SwapChecklistError::TradingPaused)
        } else if code == 908 {
            Some(SwapChecklistError::InvalidSwapPair)
        } else {
            None
        }
    }

    /// The error that carries the given contract error code, if any.
    pub fn from_code(code: u32) -> (r: Option<SwapChecklistError>)
        ensures
            r == Self::spec_from_code(code),
    {
        if code == 900 {
            Some(SwapChecklistError::BalanceCheckFailed)
        } else if code == 901 {
            Some(SwapChecklistError::KYCNotVerified)
        } else if code == 902 {
            Some(SwapChecklistError::RateLimitExceeded)
        } else if code == 903 {
            Some(SwapChecklistError::SlippageCheckFailed)
        } else if code == 904 {
            Some(SwapChecklistError::OracleStale)
        } else if code == 905 {
            Some(SwapChecklistError::PoolDepthInsufficient)
        } else if code == 906 {
            Some(SwapChecklistError::CircuitBreakerActive)
        } else if code == 907 {
            Some(SwapChecklistError::TradingPaused)
        } else if code == 908 {
            Some(SwapChecklistError::InvalidSwapPair)
        } else {
            None
        }
    }
}

/// Aggregate result of a pre-flight swap validation: each field is `true`
/// when the corresponding on-chain guard passes.
#[derive(Clone, Copy, Debug, PartialEq, Eq, Structural)]
pub struct SwapChecklist {
    /// The user's balance of the input token covers the amount.
    pub balance_ok: bool,
    /// The user is KYC-verified.
    pub kyc_ok: bool,
    /// The user's swap rate limit leaves room for one more swap.
    pub rate_limit_ok: bool,
    /// The estimated slippage is within the configured maximum.
    pub slippage_ok: bool,
    /// The stored oracle price for the pair is fresh, or no price is stored
    /// and the 1:1 fallback applies.
    pub oracle_fresh_ok: bool,
    /// The output-side reserve covers the amount.
    pub pool_depth_ok: bool,
    /// The circuit breaker is not active.
    pub circuit_breaker_ok: bool,
    /// Trading is not paused.
    pub trading_paused_ok: bool,
    /// The token pair is a valid swap pair.
    pub pair_ok: bool,
    /// The concentration and position limits allow the swap.
    pub risk_limits_ok: bool,
}

/// Distinct errors carry distinct codes: decoding a code gives back the error.
pub proof fn law_error_codes_are_distinct(e: PeerXError)
    ensures
        PeerXError::spec_from_code(e.spec_code()) == Some(e),
{
}

/// Distinct checklist errors carry distinct codes: decoding a code gives back the error.
pub proof fn law_checklist_codes_are_distinct(e: SwapChecklistError)
    ensures
        SwapChecklistError::spec_from_code(e.spec_code()) == Some(e),
{
}

/// Decoding a code and encoding the result gives back the code.
pub proof fn law_error_from_code_inverse(code: u32)
    ensures
        PeerXError::spec_from_code(code) matches Some(e) ==> e.spec_code() == code,
{
}

} // verus!
