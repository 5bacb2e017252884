use std::cell::Cell;

use peerx::contract::{pause_trading, resume_trading, set_admin, AccessControl, CounterContract, WithdrawPhase, CONTRACT_VERSION};
use peerx::errors::{PeerXError, SwapChecklistError};
use peerx::preflight::PreflightInputs;
use peerx::types::Address;
use peerx::waitlist::{CreditWaitlist, PingContract};

fn admin() -> Address {
    Address::new("GADMIN".to_string())
}

fn other() -> Address {
    Address::new("GOTHER".to_string())
}

fn contract() -> CounterContract {
    CounterContract::new(AccessControl::from_stored(Some(admin()), false, Some(Address::new("GAUDITOR".to_string()))))
}

#[test]
fn pause_and_resume_are_admin_only() {
    let mut c = contract();
    assert_eq!(pause_trading(&mut c.access, &other()), Err(PeerXError::NotAdmin));
    assert!(!c.access.is_paused());
    assert_eq!(pause_trading(&mut c.access, &admin()), Ok(true));
    assert!(c.access.is_paused());
    assert_eq!(resume_trading(&mut c.access, &other()), Err(PeerXError::NotAdmin));
    assert!(c.access.is_paused());
    assert_eq!(resume_trading(&mut c.access, &admin()), Ok(true));
    assert!(!c.access.is_paused());
}

#[test]
fn admin_checks_fail_closed_without_an_admin() {
    let mut c = CounterContract::new(AccessControl::from_stored(None, false, None));
    assert_eq!(pause_trading(&mut c.access, &admin()), Err(PeerXError::NotAdmin));
    assert_eq!(c.access.require_admin(&admin()), Err(PeerXError::NotAdmin));
}

#[test]
fn read_only_role_check() {
    let c = contract();
    assert_eq!(c.access.require_read_only_role(&Address::new("GAUDITOR".to_string())), Ok(()));
    assert_eq!(c.access.require_read_only_role(&other()), Err(PeerXError::NotReadOnlyRole));
    let bare = AccessControl::from_stored(Some(admin()), false, None);
    assert_eq!(bare.require_read_only_role(&admin()), Err(PeerXError::NotReadOnlyRole));
}

#[test]
fn set_admin_consults_the_rate_limiter_after_the_admin_check() {
    let mut c = contract();
    let calls = Cell::new(0);
    assert_eq!(
        set_admin(&mut c.access, &other(), other(), || {
            calls.set(calls.get() + 1);
            Ok(())
        }),
        Err(PeerXError::NotAdmin)
    );
    assert_eq!(calls.get(), 0);
    assert_eq!(set_admin(&mut c.access, &admin(), other(), || Err(PeerXError::RateLimitExceeded)), Err(PeerXError::RateLimitExceeded));
    assert_eq!(c.access.require_admin(&admin()), Ok(()));
    assert_eq!(set_admin(&mut c.access, &admin(), other(), || Ok(())), Ok(()));
    assert_eq!(c.access.require_admin(&other()), Ok(()));
    assert_eq!(c.access.require_admin(&admin()), Err(PeerXError::NotAdmin));
}

#[test]
fn initialize_writes_the_version_once() {
    let mut c = contract();
    assert_eq!(c.get_contract_version(), 0);
    c.initialize();
    assert_eq!(c.get_contract_version(), CONTRACT_VERSION);
    c.version = 7;
    c.initialize();
    assert_eq!(c.get_contract_version(), 7);
}

#[test]
fn cache_administration_is_admin_only() {
    let mut c = contract();
    assert_eq!(c.set_cache_ttl(&other(), 5), Err(PeerXError::NotAdmin));
    assert_eq!(c.cache.get_cache_ttl(), 60);
    assert_eq!(c.set_cache_ttl(&admin(), 5), Ok(()));
    assert_eq!(c.cache.get_cache_ttl(), 5);
    let u = other();
    c.get_portfolio(&u, 1, (1, 1));
    assert_eq!(c.clear_cache(&other()), Err(PeerXError::NotAdmin));
    assert_eq!(c.get_portfolio(&u, 1, (2, 2)), (1, 1));
    assert_eq!(c.clear_cache(&admin()), Ok(()));
    assert_eq!(c.get_portfolio(&u, 1, (2, 2)), (2, 2));
    assert_eq!(c.get_top_traders(1, 1, vec![(u.clone(), 5), (admin(), 4)]), vec![(u, 5)]);
    assert_eq!(c.get_cache_stats(), (1, 3, 2_500));
}

#[test]
fn treasury_withdraw_in_two_phases() {
    let mut c = contract();
    c.treasury_deposit(1_000, "penalty".to_string()).unwrap();
    assert_eq!(WithdrawPhase::from_symbol("request"), Some(WithdrawPhase::Request));
    assert_eq!(WithdrawPhase::from_symbol("execute"), Some(WithdrawPhase::Execute));
    assert_eq!(WithdrawPhase::from_symbol("exec"), None);
    let dest = Address::new("GDEST".to_string());
    assert_eq!(c.treasury_withdraw(&other(), "request", 400, dest.clone(), 0, 0), Err(PeerXError::NotAdmin));
    let id = c.treasury_withdraw(&admin(), "request", 400, dest.clone(), 0, 0).unwrap();
    assert_eq!(c.treasury_withdraw(&admin(), "execute", 0, dest.clone(), id, 10), Err(PeerXError::TreasuryTimelockNotElapsed));
    assert_eq!(c.treasury_withdraw(&admin(), "execute", 0, dest.clone(), id, 172_800), Ok(id));
    assert_eq!(c.treasury_balance(), 600);
    assert_eq!(c.treasury_withdraw(&admin(), "execute", 0, dest, id, 172_800), Err(PeerXError::TreasuryWithdrawAlreadyExecuted));
}

#[test]
fn misspelt_withdraw_phase_is_refused_and_changes_nothing() {
    let mut c = contract();
    c.treasury_deposit(1_000, "penalty".to_string()).unwrap();
    let dest = Address::new("GDEST".to_string());
    let id = c.treasury_withdraw(&admin(), "request", 400, dest.clone(), 0, 0).unwrap();
    let stats = c.treasury.get_stats();
    assert_eq!(c.treasury_withdraw(&admin(), "exec", 0, dest.clone(), id, 172_800), Err(PeerXError::TreasuryInvalidPhase));
    assert_eq!(c.treasury_withdraw(&admin(), "Execute", 0, dest.clone(), id, 172_800), Err(PeerXError::TreasuryInvalidPhase));
    assert_eq!(c.treasury_withdraw(&admin(), "", 400, dest.clone(), 0, 172_800), Err(PeerXError::TreasuryInvalidPhase));
    assert_eq!(c.treasury.get_stats(), stats);
    assert!(!c.treasury.get_withdraw_request(id).unwrap().executed);
    assert_eq!(c.treasury.next_request_id(), 1);
    // A caller that is not the admin is refused first.
    assert_eq!(c.treasury_withdraw(&other(), "exec", 0, dest, id, 172_800), Err(PeerXError::NotAdmin));
    assert_eq!(PeerXError::TreasuryInvalidPhase.code(), 1005);
    assert_eq!(PeerXError::from_code(1005), Some(PeerXError::TreasuryInvalidPhase));
}

#[test]
fn non_role_address_cannot_invoke_read() {
    let c = contract();
    let impostor = Address::new("GIMPOSTOR".to_string());
    assert_eq!(c.access.require_read_only_role(&impostor), Err(PeerXError::NotReadOnlyRole));
}

#[test]
fn preflight_uses_the_contract_pause_and_slippage_limit() {
    let mut c = contract();
    let inputs = PreflightInputs {
        pair_valid: true,
        circuit_breaker_active: false,
        kyc_verified: true,
        balance: 1_000,
        rate_limit_ok: true,
        concentration_exceeded: false,
        position_limit_ok: true,
        direct_price: None,
        inverse_price: None,
        now: 0,
        from_is_xlm: true,
        xlm_liquidity: 10_000,
        usdc_liquidity: 10_000,
    };
    assert!(c.preflight_swap(&inputs, 100).slippage_ok);
    c.set_max_slippage_bps(100);
    assert!(!c.preflight_swap(&inputs, 100).slippage_ok);
    pause_trading(&mut c.access, &admin()).unwrap();
    let checklist = c.preflight_swap(&inputs, 100);
    assert!(checklist.pair_ok && !checklist.trading_paused_ok && !checklist.kyc_ok);
}

#[test]
fn error_codes_are_stable_and_decodable() {
    assert_eq!(PeerXError::NotAdmin.code(), 1);
    assert_eq!(PeerXError::InvalidAmount.code(), 100);
    assert_eq!(PeerXError::KYCVerificationRequired.code(), 500);
    assert_eq!(PeerXError::KYCOperatorLimitReached.code(), 512);
    assert_eq!(PeerXError::CircularReferral.code(), 802);
    assert_eq!(PeerXError::TreasuryTimelockNotElapsed.code(), 1004);
    assert_eq!(PeerXError::from_code(301), Some(PeerXError::SlippageExceeded));
    assert_eq!(PeerXError::from_code(5), None);
    assert_eq!(SwapChecklistError::InvalidSwapPair.code(), 908);
    assert_eq!(SwapChecklistError::from_code(900), Some(SwapChecklistError::BalanceCheckFailed));
}

#[test]
fn waitlist_starts_empty_and_ping_answers_pong() {
    let w = CreditWaitlist::initialize(admin(), 25);
    assert_eq!(w, CreditWaitlist { admin: admin(), batch_size: 25, queue_start: 0, queue_end: 0 });
    assert_eq!(PingContract::ping(), "pong");
}
