use peerx::errors::PeerXError;
use peerx::treasury::{TreasuryManager, DEFAULT_TREASURY_TIMELOCK_SECS};
use peerx::types::Address;

fn generate_address(tag: &str) -> Address {
    Address::new(format!("G{}AAAAAAAAAAAAAAAAAAAAAAAAAAAAAAAAAAAAAAAAAAAAAAAA", tag))
}

fn tag(s: &str) -> String {
    s.to_string()
}

#[test]
fn deposit_increases_balance() {
    let mut t = TreasuryManager::new();

    t.deposit(1_000, tag("penalty")).unwrap();
    assert_eq!(t.balance(), 1_000);

    t.deposit(500, tag("manual")).unwrap();
    assert_eq!(t.balance(), 1_500);
}

#[test]
fn deposit_rejects_zero_or_negative() {
    let mut t = TreasuryManager::new();

    assert_eq!(t.deposit(0, tag("penalty")), Err(PeerXError::TreasuryInvalidAmount));
    assert_eq!(t.deposit(-1, tag("penalty")), Err(PeerXError::TreasuryInvalidAmount));
}

#[test]
fn request_withdraw_creates_record() {
    let mut t = TreasuryManager::new();
    let now = 0u64;

    let dest = generate_address("DEST");
    t.deposit(2_000, tag("penalty")).unwrap();
    let id = t.request_withdraw(500, dest.clone(), now).unwrap();

    let req = t.get_withdraw_request(id).unwrap();
    assert_eq!(req.amount, 500);
    assert_eq!(req.destination, dest);
    assert!(!req.executed);
    // Balance unchanged until execute
    assert_eq!(t.balance(), 2_000);
}

#[test]
fn request_withdraw_rejects_insufficient_funds() {
    let mut t = TreasuryManager::new();

    let dest = generate_address("DEST");
    t.deposit(100, tag("penalty")).unwrap();
    assert_eq!(t.request_withdraw(200, dest, 0), Err(PeerXError::TreasuryInsufficientFunds));
}

#[test]
fn execute_withdraw_before_timelock_fails() {
    let mut t = TreasuryManager::new();
    let mut now = 0u64;

    let dest = generate_address("DEST");
    t.deposit(1_000, tag("penalty")).unwrap();
    let id = t.request_withdraw(1_000, dest, now).unwrap();

    // Only advance 1 hour (< 48h default timelock)
    now += 3_600;

    assert_eq!(t.execute_withdraw(id, now), Err(PeerXError::TreasuryTimelockNotElapsed));
}

#[test]
fn execute_withdraw_after_timelock_succeeds() {
    let mut t = TreasuryManager::new();
    let mut now = 0u64;

    let dest = generate_address("DEST");
    t.deposit(1_000, tag("penalty")).unwrap();
    let id = t.request_withdraw(600, dest.clone(), now).unwrap();

    // Advance past the 48h default timelock
    now += DEFAULT_TREASURY_TIMELOCK_SECS + 1;

    let executed_req = t.execute_withdraw(id, now).unwrap();
    assert!(executed_req.executed);
    assert_eq!(executed_req.destination, dest);
    assert_eq!(t.balance(), 400);
}

#[test]
fn execute_withdraw_double_execution_fails() {
    let mut t = TreasuryManager::new();
    let mut now = 0u64;

    let dest = generate_address("DEST");
    t.deposit(1_000, tag("penalty")).unwrap();
    let id = t.request_withdraw(1_000, dest, now).unwrap();
    now += DEFAULT_TREASURY_TIMELOCK_SECS + 1;

    t.execute_withdraw(id, now).unwrap();
    assert_eq!(t.execute_withdraw(id, now), Err(PeerXError::TreasuryWithdrawAlreadyExecuted));
}

#[test]
fn get_stats_reflects_all_operations() {
    let mut t = TreasuryManager::new();
    let mut now = 0u64;

    let dest = generate_address("DEST");
    t.deposit(1_000, tag("penalty")).unwrap();
    t.deposit(200, tag("manual")).unwrap();

    let id = t.request_withdraw(300, dest, now).unwrap();
    now += DEFAULT_TREASURY_TIMELOCK_SECS + 1;
    t.execute_withdraw(id, now).unwrap();

    let (deposited, withdrawn, balance) = t.get_stats();
    assert_eq!(deposited, 1_200);
    assert_eq!(withdrawn, 300);
    assert_eq!(balance, 900);
}

#[test]
fn custom_timelock_is_respected() {
    let mut t = TreasuryManager::new();
    let mut now = 0u64;

    // Set a very short timelock of 10 seconds
    t.set_timelock_duration(10);

    let dest = generate_address("DEST");
    t.deposit(500, tag("penalty")).unwrap();
    let id = t.request_withdraw(500, dest, now).unwrap();

    // Should fail before 10s
    now += 5;
    assert_eq!(t.execute_withdraw(id, now), Err(PeerXError::TreasuryTimelockNotElapsed));

    // Should succeed after 10s
    now += 6; // total 11s
    t.execute_withdraw(id, now).unwrap();
    assert_eq!(t.balance(), 0);
}

#[test]
fn deposit_reports_source_amount_and_new_balance() {
    let mut t = TreasuryManager::new();
    t.deposit(700, tag("manual")).unwrap();
    let d = t.deposit(300, tag("penalty")).unwrap();
    assert_eq!(d.source, "penalty");
    assert_eq!(d.amount, 300);
    assert_eq!(d.new_balance, 1_000);
}

#[test]
fn unknown_request_is_not_found() {
    let mut t = TreasuryManager::new();
    assert_eq!(t.get_withdraw_request(0), Err(PeerXError::TreasuryWithdrawNotFound));
    assert_eq!(t.execute_withdraw(7, 1_000_000), Err(PeerXError::TreasuryWithdrawNotFound));
}

#[test]
fn request_ids_are_sequential_and_executable_after_is_saturating() {
    let mut t = TreasuryManager::new();
    t.deposit(1_000, tag("penalty")).unwrap();
    let a = t.request_withdraw(100, generate_address("A"), 0).unwrap();
    let b = t.request_withdraw(100, generate_address("B"), u64::MAX - 5).unwrap();
    assert_eq!((a, b), (0, 1));
    assert_eq!(t.get_withdraw_request(0).unwrap().executable_after, DEFAULT_TREASURY_TIMELOCK_SECS);
    assert_eq!(t.get_withdraw_request(1).unwrap().executable_after, u64::MAX);
    assert_eq!(t.request_withdraw(0, generate_address("C"), 0), Err(PeerXError::TreasuryInvalidAmount));
}

#[test]
fn execute_fails_when_balance_was_reduced_since_the_request() {
    let mut t = TreasuryManager::new();
    t.set_timelock_duration(0);
    t.deposit(1_000, tag("penalty")).unwrap();
    let first = t.request_withdraw(800, generate_address("A"), 0).unwrap();
    let second = t.request_withdraw(800, generate_address("B"), 0).unwrap();
    t.execute_withdraw(first, 0).unwrap();
    assert_eq!(t.execute_withdraw(second, 0), Err(PeerXError::TreasuryInsufficientFunds));
    assert_eq!(t.balance(), 200);
}

#[test]
fn ledger_stays_consistent_over_a_session() {
    let mut t = TreasuryManager::new();
    t.set_timelock_duration(5);
    t.deposit(1_000, tag("penalty")).unwrap();
    let id = t.request_withdraw(250, generate_address("A"), 10).unwrap();
    t.deposit(40, tag("manual")).unwrap();
    t.execute_withdraw(id, 15).unwrap();
    let (deposited, withdrawn, balance) = t.get_stats();
    assert_eq!(balance, deposited - withdrawn);
    assert_eq!(balance, 790);
}
