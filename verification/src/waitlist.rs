//! The credit-feature waitlist's configuration.
use vstd::prelude::*;
use crate::types::Address;

verus! {

/// The waitlist's stored configuration: its admin, how many users a release
/// lets in, and the bounds of the queue (`queue_start..queue_end`).
#[derive(Debug, PartialEq, Eq)]
pub struct CreditWaitlist {
    /// The admin allowed to release batches.
    pub admin: Address,
    /// Users released per batch.
    pub batch_size: u32,
    /// Position of the first waiting user.
    pub queue_start: u32,
    /// Position after the last waiting user.
    pub queue_end: u32,
}

impl CreditWaitlist {
    /// Sets up the waitlist for `admin` (who must have authorized the call)
    /// with batches of `batch_size` and an empty queue.
    pub fn initialize(admin: Address, batch_size: u32) -> (w: CreditWaitlist)
        ensures
            w == (CreditWaitlist { admin, batch_size, queue_start: 0, queue_end: 0 }),
    {
        CreditWaitlist { admin, batch_size, queue_start: 0, queue_end: 0 }
    }
}

/// The deployment-check contract.
pub struct PingContract;

impl PingContract {
    /// Answers `pong`.
    pub fn ping() -> (r: String)
        ensures
            r@ == "pong"@,
    {
        String::from_str("pong")
    }
}

} // verus!
