//! The KYC review life cycle as a finite-state machine.
//!
//! A user starts `Unverified`, submits (`Pending`), is taken into review
//! (`InReview`), may be asked for more information and resubmit
//! (`AdditionalInfoRequired` → `InReview`), and ends `Verified` or
//! `Rejected`. The two end states are terminal: no transition leaves them.
use vstd::prelude::*;

verus! {

/// The KYC status of a user.
#[derive(Clone, Copy, Debug, PartialEq, Eq, Structural)]
pub enum KYCStatus {
    /// No submission yet.
    Unverified,
    /// Submitted, waiting for review.
    Pending,
    /// Under review by an operator.
    InReview,
    /// The operator asked for more information.
    AdditionalInfoRequired,
    /// Approved (terminal).
    Verified,
    /// Rejected (terminal).
    Rejected,
}

impl KYCStatus {
    /// The transition relation of the review life cycle.
    pub open spec fn allows(self, to: KYCStatus) -> bool {
        match (self, to) {
            (KYCStatus::Unverified, KYCStatus::Pending) => true,
            (KYCStatus::Pending, KYCStatus::InReview) => true,
            (KYCStatus::InReview, KYCStatus::AdditionalInfoRequired) => true,
            (KYCStatus::InReview, KYCStatus::Verified) => true,
            (KYCStatus::InReview, KYCStatus::Rejected) => true,
            (KYCStatus::AdditionalInfoRequired, KYCStatus::InReview) => true,
            _ => false,
        }
    }

    /// Whether the status is final (`Verified` or `Rejected`).
    pub open spec fn spec_is_terminal(self) -> bool {
        self is Verified || self is Rejected
    }

    /// Whether moving from this status to `to` is an allowed transition.
    pub fn can_transition_to(&self, to: &KYCStatus) -> (r: bool)
        ensures
            r == self.allows(*to),
    {
        match (self, to) {
            (KYCStatus::Unverified, KYCStatus::Pending) => true,
            (KYCStatus::Pending, KYCStatus::InReview) => true,
            (KYCStatus::InReview, KYCStatus::AdditionalInfoRequired) => true,
            (KYCStatus::InReview, KYCStatus::Verified) => true,
            (KYCStatus::InReview, KYCStatus::Rejected) => true,
            (KYCStatus::AdditionalInfoRequired, KYCStatus::InReview) => true,
            _ => false,
        }
    }

    /// Whether the status is final (`Verified` or `Rejected`).
    pub fn is_terminal(&self) -> (r: bool)
        ensures
            r == self.spec_is_terminal(),
    {
        match self {
            KYCStatus::Verified | KYCStatus::Rejected => true,
            _ => false,
        }
    }
}

/// Terminal statuses are immutable: no transition leaves `Verified` or
/// `Rejected`, and every other status can move on.
pub proof fn law_terminal_states_are_final(from: KYCStatus, to: KYCStatus)
    ensures
        from.spec_is_terminal() ==> !from.allows(to),
        !from.spec_is_terminal() ==> exists|next: KYCStatus| #[trigger] from.allows(next),
{
    if !from.spec_is_terminal() {
        match from {
            KYCStatus::Unverified => assert(from.allows(KYCStatus::Pending)),
            KYCStatus::Pending => assert(from.allows(KYCStatus::InReview)),
            KYCStatus::InReview => assert(from.allows(KYCStatus::Verified)),
            KYCStatus::AdditionalInfoRequired => assert(from.allows(KYCStatus::InReview)),
            _ => {},
        }
    }
}

/// No status moves to itself, and verification is reachable only through
/// review: `Verified` and `Rejected` are entered from `InReview` alone.
pub proof fn law_decisions_only_from_review(from: KYCStatus, to: KYCStatus)
    ensures
        !from.allows(from),
        from.allows(to) && to.spec_is_terminal() ==> from is InReview,
{
}

} // verus!
