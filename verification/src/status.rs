//! The lifecycle of a claim.

use vstd::prelude::*;

verus! {

/// Where a claim stands in its lifecycle.
///
/// A claim opens as `Pending`. Its provider decides it, to `Verified` or
/// `Rejected`; a verified claim becomes `Paid` when it is settled. A status
/// never moves back, and nothing leaves `Rejected` or `Paid`.
#[derive(Clone, Copy, Debug, PartialEq, Eq, Structural)]
pub enum ClaimStatus {
    /// Opened and awaiting the provider's decision.
    Pending,
    /// Accepted by the provider; payment may be settled.
    Verified,
    /// Settled: the provider has paid the patient.
    Paid,
    /// Declined by the provider.
    Rejected,
}

impl ClaimStatus {
    /// The steps of the lifecycle: whether `next` may directly follow `self`.
    pub open spec fn allows(self, next: ClaimStatus) -> bool {
        match self {
            ClaimStatus::Pending => next == ClaimStatus::Verified || next == ClaimStatus::Rejected,
            ClaimStatus::Verified => next == ClaimStatus::Paid,
            ClaimStatus::Paid => false,
            ClaimStatus::Rejected => false,
        }
    }

    /// Whether no step of the lifecycle leaves this status.
    pub open spec fn is_terminal(self) -> bool {
        self == ClaimStatus::Paid || self == ClaimStatus::Rejected
    }

    /// Whether a provider may decide a claim of this status as `decision`:
    /// the steps that leave `Pending`. The step to `Paid` is no decision; it
    /// is taken by the settlement that moves the funds.
    pub open spec fn decides(self, decision: ClaimStatus) -> bool {
        self == ClaimStatus::Pending && self.allows(decision)
    }

    /// Whether the lifecycle has a step from this status to `next`.
    pub fn can_transition_to(&self, next: ClaimStatus) -> (allowed: bool)
        ensures
            allowed == self.allows(next),
    {
        match self {
            ClaimStatus::Pending => next == ClaimStatus::Verified || next == ClaimStatus::Rejected,
            ClaimStatus::Verified => next == ClaimStatus::Paid,
            ClaimStatus::Paid => false,
            ClaimStatus::Rejected => false,
        }
    }

    /// Whether a provider may decide a claim of this status as `decision`.
    pub fn can_be_decided_as(&self, decision: ClaimStatus) -> (allowed: bool)
        ensures
            allowed == self.decides(decision),
    {
        match self {
            ClaimStatus::Pending => self.can_transition_to(decision),
            _ => false,
        }
    }
}

} // verus!
