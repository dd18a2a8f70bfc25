//! The records that the ledger keeps, and the rules each record enforces on
//! its own.

use crate::error::ErrorCode;
use crate::pubkey::Pubkey;
use crate::status::ClaimStatus;
use vstd::prelude::*;

verus! {

/// The identity of a patient, bound to the credential that registered it.
#[derive(Debug, PartialEq, Eq)]
pub struct PatientAccount {
    pub authority: Pubkey,
    pub did: String,
}

/// What a [`PatientAccount`] holds.
pub struct PatientAccountView {
    pub authority: Pubkey,
    pub did: Seq<char>,
}

impl View for PatientAccount {
    type V = PatientAccountView;

    open spec fn view(&self) -> PatientAccountView {
        PatientAccountView { authority: self.authority, did: self.did@ }
    }
}

impl PatientAccount {
    /// The identity of the patient `authority`, with the given identifier.
    pub fn new(authority: Pubkey, did: String) -> (account: PatientAccount)
        ensures
            account@ == (PatientAccountView { authority, did: did@ }),
    {
        PatientAccount { authority, did }
    }
}

impl Clone for PatientAccount {
    fn clone(&self) -> (copy: PatientAccount)
        ensures
            copy@ == self@,
    {
        PatientAccount { authority: self.authority, did: self.did.clone() }
    }
}

/// The identity of a provider, bound to the credential that registered it.
#[derive(Debug, PartialEq, Eq)]
pub struct ProviderAccount {
    pub authority: Pubkey,
    pub did: String,
    pub name: String,
}

/// What a [`ProviderAccount`] holds.
pub struct ProviderAccountView {
    pub authority: Pubkey,
    pub did: Seq<char>,
    pub name: Seq<char>,
}

impl View for ProviderAccount {
    type V = ProviderAccountView;

    open spec fn view(&self) -> ProviderAccountView {
        ProviderAccountView { authority: self.authority, did: self.did@, name: self.name@ }
    }
}

impl ProviderAccount {
    /// The identity of the provider `authority`, with the given identifier
    /// and display name.
    pub fn new(authority: Pubkey, did: String, name: String) -> (account: ProviderAccount)
        ensures
            account@ == (ProviderAccountView { authority, did: did@, name: name@ }),
    {
        ProviderAccount { authority, did, name }
    }
}

impl Clone for ProviderAccount {
    fn clone(&self) -> (copy: ProviderAccount)
        ensures
            copy@ == self@,
    {
        ProviderAccount {
            authority: self.authority,
            did: self.did.clone(),
            name: self.name.clone(),
        }
    }
}

/// An encrypted health record, stored under the hash of its content.
#[derive(Debug, PartialEq, Eq)]
pub struct HealthDataAccount {
    pub owner: Pubkey,
    pub data_hash: String,
    pub encrypted_data: String,
    pub timestamp: i64,
}

/// What a [`HealthDataAccount`] holds.
pub struct HealthDataAccountView {
    pub owner: Pubkey,
    pub data_hash: Seq<char>,
    pub encrypted_data: Seq<char>,
    pub timestamp: i64,
}

impl View for HealthDataAccount {
    type V = HealthDataAccountView;

    open spec fn view(&self) -> HealthDataAccountView {
        HealthDataAccountView {
            owner: self.owner,
            data_hash: self.data_hash@,
            encrypted_data: self.encrypted_data@,
            timestamp: self.timestamp,
        }
    }
}

impl HealthDataAccount {
    /// The record of `owner` for the payload `encrypted_data`, stored at
    /// `timestamp` under `data_hash`. The hash is taken as given: it is not
    /// recomputed from the payload.
    pub fn new(
        owner: Pubkey,
        data_hash: String,
        encrypted_data: String,
        timestamp: i64,
    ) -> (account: HealthDataAccount)
        ensures
            account@ == (HealthDataAccountView {
                owner,
                data_hash: data_hash@,
                encrypted_data: encrypted_data@,
                timestamp,
            }),
    {
        HealthDataAccount { owner, data_hash, encrypted_data, timestamp }
    }
}

impl Clone for HealthDataAccount {
    fn clone(&self) -> (copy: HealthDataAccount)
        ensures
            copy@ == self@,
    {
        HealthDataAccount {
            owner: self.owner,
            data_hash: self.data_hash.clone(),
            encrypted_data: self.encrypted_data.clone(),
            timestamp: self.timestamp,
        }
    }
}

/// A request that `provider` pay `amount` to `patient`, tied to a health
/// record.
#[derive(Debug, PartialEq, Eq)]
pub struct ClaimAccount {
    pub claim_id: String,
    pub patient: Pubkey,
    pub provider: Pubkey,
    pub health_data_hash: String,
    pub amount: u64,
    pub status: ClaimStatus,
    pub timestamp: i64,
}

/// What a [`ClaimAccount`] holds.
pub struct ClaimAccountView {
    pub claim_id: Seq<char>,
    pub patient: Pubkey,
    pub provider: Pubkey,
    pub health_data_hash: Seq<char>,
    pub amount: u64,
    pub status: ClaimStatus,
    pub timestamp: i64,
}

impl View for ClaimAccount {
    type V = ClaimAccountView;

    open spec fn view(&self) -> ClaimAccountView {
        ClaimAccountView {
            claim_id: self.claim_id@,
            patient: self.patient,
            provider: self.provider,
            health_data_hash: self.health_data_hash@,
            amount: self.amount,
            status: self.status,
            timestamp: self.timestamp,
        }
    }
}

impl ClaimAccountView {
    /// A claim as it is opened: pending.
    pub open spec fn opened(
        claim_id: Seq<char>,
        patient: Pubkey,
        provider: Pubkey,
        health_data_hash: Seq<char>,
        amount: u64,
        timestamp: i64,
    ) -> ClaimAccountView {
        ClaimAccountView {
            claim_id,
            patient,
            provider,
            health_data_hash,
            amount,
            status: ClaimStatus::Pending,
            timestamp,
        }
    }

    /// The claim with its status replaced.
    pub open spec fn with_status(self, status: ClaimStatus) -> ClaimAccountView {
        ClaimAccountView { status, ..self }
    }

    /// The provider's decision on the claim. Only the provider recorded on
    /// the claim may decide it, which is asked first; and only a pending
    /// claim is decided, as verified or as rejected. No decision marks a
    /// claim as paid or reopens one that was decided.
    pub open spec fn adjudicate(
        self,
        acting_provider: Pubkey,
        status: ClaimStatus,
    ) -> Result<ClaimAccountView, ErrorCode> {
        if acting_provider != self.provider {
            Err(ErrorCode::Unauthorized)
        } else if !self.status.decides(status) {
            Err(ErrorCode::InvalidTransition)
        } else {
            Ok(self.with_status(status))
        }
    }

    /// Whether the claim may be paid by `acting_provider` to
    /// `acting_patient`, and if so how much is due. The provider is checked
    /// first, then the patient, then the status.
    pub open spec fn authorize_payment(
        self,
        acting_provider: Pubkey,
        acting_patient: Pubkey,
    ) -> Result<u64, ErrorCode> {
        if acting_provider != self.provider {
            Err(ErrorCode::Unauthorized)
        } else if acting_patient != self.patient {
            Err(ErrorCode::InvalidPatient)
        } else if self.status != ClaimStatus::Verified {
            Err(ErrorCode::ClaimNotVerified)
        } else {
            Ok(self.amount)
        }
    }

    /// The claim once its payment has been made: a verified claim becomes
    /// paid, any other is refused.
    pub open spec fn settle(self) -> Result<ClaimAccountView, ErrorCode> {
        if !self.status.allows(ClaimStatus::Paid) {
            Err(ErrorCode::ClaimNotVerified)
        } else {
            Ok(self.with_status(ClaimStatus::Paid))
        }
    }
}

impl ClaimAccount {
    /// Opens a claim: the new claim is pending.
    pub fn new(
        claim_id: String,
        patient: Pubkey,
        provider: Pubkey,
        health_data_hash: String,
        amount: u64,
        timestamp: i64,
    ) -> (claim: ClaimAccount)
        ensures
            claim@ == ClaimAccountView::opened(
                claim_id@,
                patient,
                provider,
                health_data_hash@,
                amount,
                timestamp,
            ),
    {
        ClaimAccount {
            claim_id,
            patient,
            provider,
            health_data_hash,
            amount,
            status: ClaimStatus::Pending,
            timestamp,
        }
    }

    /// Records the decision of `acting_provider` on the claim.
    ///
    /// Refused as `Unauthorized` unless `acting_provider` is the provider
    /// recorded on the claim, and then as `InvalidTransition` unless the
    /// claim is pending and `status` is `Verified` or `Rejected`. A refused
    /// decision leaves the claim as it was.
    pub fn adjudicate(
        &mut self,
        acting_provider: &Pubkey,
        status: ClaimStatus,
    ) -> (result: Result<(), ErrorCode>)
        ensures
            old(self)@.adjudicate(*acting_provider, status) == match result {
                Ok(()) => Ok(final(self)@),
                Err(e) => Err(e),
            },
            result is Err ==> *final(self) == *old(self),
    {
        if self.provider != *acting_provider {
            return Err(ErrorCode::Unauthorized);
        }
        if !self.status.can_be_decided_as(status) {
            return Err(ErrorCode::InvalidTransition);
        }
        self.status = status;
        Ok(())
    }

    /// Checks that the claim may be paid by `acting_provider` to
    /// `acting_patient`, and returns the amount due.
    pub fn authorize_payment(
        &self,
        acting_provider: &Pubkey,
        acting_patient: &Pubkey,
    ) -> (result: Result<u64, ErrorCode>)
        ensures
            result == self@.authorize_payment(*acting_provider, *acting_patient),
    {
        if self.provider != *acting_provider {
            return Err(ErrorCode::Unauthorized);
        }
        if self.patient != *acting_patient {
            return Err(ErrorCode::InvalidPatient);
        }
        if self.status != ClaimStatus::Verified {
            return Err(ErrorCode::ClaimNotVerified);
        }
        Ok(self.amount)
    }

    /// Marks a verified claim as paid; any other claim is refused as
    /// `ClaimNotVerified` and left as it was.
    pub fn settle(&mut self) -> (result: Result<(), ErrorCode>)
        ensures
            old(self)@.settle() == match result {
                Ok(()) => Ok(final(self)@),
                Err(e) => Err(e),
            },
            result is Err ==> *final(self) == *old(self),
    {
        if !self.status.can_transition_to(ClaimStatus::Paid) {
            return Err(ErrorCode::ClaimNotVerified);
        }
        self.status = ClaimStatus::Paid;
        Ok(())
    }
}

impl Clone for ClaimAccount {
    fn clone(&self) -> (copy: ClaimAccount)
        ensures
            copy@ == self@,
    {
        ClaimAccount {
            claim_id: self.claim_id.clone(),
            patient: self.patient,
            provider: self.provider,
            health_data_hash: self.health_data_hash.clone(),
            amount: self.amount,
            status: self.status,
            timestamp: self.timestamp,
        }
    }
}

} // verus!
