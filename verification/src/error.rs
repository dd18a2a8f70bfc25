//! The ways an instruction can fail.

use vstd::prelude::*;

verus! {

/// Why an instruction was refused. A refused instruction changes nothing.
#[derive(Clone, Copy, Debug, PartialEq, Eq, Structural)]
pub enum ErrorCode {
    /// The acting provider is not the provider recorded on the claim.
    Unauthorized,
    /// The acting patient is not the patient recorded on the claim.
    InvalidPatient,
    /// Payment was attempted on a claim that is not verified.
    ClaimNotVerified,
    /// A record already lives at the address the new record would take.
    AlreadyExists,
    /// The payer's balance does not cover the amount of the claim.
    InsufficientFunds,
    /// No claim lives under the given identifier.
    ClaimNotFound,
    /// The lifecycle has no such step for a provider's decision: only a
    /// pending claim is decided, and only as verified or rejected.
    InvalidTransition,
}

/// The number from which the codes of this program's errors count up.
pub const ERROR_CODE_OFFSET: u32 = 6000;

impl ErrorCode {
    /// The position of the error among the program's errors.
    pub open spec fn ordinal(self) -> nat {
        match self {
            ErrorCode::Unauthorized => 0,
            ErrorCode::InvalidPatient => 1,
            ErrorCode::ClaimNotVerified => 2,
            ErrorCode::AlreadyExists => 3,
            ErrorCode::InsufficientFunds => 4,
            ErrorCode::ClaimNotFound => 5,
            ErrorCode::InvalidTransition => 6,
        }
    }

    /// The text shown to a user for the error.
    pub open spec fn message_text(self) -> Seq<char> {
        match self {
            ErrorCode::Unauthorized => "You are not authorized to perform this action."@,
            ErrorCode::InvalidPatient => "The patient account does not match the claim."@,
            ErrorCode::ClaimNotVerified => "The claim must be verified before payment."@,
            ErrorCode::AlreadyExists => "An account already exists at this address."@,
            ErrorCode::InsufficientFunds => "The provider cannot cover the amount of the claim."@,
            ErrorCode::ClaimNotFound => "No claim exists under this identifier."@,
            ErrorCode::InvalidTransition => "The claim cannot move to this status."@,
        }
    }

    /// The numeric code reported for the error: the offset plus its position.
    pub fn code(&self) -> (code: u32)
        ensures
            code == ERROR_CODE_OFFSET + self.ordinal(),
    {
        match self {
            ErrorCode::Unauthorized => ERROR_CODE_OFFSET,
            ErrorCode::InvalidPatient => ERROR_CODE_OFFSET + 1,
            ErrorCode::ClaimNotVerified => ERROR_CODE_OFFSET + 2,
            ErrorCode::AlreadyExists => ERROR_CODE_OFFSET + 3,
            ErrorCode::InsufficientFunds => ERROR_CODE_OFFSET + 4,
            ErrorCode::ClaimNotFound => ERROR_CODE_OFFSET + 5,
            ErrorCode::InvalidTransition => ERROR_CODE_OFFSET + 6,
        }
    }

    /// The message reported for the error.
    pub fn message(&self) -> (text: &'static str)
        ensures
            text@ == self.message_text(),
    {
        match self {
            ErrorCode::Unauthorized => "You are not authorized to perform this action.",
            ErrorCode::InvalidPatient => "The patient account does not match the claim.",
            ErrorCode::ClaimNotVerified => "The claim must be verified before payment.",
            ErrorCode::AlreadyExists => "An account already exists at this address.",
            ErrorCode::InsufficientFunds => "The provider cannot cover the amount of the claim.",
            ErrorCode::ClaimNotFound => "No claim exists under this identifier.",
            ErrorCode::InvalidTransition => "The claim cannot move to this status.",
        }
    }
}

} // verus!
