//! The instructions of the program: who must be named for each, how much
//! room its new record needs, and what it does to the ledger.

use crate::error::ErrorCode;
use crate::ledger::Ledger;
use crate::model::{outcome, InstructionView};
use crate::pubkey::{Pubkey, PUBKEY_BYTES};
use crate::state::{ClaimAccount, HealthDataAccount, PatientAccount, ProviderAccount};
use crate::status::ClaimStatus;
use vstd::prelude::*;

verus! {

/// The bytes that mark the kind of a record, at its start.
pub const DISCRIMINATOR_LEN: usize = 8;

/// The bytes that give the length of a string, before its text.
pub const STRING_PREFIX_LEN: usize = 4;

/// The bytes of an amount or of a timestamp.
pub const WORD_LEN: usize = 8;

/// The bytes of a status.
pub const STATUS_LEN: usize = 1;

/// The bytes that a claim keeps for the text of its health record's hash.
pub const HASH_CAPACITY: usize = 64;

/// The bytes that every record keeps to spare.
pub const HEADROOM: usize = 64;

/// `bytes`, if an account can be that large.
pub open spec fn fitting(bytes: nat) -> Option<usize> {
    if bytes <= usize::MAX {
        Some(bytes as usize)
    } else {
        None
    }
}

/// The accounts named to register a patient.
#[derive(Clone, Copy, Debug)]
pub struct InitializePatient {
    /// The credential that registers, and signs for, the patient.
    pub authority: Pubkey,
}

impl InitializePatient {
    /// The bytes of a patient's record besides the text of its identifier:
    /// the discriminator, the authority, the length of the identifier, and
    /// the headroom.
    pub const FIXED_LEN: usize = DISCRIMINATOR_LEN + PUBKEY_BYTES + STRING_PREFIX_LEN + HEADROOM;

    /// The room for a patient whose identifier takes `did_len` bytes.
    pub open spec fn space_for(did_len: nat) -> nat {
        Self::FIXED_LEN as nat + did_len
    }

    /// The bytes to allocate for the patient's record; `None` if no account
    /// can be that large.
    pub fn space(did: &str) -> (space: Option<usize>)
        ensures
            space == fitting(Self::space_for(did.len() as nat)),
    {
        did.len().checked_add(Self::FIXED_LEN)
    }
}

/// The accounts named to register a provider.
#[derive(Clone, Copy, Debug)]
pub struct InitializeProvider {
    /// The credential that registers, and signs for, the provider.
    pub authority: Pubkey,
}

impl InitializeProvider {
    /// The bytes of a provider's record besides the text of its identifier
    /// and of its name: the discriminator, the authority, the lengths of the
    /// two strings, and the headroom.
    pub const FIXED_LEN: usize = DISCRIMINATOR_LEN + PUBKEY_BYTES + STRING_PREFIX_LEN
        + STRING_PREFIX_LEN + HEADROOM;

    /// The room for a provider whose identifier and name take `did_len` and
    /// `name_len` bytes.
    pub open spec fn space_for(did_len: nat, name_len: nat) -> nat {
        Self::FIXED_LEN as nat + did_len + name_len
    }

    /// The bytes to allocate for the provider's record; `None` if no account
    /// can be that large.
    pub fn space(did: &str, name: &str) -> (space: Option<usize>)
        ensures
            space == fitting(Self::space_for(did.len() as nat, name.len() as nat)),
    {
        match did.len().checked_add(name.len()) {
            Some(strings) => strings.checked_add(Self::FIXED_LEN),
            None => None,
        }
    }
}

/// The accounts named to store a health record.
#[derive(Clone, Copy, Debug)]
pub struct SubmitHealthData {
    /// The credential that owns, and signs for, the record.
    pub owner: Pubkey,
}

impl SubmitHealthData {
    /// The bytes of a health record besides the text of its hash and of its
    /// payload: the discriminator, the owner, the lengths of the two
    /// strings, the timestamp, and the headroom.
    pub const FIXED_LEN: usize = DISCRIMINATOR_LEN + PUBKEY_BYTES + STRING_PREFIX_LEN
        + STRING_PREFIX_LEN + WORD_LEN + HEADROOM;

    /// The room for a health record whose hash and payload take
    /// `data_hash_len` and `encrypted_data_len` bytes.
    pub open spec fn space_for(data_hash_len: nat, encrypted_data_len: nat) -> nat {
        Self::FIXED_LEN as nat + data_hash_len + encrypted_data_len
    }

    /// The bytes to allocate for the health record; `None` if no account can
    /// be that large.
    pub fn space(data_hash: &str, encrypted_data: &str) -> (space: Option<usize>)
        ensures
            space == fitting(
                Self::space_for(data_hash.len() as nat, encrypted_data.len() as nat),
            ),
    {
        match data_hash.len().checked_add(encrypted_data.len()) {
            Some(strings) => strings.checked_add(Self::FIXED_LEN),
            None => None,
        }
    }
}

/// The accounts named to open a claim.
#[derive(Clone, Copy, Debug)]
pub struct CreateClaim {
    /// The patient who opens, and signs for, the claim.
    pub patient: Pubkey,
    /// The provider the claim is made on. Nothing is checked of it.
    pub provider: Pubkey,
}

impl CreateClaim {
    /// The bytes of a claim besides the text of its identifier: the
    /// discriminator, the length of the identifier, the patient, the
    /// provider, the length and the text of the hash, the amount, the
    /// status and one byte more, the timestamp, and the headroom.
    pub const FIXED_LEN: usize = DISCRIMINATOR_LEN + STRING_PREFIX_LEN + PUBKEY_BYTES
        + PUBKEY_BYTES + STRING_PREFIX_LEN + HASH_CAPACITY + WORD_LEN + STATUS_LEN + 1 + WORD_LEN
        + HEADROOM;

    /// The room for a claim whose identifier takes `claim_id_len` bytes.
    pub open spec fn space_for(claim_id_len: nat) -> nat {
        Self::FIXED_LEN as nat + claim_id_len
    }

    /// The bytes to allocate for the claim; `None` if no account can be that
    /// large.
    pub fn space(claim_id: &str) -> (space: Option<usize>)
        ensures
            space == fitting(Self::space_for(claim_id.len() as nat)),
    {
        claim_id.len().checked_add(Self::FIXED_LEN)
    }
}

/// The accounts named to decide a claim.
#[derive(Debug)]
pub struct VerifyClaim {
    /// The identifier of the claim to decide.
    pub claim_id: String,
    /// The provider who decides, and signs.
    pub provider: Pubkey,
}

/// The accounts named to settle a claim.
#[derive(Debug)]
pub struct ProcessPayment {
    /// The identifier of the claim to settle.
    pub claim_id: String,
    /// The provider who pays, and signs.
    pub provider: Pubkey,
    /// The patient who is paid.
    pub patient: Pubkey,
}

/// Registers the patient `ctx.authority` with the identifier `did`.
///
/// Refused as `AlreadyExists` when that credential has registered a patient
/// before: an identity is written once.
pub fn initialize_patient(
    ledger: &mut Ledger,
    ctx: InitializePatient,
    did: String,
) -> (result: Result<(), ErrorCode>)
    requires
        old(ledger).well_formed(),
    ensures
        final(ledger).well_formed(),
        old(ledger)@.initialize_patient(ctx.authority, did@) == outcome(result, final(ledger)@),
        result is Err ==> final(ledger)@ == old(ledger)@,
{
    ledger.create_patient(PatientAccount::new(ctx.authority, did))
}

/// Registers the provider `ctx.authority` with the identifier `did` and the
/// display name `name`.
///
/// Refused as `AlreadyExists` when that credential has registered a provider
/// before.
pub fn initialize_provider(
    ledger: &mut Ledger,
    ctx: InitializeProvider,
    did: String,
    name: String,
) -> (result: Result<(), ErrorCode>)
    requires
        old(ledger).well_formed(),
    ensures
        final(ledger).well_formed(),
        old(ledger)@.initialize_provider(ctx.authority, did@, name@) == outcome(
            result,
            final(ledger)@,
        ),
        result is Err ==> final(ledger)@ == old(ledger)@,
{
    ledger.create_provider(ProviderAccount::new(ctx.authority, did, name))
}

/// Stores the payload `encrypted_data` of `ctx.owner` under `data_hash`,
/// stamped with the time on the ledger's clock.
///
/// Refused as `AlreadyExists` when a record is already stored under that
/// hash. The hash is taken as given.
pub fn submit_health_data(
    ledger: &mut Ledger,
    ctx: SubmitHealthData,
    data_hash: String,
    encrypted_data: String,
) -> (result: Result<(), ErrorCode>)
    requires
        old(ledger).well_formed(),
    ensures
        final(ledger).well_formed(),
        old(ledger)@.submit_health_data(ctx.owner, data_hash@, encrypted_data@) == outcome(
            result,
            final(ledger)@,
        ),
        result is Err ==> final(ledger)@ == old(ledger)@,
{
    let now = ledger.unix_timestamp();
    ledger.create_health_data(HealthDataAccount::new(ctx.owner, data_hash, encrypted_data, now))
}

/// Opens a pending claim of `ctx.patient` on `ctx.provider` for `amount`,
/// under `claim_id` and tied to the health record `health_data_hash`,
/// stamped with the time on the ledger's clock.
///
/// Refused as `AlreadyExists` when a claim already has that identifier.
/// Neither the parties nor the health record need to be known to the ledger.
pub fn create_claim(
    ledger: &mut Ledger,
    ctx: CreateClaim,
    claim_id: String,
    amount: u64,
    health_data_hash: String,
) -> (result: Result<(), ErrorCode>)
    requires
        old(ledger).well_formed(),
    ensures
        final(ledger).well_formed(),
        old(ledger)@.create_claim(ctx.patient, ctx.provider, claim_id@, amount, health_data_hash@)
            == outcome(result, final(ledger)@),
        result is Err ==> final(ledger)@ == old(ledger)@,
{
    let now = ledger.unix_timestamp();
    ledger.create_claim(
        ClaimAccount::new(claim_id, ctx.patient, ctx.provider, health_data_hash, amount, now),
    )
}

/// Records the decision `status` of `ctx.provider` on the claim
/// `ctx.claim_id`.
///
/// Refused, in this order, as `ClaimNotFound` when there is no such claim,
/// `Unauthorized` when another provider is recorded on it, and
/// `InvalidTransition` unless the claim is pending and `status` is
/// `Verified` or `Rejected`. So a decision neither marks a claim as paid nor
/// reopens one that was decided: a claim is paid by settlement only, and
/// once.
pub fn verify_claim(
    ledger: &mut Ledger,
    ctx: VerifyClaim,
    status: ClaimStatus,
) -> (result: Result<(), ErrorCode>)
    requires
        old(ledger).well_formed(),
    ensures
        final(ledger).well_formed(),
        old(ledger)@.verify_claim(ctx.claim_id@, ctx.provider, status) == outcome(
            result,
            final(ledger)@,
        ),
        result is Err ==> final(ledger)@ == old(ledger)@,
{
    let mut claim = match ledger.claim(&ctx.claim_id) {
        Some(claim) => claim.clone(),
        None => {
            return Err(ErrorCode::ClaimNotFound);
        },
    };
    match claim.adjudicate(&ctx.provider, status) {
        Ok(()) => ledger.put_claim(claim),
        Err(e) => Err(e),
    }
}

/// Settles the claim `ctx.claim_id`: its amount moves from `ctx.provider` to
/// `ctx.patient` and the claim becomes paid, both or neither.
///
/// Refused, in this order, as `ClaimNotFound` when there is no such claim,
/// `Unauthorized` when `ctx.provider` is not its provider, `InvalidPatient`
/// when `ctx.patient` is not its patient, `ClaimNotVerified` when it is not
/// verified, and `InsufficientFunds` when the provider holds less than its
/// amount.
pub fn process_payment(ledger: &mut Ledger, ctx: ProcessPayment) -> (result: Result<(), ErrorCode>)
    requires
        old(ledger).well_formed(),
    ensures
        final(ledger).well_formed(),
        old(ledger)@.process_payment(ctx.claim_id@, ctx.provider, ctx.patient) == outcome(
            result,
            final(ledger)@,
        ),
        result is Err ==> final(ledger)@ == old(ledger)@,
{
    let mut claim = match ledger.claim(&ctx.claim_id) {
        Some(claim) => claim.clone(),
        None => {
            return Err(ErrorCode::ClaimNotFound);
        },
    };
    let amount = match claim.authorize_payment(&ctx.provider, &ctx.patient) {
        Ok(amount) => amount,
        Err(e) => {
            return Err(e);
        },
    };
    match claim.settle() {
        Ok(()) => {},
        Err(e) => {
            return Err(e);
        },
    }
    match ledger.transfer(&ctx.provider, &ctx.patient, amount) {
        Ok(()) => ledger.put_claim(claim),
        Err(e) => Err(e),
    }
}

/// An instruction to the ledger: what is asked, by whom, with what data.
#[derive(Debug)]
pub enum Instruction {
    InitializePatient { authority: Pubkey, did: String },
    InitializeProvider { authority: Pubkey, did: String, name: String },
    SubmitHealthData { owner: Pubkey, data_hash: String, encrypted_data: String },
    CreateClaim {
        patient: Pubkey,
        provider: Pubkey,
        claim_id: String,
        amount: u64,
        health_data_hash: String,
    },
    VerifyClaim { claim_id: String, provider: Pubkey, status: ClaimStatus },
    ProcessPayment { claim_id: String, provider: Pubkey, patient: Pubkey },
}

impl View for Instruction {
    type V = InstructionView;

    open spec fn view(&self) -> InstructionView {
        match self {
            Instruction::InitializePatient { authority, did } => {
                InstructionView::InitializePatient { authority: *authority, did: did@ }
            },
            Instruction::InitializeProvider { authority, did, name } => {
                InstructionView::InitializeProvider {
                    authority: *authority,
                    did: did@,
                    name: name@,
                }
            },
            Instruction::SubmitHealthData { owner, data_hash, encrypted_data } => {
                InstructionView::SubmitHealthData {
                    owner: *owner,
                    data_hash: data_hash@,
                    encrypted_data: encrypted_data@,
                }
            },
            Instruction::CreateClaim { patient, provider, claim_id, amount, health_data_hash } => {
                InstructionView::CreateClaim {
                    patient: *patient,
                    provider: *provider,
                    claim_id: claim_id@,
                    amount: *amount,
                    health_data_hash: health_data_hash@,
                }
            },
            Instruction::VerifyClaim { claim_id, provider, status } => {
                InstructionView::VerifyClaim {
                    claim_id: claim_id@,
                    provider: *provider,
                    status: *status,
                }
            },
            Instruction::ProcessPayment { claim_id, provider, patient } => {
                InstructionView::ProcessPayment {
                    claim_id: claim_id@,
                    provider: *provider,
                    patient: *patient,
                }
            },
        }
    }
}

/// Carries out one instruction, whole or not at all.
pub fn process_instruction(
    ledger: &mut Ledger,
    instruction: Instruction,
) -> (result: Result<(), ErrorCode>)
    requires
        old(ledger).well_formed(),
    ensures
        final(ledger).well_formed(),
        old(ledger)@.apply(instruction@) == outcome(result, final(ledger)@),
        result is Err ==> final(ledger)@ == old(ledger)@,
{
    match instruction {
        Instruction::InitializePatient { authority, did } => {
            initialize_patient(ledger, InitializePatient { authority }, did)
        },
        Instruction::InitializeProvider { authority, did, name } => {
            initialize_provider(ledger, InitializeProvider { authority }, did, name)
        },
        Instruction::SubmitHealthData { owner, data_hash, encrypted_data } => {
            submit_health_data(ledger, SubmitHealthData { owner }, data_hash, encrypted_data)
        },
        Instruction::CreateClaim { patient, provider, claim_id, amount, health_data_hash } => {
            let accounts = CreateClaim { patient, provider };
            create_claim(ledger, accounts, claim_id, amount, health_data_hash)
        },
        Instruction::VerifyClaim { claim_id, provider, status } => {
            verify_claim(ledger, VerifyClaim { claim_id, provider }, status)
        },
        Instruction::ProcessPayment { claim_id, provider, patient } => {
            process_payment(ledger, ProcessPayment { claim_id, provider, patient })
        },
    }
}

} // verus!
