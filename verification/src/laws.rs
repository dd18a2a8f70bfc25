//! What holds of every ledger and every instruction.
//!
//! Each law is stated over the mathematical ledger, so it holds of the
//! executable ledger through the contracts of its instructions.

use crate::error::ErrorCode;
use crate::model::{InstructionView, LedgerView};
use crate::pubkey::Pubkey;
use crate::state::{
    ClaimAccountView,
    HealthDataAccountView,
    PatientAccountView,
    ProviderAccountView,
};
use crate::status::ClaimStatus;
use vstd::prelude::*;

verus! {

/// A patient is registered once: after an attempt to register `authority`,
/// whether it succeeded or was refused, every further attempt for the same
/// credential is refused as `AlreadyExists`, and the record that the first
/// successful attempt wrote stays as it was written.
pub proof fn lemma_patient_registered_once(
    ledger: LedgerView,
    authority: Pubkey,
    did: Seq<char>,
    again: Seq<char>,
)
    ensures
        ({
            let first = ledger.initialize_patient(authority, did);
            let second = ledger.after(first).initialize_patient(authority, again);
            &&& second == Err::<LedgerView, ErrorCode>(ErrorCode::AlreadyExists)
            &&& ledger.after(first).after(second) == ledger.after(first)
            &&& first is Ok ==> ledger.after(first).patients[authority] == (PatientAccountView {
                authority,
                did,
            })
        }),
{
}

/// A provider is registered once, as a patient is.
pub proof fn lemma_provider_registered_once(
    ledger: LedgerView,
    authority: Pubkey,
    did: Seq<char>,
    name: Seq<char>,
    did_again: Seq<char>,
    name_again: Seq<char>,
)
    ensures
        ({
            let first = ledger.initialize_provider(authority, did, name);
            let second = ledger.after(first).initialize_provider(authority, did_again, name_again);
            &&& second == Err::<LedgerView, ErrorCode>(ErrorCode::AlreadyExists)
            &&& ledger.after(first).after(second) == ledger.after(first)
            &&& first is Ok ==> ledger.after(first).providers[authority] == (ProviderAccountView {
                authority,
                did,
                name,
            })
        }),
{
}

/// A content hash is used once: after an attempt to store a record under
/// `data_hash`, every further attempt under the same hash is refused as
/// `AlreadyExists`, whoever makes it and whatever the payload, and the
/// stored record stays as it was.
pub proof fn lemma_health_record_stored_once(
    ledger: LedgerView,
    data_hash: Seq<char>,
    owner: Pubkey,
    encrypted_data: Seq<char>,
    owner_again: Pubkey,
    encrypted_data_again: Seq<char>,
)
    ensures
        ({
            let first = ledger.submit_health_data(owner, data_hash, encrypted_data);
            let second = ledger.after(first).submit_health_data(
                owner_again,
                data_hash,
                encrypted_data_again,
            );
            &&& second == Err::<LedgerView, ErrorCode>(ErrorCode::AlreadyExists)
            &&& ledger.after(first).after(second) == ledger.after(first)
            &&& first is Ok ==> ledger.after(first).health_data[data_hash]
                == (HealthDataAccountView {
                owner,
                data_hash,
                encrypted_data,
                timestamp: ledger.unix_timestamp,
            })
        }),
{
}

/// A claim identifier is used once, and a claim opens as pending with what
/// its creator gave.
pub proof fn lemma_claim_opened_once(
    ledger: LedgerView,
    claim_id: Seq<char>,
    patient: Pubkey,
    provider: Pubkey,
    amount: u64,
    health_data_hash: Seq<char>,
    patient_again: Pubkey,
    provider_again: Pubkey,
    amount_again: u64,
    health_data_hash_again: Seq<char>,
)
    ensures
        ({
            let first = ledger.create_claim(patient, provider, claim_id, amount, health_data_hash);
            let second = ledger.after(first).create_claim(
                patient_again,
                provider_again,
                claim_id,
                amount_again,
                health_data_hash_again,
            );
            &&& second == Err::<LedgerView, ErrorCode>(ErrorCode::AlreadyExists)
            &&& ledger.after(first).after(second) == ledger.after(first)
            &&& first is Ok ==> ledger.after(first).claims[claim_id] == (ClaimAccountView {
                claim_id,
                patient,
                provider,
                health_data_hash,
                amount,
                status: ClaimStatus::Pending,
                timestamp: ledger.unix_timestamp,
            })
        }),
{
}

/// Only the provider recorded on a claim decides it: the decision of any
/// other credential is refused as `Unauthorized`, and the claim keeps its
/// status.
pub proof fn lemma_stranger_cannot_adjudicate(
    ledger: LedgerView,
    claim_id: Seq<char>,
    acting_provider: Pubkey,
    status: ClaimStatus,
)
    requires
        ledger.claims.contains_key(claim_id),
        acting_provider != ledger.claims[claim_id].provider,
    ensures
        ({
            let attempt = ledger.verify_claim(claim_id, acting_provider, status);
            &&& attempt == Err::<LedgerView, ErrorCode>(ErrorCode::Unauthorized)
            &&& ledger.after(attempt).claims[claim_id].status == ledger.claims[claim_id].status
        }),
{
}

/// A pending claim becomes verified or rejected in one way only: by the
/// instruction that decides this very claim, named so by the provider
/// recorded on it.
pub proof fn lemma_pending_claim_decided_only_by_its_provider(
    ledger: LedgerView,
    instruction: InstructionView,
    claim_id: Seq<char>,
)
    requires
        ledger.claims.contains_key(claim_id),
        ledger.claims[claim_id].status == ClaimStatus::Pending,
        ({
            let decided = ledger.after(ledger.apply(instruction)).claims[claim_id].status;
            decided == ClaimStatus::Verified || decided == ClaimStatus::Rejected
        }),
    ensures
        instruction == (InstructionView::VerifyClaim {
            claim_id,
            provider: ledger.claims[claim_id].provider,
            status: ledger.after(ledger.apply(instruction)).claims[claim_id].status,
        }),
{
    match instruction {
        InstructionView::VerifyClaim { claim_id: decided, provider, status } => {
            assert(decided =~= claim_id);
        },
        _ => {},
    }
}

/// A claim that is not verified is never paid: settling it is refused, as
/// `ClaimNotVerified` when the provider and the patient are those recorded
/// on it, and balances and status stay as they were.
pub proof fn lemma_unverified_claim_is_not_paid(
    ledger: LedgerView,
    claim_id: Seq<char>,
    acting_provider: Pubkey,
    acting_patient: Pubkey,
)
    requires
        ledger.claims.contains_key(claim_id),
        ledger.claims[claim_id].status != ClaimStatus::Verified,
    ensures
        ({
            let attempt = ledger.process_payment(claim_id, acting_provider, acting_patient);
            &&& attempt is Err
            &&& ledger.after(attempt) == ledger
            &&& acting_provider == ledger.claims[claim_id].provider && acting_patient
                == ledger.claims[claim_id].patient ==> attempt == Err::<LedgerView, ErrorCode>(
                ErrorCode::ClaimNotVerified,
            )
        }),
{
}

/// A verified claim is paid to its own patient only: when its provider
/// names another patient, settling is refused as `InvalidPatient`, and
/// nothing moves.
pub proof fn lemma_wrong_patient_is_refused(
    ledger: LedgerView,
    claim_id: Seq<char>,
    acting_provider: Pubkey,
    acting_patient: Pubkey,
)
    requires
        ledger.claims.contains_key(claim_id),
        ledger.claims[claim_id].status == ClaimStatus::Verified,
        acting_provider == ledger.claims[claim_id].provider,
        acting_patient != ledger.claims[claim_id].patient,
    ensures
        ({
            let attempt = ledger.process_payment(claim_id, acting_provider, acting_patient);
            &&& attempt == Err::<LedgerView, ErrorCode>(ErrorCode::InvalidPatient)
            &&& ledger.after(attempt) == ledger
        }),
{
}

/// A claim is settled once and exactly: a payment that succeeds leaves the
/// claim paid, takes its amount from the provider, gives it to the patient,
/// touches no other balance, and cannot be repeated.
pub proof fn lemma_payment_settles_once(
    ledger: LedgerView,
    claim_id: Seq<char>,
    provider: Pubkey,
    patient: Pubkey,
)
    requires
        ledger.process_payment(claim_id, provider, patient) is Ok,
    ensures
        ({
            let paid = ledger.after(ledger.process_payment(claim_id, provider, patient));
            let amount = ledger.claims[claim_id].amount;
            &&& ledger.claims[claim_id].status == ClaimStatus::Verified
            &&& paid.claims[claim_id] == ledger.claims[claim_id].with_status(ClaimStatus::Paid)
            &&& ledger.balance(provider) >= amount
            &&& provider != patient ==> paid.balance(provider) == ledger.balance(provider) - amount
                && paid.balance(patient) == ledger.balance(patient) + amount
            &&& provider == patient ==> paid.balance(provider) == ledger.balance(provider)
            &&& forall|other: Pubkey|
                other != provider && other != patient ==> paid.balance(other) == ledger.balance(
                    other,
                )
            &&& paid.process_payment(claim_id, provider, patient) == Err::<LedgerView, ErrorCode>(
                ErrorCode::ClaimNotVerified,
            )
        }),
{
}

/// Nothing is deleted, identities and health records never change, of a
/// claim only the status ever changes, and funds move only when a claim is
/// settled.
pub proof fn lemma_records_are_kept(ledger: LedgerView, instruction: InstructionView)
    ensures
        ({
            let next = ledger.after(ledger.apply(instruction));
            &&& next.unix_timestamp == ledger.unix_timestamp
            &&& !(instruction is ProcessPayment) ==> next.balances == ledger.balances
            &&& forall|key: Pubkey| #[trigger]
                ledger.patients.contains_key(key) ==> next.patients.contains_key(key)
                    && next.patients[key] == ledger.patients[key]
            &&& forall|key: Pubkey| #[trigger]
                ledger.providers.contains_key(key) ==> next.providers.contains_key(key)
                    && next.providers[key] == ledger.providers[key]
            &&& forall|hash: Seq<char>| #[trigger]
                ledger.health_data.contains_key(hash) ==> next.health_data.contains_key(hash)
                    && next.health_data[hash] == ledger.health_data[hash]
            &&& forall|id: Seq<char>| #[trigger]
                ledger.claims.contains_key(id) ==> next.claims.contains_key(id) && next.claims[id]
                    == ledger.claims[id].with_status(next.claims[id].status)
        }),
{
}

/// The status of a claim only moves forward: an instruction leaves it as it
/// was or takes it one step of the lifecycle on. So a rejected or paid claim
/// stays as it is, whatever is asked and by whom, and a claim becomes paid
/// in one way only: by its own settlement.
pub proof fn lemma_status_moves_forward(
    ledger: LedgerView,
    instruction: InstructionView,
    claim_id: Seq<char>,
)
    requires
        ledger.claims.contains_key(claim_id),
    ensures
        ({
            let before = ledger.claims[claim_id].status;
            let after = ledger.after(ledger.apply(instruction)).claims[claim_id].status;
            &&& after == before || before.allows(after)
            &&& before.is_terminal() ==> after == before
            &&& before != ClaimStatus::Paid && after == ClaimStatus::Paid ==> instruction
                == (InstructionView::ProcessPayment {
                claim_id,
                provider: ledger.claims[claim_id].provider,
                patient: ledger.claims[claim_id].patient,
            })
        }),
{
}

/// A claim is paid at most once: whatever instruction follows, a paid claim
/// is still paid after it, and settling it again is refused.
pub proof fn lemma_paid_claim_is_never_paid_again(
    ledger: LedgerView,
    instruction: InstructionView,
    claim_id: Seq<char>,
    acting_provider: Pubkey,
    acting_patient: Pubkey,
)
    requires
        ledger.claims.contains_key(claim_id),
        ledger.claims[claim_id].status == ClaimStatus::Paid,
    ensures
        ({
            let next = ledger.after(ledger.apply(instruction));
            let again = next.process_payment(claim_id, acting_provider, acting_patient);
            &&& next.claims.contains_key(claim_id)
            &&& next.claims[claim_id].status == ClaimStatus::Paid
            &&& again is Err
            &&& next.after(again) == next
        }),
{
}

/// A decision is accepted exactly when the claim exists, the provider
/// recorded on it decides, the claim is pending, and the decision is
/// `Verified` or `Rejected`. It then changes the status of that claim and
/// nothing else; any other decision is refused and changes nothing.
pub proof fn lemma_decision_follows_lifecycle(
    ledger: LedgerView,
    claim_id: Seq<char>,
    acting_provider: Pubkey,
    status: ClaimStatus,
)
    ensures
        ({
            let attempt = ledger.verify_claim(claim_id, acting_provider, status);
            let accepted = {
                &&& ledger.claims.contains_key(claim_id)
                &&& acting_provider == ledger.claims[claim_id].provider
                &&& ledger.claims[claim_id].status == ClaimStatus::Pending
                &&& (status == ClaimStatus::Verified || status == ClaimStatus::Rejected)
            };
            &&& attempt is Ok <==> accepted
            &&& accepted ==> ledger.after(attempt) == (LedgerView {
                claims: ledger.claims.insert(
                    claim_id,
                    ledger.claims[claim_id].with_status(status),
                ),
                ..ledger
            })
            &&& ledger.claims.contains_key(claim_id) && acting_provider
                == ledger.claims[claim_id].provider && !accepted ==> attempt == Err::<
                LedgerView,
                ErrorCode,
            >(ErrorCode::InvalidTransition)
        }),
{
}

/// The clock never turns back: moving it leaves it where it was or later,
/// and no earlier than the time it was moved to.
pub proof fn lemma_clock_never_turns_back(ledger: LedgerView, now: i64)
    ensures
        ledger.advance_clock(now).unix_timestamp >= ledger.unix_timestamp,
        ledger.advance_clock(now).unix_timestamp >= now,
        now >= ledger.unix_timestamp ==> ledger.advance_clock(now).unix_timestamp == now,
{
}

/// Instructions keep a ledger well formed.
pub proof fn lemma_well_formed_is_kept(ledger: LedgerView, instruction: InstructionView)
    requires
        ledger.well_formed(),
    ensures
        ledger.after(ledger.apply(instruction)).well_formed(),
{
    let next = ledger.after(ledger.apply(instruction));
    assert forall|key: Pubkey| next.balances.contains_key(key) by {
        assert(ledger.balances.contains_key(key));
    }
}

/// A new ledger is well formed.
pub proof fn lemma_genesis_is_well_formed(faucet: Pubkey, supply: u64)
    ensures
        LedgerView::genesis(faucet, supply).well_formed(),
{
}

} // verus!
