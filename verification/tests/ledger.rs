use primal_health::{
    create_claim, initialize_patient, initialize_provider, process_instruction, process_payment,
    submit_health_data, verify_claim, ClaimStatus, CreateClaim, ErrorCode, InitializePatient,
    InitializeProvider, Instruction, Ledger, ProcessPayment, Pubkey, SubmitHealthData,
    VerifyClaim,
};

fn key(byte: u8) -> Pubkey {
    Pubkey::new_from_array([byte; 32])
}

fn faucet() -> Pubkey {
    key(0xfa)
}

fn patient() -> Pubkey {
    key(1)
}

fn provider() -> Pubkey {
    key(2)
}

fn stranger() -> Pubkey {
    key(3)
}

/// A ledger on which the provider holds `funds`.
fn funded(funds: u64) -> Ledger {
    let mut ledger = Ledger::new(faucet(), 1_000_000);
    assert_eq!(ledger.transfer(&faucet(), &provider(), funds), Ok(()));
    ledger
}

fn open_claim(ledger: &mut Ledger, claim_id: &str, amount: u64) {
    let opened = create_claim(
        ledger,
        CreateClaim { patient: patient(), provider: provider() },
        claim_id.to_string(),
        amount,
        "h1".to_string(),
    );
    assert_eq!(opened, Ok(()));
}

fn decide(
    ledger: &mut Ledger,
    claim_id: &str,
    by: Pubkey,
    status: ClaimStatus,
) -> Result<(), ErrorCode> {
    verify_claim(ledger, VerifyClaim { claim_id: claim_id.to_string(), provider: by }, status)
}

fn pay(ledger: &mut Ledger, claim_id: &str, by: Pubkey, to: Pubkey) -> Result<(), ErrorCode> {
    process_payment(
        ledger,
        ProcessPayment { claim_id: claim_id.to_string(), provider: by, patient: to },
    )
}

fn status_of(ledger: &Ledger, claim_id: &str) -> ClaimStatus {
    ledger.claim(&claim_id.to_string()).expect("the claim exists").status
}

#[test]
fn end_to_end_claim_is_paid_once() {
    let mut ledger = funded(2_000);
    assert_eq!(
        initialize_patient(
            &mut ledger,
            InitializePatient { authority: patient() },
            "did:p1".to_string()
        ),
        Ok(())
    );
    assert_eq!(
        initialize_provider(
            &mut ledger,
            InitializeProvider { authority: provider() },
            "did:r1".to_string(),
            "Dr. X".to_string()
        ),
        Ok(())
    );
    assert_eq!(
        submit_health_data(
            &mut ledger,
            SubmitHealthData { owner: patient() },
            "h1".to_string(),
            "ciphertext".to_string()
        ),
        Ok(())
    );
    open_claim(&mut ledger, "c1", 500);
    assert_eq!(status_of(&ledger, "c1"), ClaimStatus::Pending);
    assert_eq!(decide(&mut ledger, "c1", provider(), ClaimStatus::Verified), Ok(()));
    assert_eq!(status_of(&ledger, "c1"), ClaimStatus::Verified);

    let patient_before = ledger.balance(&patient());
    let provider_before = ledger.balance(&provider());
    assert_eq!(pay(&mut ledger, "c1", provider(), patient()), Ok(()));
    assert_eq!(status_of(&ledger, "c1"), ClaimStatus::Paid);
    assert_eq!(ledger.balance(&patient()), patient_before + 500);
    assert_eq!(ledger.balance(&provider()), provider_before - 500);
    assert_eq!(ledger.balance(&patient()), 500);
    assert_eq!(ledger.balance(&provider()), 1_500);

    assert_eq!(
        pay(&mut ledger, "c1", provider(), patient()),
        Err(ErrorCode::ClaimNotVerified)
    );
    assert_eq!(ledger.balance(&patient()), 500);
    assert_eq!(ledger.balance(&provider()), 1_500);
    assert_eq!(status_of(&ledger, "c1"), ClaimStatus::Paid);
}

#[test]
fn new_ledger_holds_the_supply_at_the_faucet() {
    let ledger = Ledger::new(faucet(), 77);
    assert_eq!(ledger.balance(&faucet()), 77);
    assert_eq!(ledger.balance(&patient()), 0);
    assert_eq!(ledger.unix_timestamp(), 0);
    assert!(ledger.patient(&patient()).is_none());
    assert!(ledger.provider(&provider()).is_none());
    assert!(ledger.health_data(&"h1".to_string()).is_none());
    assert!(ledger.claim(&"c1".to_string()).is_none());
}

#[test]
fn patient_is_registered_once() {
    let mut ledger = Ledger::new(faucet(), 0);
    let first = initialize_patient(
        &mut ledger,
        InitializePatient { authority: patient() },
        "did:p1".to_string(),
    );
    assert_eq!(first, Ok(()));
    let second = initialize_patient(
        &mut ledger,
        InitializePatient { authority: patient() },
        "did:other".to_string(),
    );
    assert_eq!(second, Err(ErrorCode::AlreadyExists));
    let record = ledger.patient(&patient()).expect("the patient is registered");
    assert_eq!(record.authority, patient());
    assert_eq!(record.did, "did:p1");
    // Another credential is another patient, even under the same identifier.
    let other = initialize_patient(
        &mut ledger,
        InitializePatient { authority: stranger() },
        "did:p1".to_string(),
    );
    assert_eq!(other, Ok(()));
}

#[test]
fn provider_is_registered_once() {
    let mut ledger = Ledger::new(faucet(), 0);
    let first = initialize_provider(
        &mut ledger,
        InitializeProvider { authority: provider() },
        "did:r1".to_string(),
        "Dr. X".to_string(),
    );
    assert_eq!(first, Ok(()));
    let second = initialize_provider(
        &mut ledger,
        InitializeProvider { authority: provider() },
        "did:r2".to_string(),
        "Dr. Y".to_string(),
    );
    assert_eq!(second, Err(ErrorCode::AlreadyExists));
    let record = ledger.provider(&provider()).expect("the provider is registered");
    assert_eq!(record.authority, provider());
    assert_eq!(record.did, "did:r1");
    assert_eq!(record.name, "Dr. X");
}

#[test]
fn patient_and_provider_namespaces_are_apart() {
    let mut ledger = Ledger::new(faucet(), 0);
    assert_eq!(
        initialize_patient(
            &mut ledger,
            InitializePatient { authority: key(9) },
            "did:a".to_string()
        ),
        Ok(())
    );
    assert_eq!(
        initialize_provider(
            &mut ledger,
            InitializeProvider { authority: key(9) },
            "did:a".to_string(),
            "A".to_string()
        ),
        Ok(())
    );
    assert!(ledger.patient(&key(9)).is_some());
    assert!(ledger.provider(&key(9)).is_some());
}

#[test]
fn content_hash_is_used_once() {
    let mut ledger = Ledger::new(faucet(), 0);
    ledger.advance_clock(1_700_000_000);
    let first = submit_health_data(
        &mut ledger,
        SubmitHealthData { owner: patient() },
        "h1".to_string(),
        "payload one".to_string(),
    );
    assert_eq!(first, Ok(()));
    ledger.advance_clock(1_700_000_500);
    let same_owner = submit_health_data(
        &mut ledger,
        SubmitHealthData { owner: patient() },
        "h1".to_string(),
        "payload one".to_string(),
    );
    assert_eq!(same_owner, Err(ErrorCode::AlreadyExists));
    let other_owner = submit_health_data(
        &mut ledger,
        SubmitHealthData { owner: stranger() },
        "h1".to_string(),
        "payload two".to_string(),
    );
    assert_eq!(other_owner, Err(ErrorCode::AlreadyExists));
    let record = ledger.health_data(&"h1".to_string()).expect("the record is stored");
    assert_eq!(record.owner, patient());
    assert_eq!(record.data_hash, "h1");
    assert_eq!(record.encrypted_data, "payload one");
    assert_eq!(record.timestamp, 1_700_000_000);
    let other_hash = submit_health_data(
        &mut ledger,
        SubmitHealthData { owner: patient() },
        "h2".to_string(),
        "payload one".to_string(),
    );
    assert_eq!(other_hash, Ok(()));
    assert_eq!(ledger.health_data(&"h2".to_string()).unwrap().timestamp, 1_700_000_500);
}

#[test]
fn claim_opens_pending_with_what_was_given() {
    let mut ledger = Ledger::new(faucet(), 0);
    ledger.advance_clock(42);
    // Neither party is registered and no record is stored under the hash.
    let opened = create_claim(
        &mut ledger,
        CreateClaim { patient: patient(), provider: provider() },
        "c1".to_string(),
        500,
        "h1".to_string(),
    );
    assert_eq!(opened, Ok(()));
    let claim = ledger.claim(&"c1".to_string()).expect("the claim exists");
    assert_eq!(claim.claim_id, "c1");
    assert_eq!(claim.patient, patient());
    assert_eq!(claim.provider, provider());
    assert_eq!(claim.health_data_hash, "h1");
    assert_eq!(claim.amount, 500);
    assert_eq!(claim.status, ClaimStatus::Pending);
    assert_eq!(claim.timestamp, 42);
}

#[test]
fn claim_identifier_is_used_once() {
    let mut ledger = Ledger::new(faucet(), 0);
    open_claim(&mut ledger, "c1", 500);
    let again = create_claim(
        &mut ledger,
        CreateClaim { patient: stranger(), provider: stranger() },
        "c1".to_string(),
        9,
        "h9".to_string(),
    );
    assert_eq!(again, Err(ErrorCode::AlreadyExists));
    let claim = ledger.claim(&"c1".to_string()).unwrap();
    assert_eq!(claim.patient, patient());
    assert_eq!(claim.amount, 500);
    assert_eq!(claim.health_data_hash, "h1");
}

#[test]
fn only_the_recorded_provider_decides() {
    let mut ledger = Ledger::new(faucet(), 0);
    open_claim(&mut ledger, "c1", 500);
    assert_eq!(
        decide(&mut ledger, "c1", stranger(), ClaimStatus::Verified),
        Err(ErrorCode::Unauthorized)
    );
    assert_eq!(status_of(&ledger, "c1"), ClaimStatus::Pending);
    // The patient of the claim is no more entitled than anyone else.
    assert_eq!(
        decide(&mut ledger, "c1", patient(), ClaimStatus::Rejected),
        Err(ErrorCode::Unauthorized)
    );
    assert_eq!(status_of(&ledger, "c1"), ClaimStatus::Pending);
    assert_eq!(decide(&mut ledger, "c1", provider(), ClaimStatus::Rejected), Ok(()));
    assert_eq!(status_of(&ledger, "c1"), ClaimStatus::Rejected);
}

#[test]
fn deciding_an_unknown_claim_is_refused() {
    let mut ledger = Ledger::new(faucet(), 0);
    open_claim(&mut ledger, "c1", 500);
    assert_eq!(
        decide(&mut ledger, "c2", provider(), ClaimStatus::Verified),
        Err(ErrorCode::ClaimNotFound)
    );
    assert_eq!(status_of(&ledger, "c1"), ClaimStatus::Pending);
}

#[test]
fn deciding_one_claim_leaves_the_others() {
    let mut ledger = Ledger::new(faucet(), 0);
    open_claim(&mut ledger, "c1", 500);
    open_claim(&mut ledger, "c2", 700);
    assert_eq!(decide(&mut ledger, "c2", provider(), ClaimStatus::Verified), Ok(()));
    assert_eq!(status_of(&ledger, "c1"), ClaimStatus::Pending);
    assert_eq!(status_of(&ledger, "c2"), ClaimStatus::Verified);
    assert_eq!(ledger.claim(&"c2".to_string()).unwrap().amount, 700);
}

#[test]
fn decided_claim_is_not_decided_again() {
    for first in [ClaimStatus::Verified, ClaimStatus::Rejected] {
        for again in [
            ClaimStatus::Pending,
            ClaimStatus::Verified,
            ClaimStatus::Paid,
            ClaimStatus::Rejected,
        ] {
            let mut ledger = funded(2_000);
            open_claim(&mut ledger, "c1", 500);
            assert_eq!(decide(&mut ledger, "c1", provider(), first), Ok(()));
            assert_eq!(
                decide(&mut ledger, "c1", provider(), again),
                Err(ErrorCode::InvalidTransition)
            );
            assert_eq!(status_of(&ledger, "c1"), first);
            assert_eq!(ledger.balance(&provider()), 2_000);
        }
    }
}

#[test]
fn decision_cannot_mark_a_claim_as_paid() {
    let mut ledger = funded(2_000);
    open_claim(&mut ledger, "c1", 500);
    assert_eq!(
        decide(&mut ledger, "c1", provider(), ClaimStatus::Paid),
        Err(ErrorCode::InvalidTransition)
    );
    assert_eq!(status_of(&ledger, "c1"), ClaimStatus::Pending);
    // Nor does deciding a pending claim as pending count as a decision.
    assert_eq!(
        decide(&mut ledger, "c1", provider(), ClaimStatus::Pending),
        Err(ErrorCode::InvalidTransition)
    );
    assert_eq!(status_of(&ledger, "c1"), ClaimStatus::Pending);
    assert_eq!(ledger.balance(&provider()), 2_000);
    assert_eq!(ledger.balance(&patient()), 0);
}

#[test]
fn paid_claim_stays_paid_and_is_not_paid_twice() {
    let mut ledger = funded(1_000);
    assert_eq!(ledger.transfer(&faucet(), &patient(), 200), Ok(()));
    open_claim(&mut ledger, "c1", 500);
    assert_eq!(decide(&mut ledger, "c1", provider(), ClaimStatus::Verified), Ok(()));
    assert_eq!(pay(&mut ledger, "c1", provider(), patient()), Ok(()));
    assert_eq!(ledger.balance(&provider()), 500);
    assert_eq!(ledger.balance(&patient()), 700);
    for again in [
        ClaimStatus::Pending,
        ClaimStatus::Verified,
        ClaimStatus::Paid,
        ClaimStatus::Rejected,
    ] {
        assert_eq!(
            decide(&mut ledger, "c1", provider(), again),
            Err(ErrorCode::InvalidTransition)
        );
        assert_eq!(status_of(&ledger, "c1"), ClaimStatus::Paid);
        assert_eq!(
            pay(&mut ledger, "c1", provider(), patient()),
            Err(ErrorCode::ClaimNotVerified)
        );
    }
    assert_eq!(ledger.balance(&provider()), 500);
    assert_eq!(ledger.balance(&patient()), 700);
}

#[test]
fn stranger_is_refused_before_the_lifecycle_is_asked() {
    let mut ledger = funded(2_000);
    open_claim(&mut ledger, "c1", 500);
    assert_eq!(decide(&mut ledger, "c1", provider(), ClaimStatus::Rejected), Ok(()));
    assert_eq!(
        decide(&mut ledger, "c1", stranger(), ClaimStatus::Verified),
        Err(ErrorCode::Unauthorized)
    );
    assert_eq!(
        decide(&mut ledger, "c1", stranger(), ClaimStatus::Paid),
        Err(ErrorCode::Unauthorized)
    );
    assert_eq!(status_of(&ledger, "c1"), ClaimStatus::Rejected);
}

#[test]
fn rejected_claim_is_not_paid() {
    let mut ledger = funded(2_000);
    open_claim(&mut ledger, "c1", 500);
    assert_eq!(decide(&mut ledger, "c1", provider(), ClaimStatus::Rejected), Ok(()));
    assert_eq!(
        pay(&mut ledger, "c1", provider(), patient()),
        Err(ErrorCode::ClaimNotVerified)
    );
    assert_eq!(status_of(&ledger, "c1"), ClaimStatus::Rejected);
    assert_eq!(ledger.balance(&provider()), 2_000);
    assert_eq!(ledger.balance(&patient()), 0);
}

#[test]
fn pending_claim_that_was_never_decided_is_not_paid() {
    let mut ledger = funded(2_000);
    open_claim(&mut ledger, "c1", 500);
    assert_eq!(
        pay(&mut ledger, "c1", provider(), patient()),
        Err(ErrorCode::ClaimNotVerified)
    );
    assert_eq!(status_of(&ledger, "c1"), ClaimStatus::Pending);
    assert_eq!(ledger.balance(&provider()), 2_000);
    assert_eq!(ledger.balance(&patient()), 0);
}

#[test]
fn wrong_patient_is_refused_and_nothing_moves() {
    let mut ledger = funded(2_000);
    open_claim(&mut ledger, "c1", 500);
    assert_eq!(decide(&mut ledger, "c1", provider(), ClaimStatus::Verified), Ok(()));
    assert_eq!(
        pay(&mut ledger, "c1", provider(), stranger()),
        Err(ErrorCode::InvalidPatient)
    );
    assert_eq!(status_of(&ledger, "c1"), ClaimStatus::Verified);
    assert_eq!(ledger.balance(&provider()), 2_000);
    assert_eq!(ledger.balance(&patient()), 0);
    assert_eq!(ledger.balance(&stranger()), 0);
}

#[test]
fn payment_checks_provider_then_patient_then_status() {
    let mut ledger = funded(2_000);
    open_claim(&mut ledger, "c1", 500);
    // Pending, and both parties wrong: the provider is reported.
    assert_eq!(
        pay(&mut ledger, "c1", stranger(), stranger()),
        Err(ErrorCode::Unauthorized)
    );
    // Pending, the provider right and the patient wrong: the patient is reported.
    assert_eq!(
        pay(&mut ledger, "c1", provider(), stranger()),
        Err(ErrorCode::InvalidPatient)
    );
    // Verified, the provider wrong: still the provider.
    assert_eq!(decide(&mut ledger, "c1", provider(), ClaimStatus::Verified), Ok(()));
    assert_eq!(
        pay(&mut ledger, "c1", stranger(), patient()),
        Err(ErrorCode::Unauthorized)
    );
    assert_eq!(status_of(&ledger, "c1"), ClaimStatus::Verified);
    assert_eq!(ledger.balance(&provider()), 2_000);
}

#[test]
fn paying_an_unknown_claim_is_refused() {
    let mut ledger = funded(2_000);
    assert_eq!(
        pay(&mut ledger, "c1", provider(), patient()),
        Err(ErrorCode::ClaimNotFound)
    );
    assert_eq!(ledger.balance(&provider()), 2_000);
}

#[test]
fn payment_without_funds_leaves_the_claim_verified() {
    let mut ledger = funded(499);
    open_claim(&mut ledger, "c1", 500);
    assert_eq!(decide(&mut ledger, "c1", provider(), ClaimStatus::Verified), Ok(()));
    assert_eq!(
        pay(&mut ledger, "c1", provider(), patient()),
        Err(ErrorCode::InsufficientFunds)
    );
    assert_eq!(status_of(&ledger, "c1"), ClaimStatus::Verified);
    assert_eq!(ledger.balance(&provider()), 499);
    assert_eq!(ledger.balance(&patient()), 0);
    // With one more lamport the same payment goes through.
    assert_eq!(ledger.transfer(&faucet(), &provider(), 1), Ok(()));
    assert_eq!(pay(&mut ledger, "c1", provider(), patient()), Ok(()));
    assert_eq!(status_of(&ledger, "c1"), ClaimStatus::Paid);
    assert_eq!(ledger.balance(&provider()), 0);
    assert_eq!(ledger.balance(&patient()), 500);
}

#[test]
fn payment_of_the_whole_supply_does_not_overflow() {
    let mut ledger = Ledger::new(provider(), u64::MAX);
    open_claim(&mut ledger, "c1", u64::MAX);
    assert_eq!(decide(&mut ledger, "c1", provider(), ClaimStatus::Verified), Ok(()));
    assert_eq!(pay(&mut ledger, "c1", provider(), patient()), Ok(()));
    assert_eq!(ledger.balance(&provider()), 0);
    assert_eq!(ledger.balance(&patient()), u64::MAX);
}

#[test]
fn payment_of_nothing_settles_the_claim() {
    let mut ledger = Ledger::new(faucet(), 0);
    open_claim(&mut ledger, "c1", 0);
    assert_eq!(decide(&mut ledger, "c1", provider(), ClaimStatus::Verified), Ok(()));
    assert_eq!(pay(&mut ledger, "c1", provider(), patient()), Ok(()));
    assert_eq!(status_of(&ledger, "c1"), ClaimStatus::Paid);
    assert_eq!(ledger.balance(&provider()), 0);
    assert_eq!(ledger.balance(&patient()), 0);
}

#[test]
fn provider_paying_itself_keeps_its_balance() {
    let mut ledger = funded(600);
    let opened = create_claim(
        &mut ledger,
        CreateClaim { patient: provider(), provider: provider() },
        "self".to_string(),
        500,
        "h1".to_string(),
    );
    assert_eq!(opened, Ok(()));
    assert_eq!(decide(&mut ledger, "self", provider(), ClaimStatus::Verified), Ok(()));
    assert_eq!(pay(&mut ledger, "self", provider(), provider()), Ok(()));
    assert_eq!(ledger.balance(&provider()), 600);
    assert_eq!(status_of(&ledger, "self"), ClaimStatus::Paid);
}

#[test]
fn transfer_moves_exactly_the_amount() {
    let mut ledger = Ledger::new(faucet(), 1_000);
    assert_eq!(ledger.transfer(&faucet(), &patient(), 300), Ok(()));
    assert_eq!(ledger.balance(&faucet()), 700);
    assert_eq!(ledger.balance(&patient()), 300);
    assert_eq!(ledger.transfer(&patient(), &provider(), 300), Ok(()));
    assert_eq!(ledger.balance(&patient()), 0);
    assert_eq!(ledger.balance(&provider()), 300);
    assert_eq!(ledger.balance(&faucet()), 700);
}

#[test]
fn transfer_beyond_the_balance_is_refused() {
    let mut ledger = Ledger::new(faucet(), 1_000);
    assert_eq!(
        ledger.transfer(&faucet(), &patient(), 1_001),
        Err(ErrorCode::InsufficientFunds)
    );
    assert_eq!(
        ledger.transfer(&stranger(), &patient(), 1),
        Err(ErrorCode::InsufficientFunds)
    );
    assert_eq!(ledger.balance(&faucet()), 1_000);
    assert_eq!(ledger.balance(&patient()), 0);
    assert_eq!(ledger.transfer(&stranger(), &patient(), 0), Ok(()));
    assert_eq!(ledger.balance(&patient()), 0);
}

#[test]
fn transfer_to_oneself_changes_nothing() {
    let mut ledger = Ledger::new(faucet(), 1_000);
    assert_eq!(ledger.transfer(&faucet(), &faucet(), 1_000), Ok(()));
    assert_eq!(ledger.balance(&faucet()), 1_000);
    assert_eq!(
        ledger.transfer(&faucet(), &faucet(), 1_001),
        Err(ErrorCode::InsufficientFunds)
    );
    assert_eq!(ledger.balance(&faucet()), 1_000);
}

#[test]
fn clock_never_turns_back() {
    let mut ledger = Ledger::new(faucet(), 0);
    ledger.advance_clock(100);
    assert_eq!(ledger.unix_timestamp(), 100);
    ledger.advance_clock(50);
    assert_eq!(ledger.unix_timestamp(), 100);
    ledger.advance_clock(-7);
    assert_eq!(ledger.unix_timestamp(), 100);
    ledger.advance_clock(i64::MAX);
    assert_eq!(ledger.unix_timestamp(), i64::MAX);
}

#[test]
fn instructions_run_as_their_handlers_do() {
    let mut ledger = funded(2_000);
    let steps = vec![
        (
            Instruction::InitializePatient { authority: patient(), did: "did:p1".to_string() },
            Ok(()),
        ),
        (
            Instruction::InitializePatient { authority: patient(), did: "did:p1".to_string() },
            Err(ErrorCode::AlreadyExists),
        ),
        (
            Instruction::InitializeProvider {
                authority: provider(),
                did: "did:r1".to_string(),
                name: "Dr. X".to_string(),
            },
            Ok(()),
        ),
        (
            Instruction::SubmitHealthData {
                owner: patient(),
                data_hash: "h1".to_string(),
                encrypted_data: "ciphertext".to_string(),
            },
            Ok(()),
        ),
        (
            Instruction::CreateClaim {
                patient: patient(),
                provider: provider(),
                claim_id: "c1".to_string(),
                amount: 500,
                health_data_hash: "h1".to_string(),
            },
            Ok(()),
        ),
        (
            Instruction::ProcessPayment {
                claim_id: "c1".to_string(),
                provider: provider(),
                patient: patient(),
            },
            Err(ErrorCode::ClaimNotVerified),
        ),
        (
            Instruction::VerifyClaim {
                claim_id: "c1".to_string(),
                provider: stranger(),
                status: ClaimStatus::Verified,
            },
            Err(ErrorCode::Unauthorized),
        ),
        (
            Instruction::VerifyClaim {
                claim_id: "c1".to_string(),
                provider: provider(),
                status: ClaimStatus::Paid,
            },
            Err(ErrorCode::InvalidTransition),
        ),
        (
            Instruction::VerifyClaim {
                claim_id: "c1".to_string(),
                provider: provider(),
                status: ClaimStatus::Verified,
            },
            Ok(()),
        ),
        (
            Instruction::VerifyClaim {
                claim_id: "c1".to_string(),
                provider: provider(),
                status: ClaimStatus::Rejected,
            },
            Err(ErrorCode::InvalidTransition),
        ),
        (
            Instruction::ProcessPayment {
                claim_id: "c1".to_string(),
                provider: provider(),
                patient: patient(),
            },
            Ok(()),
        ),
    ];
    for (instruction, expected) in steps {
        assert_eq!(process_instruction(&mut ledger, instruction), expected);
    }
    assert_eq!(status_of(&ledger, "c1"), ClaimStatus::Paid);
    assert_eq!(ledger.balance(&patient()), 500);
    assert_eq!(ledger.balance(&provider()), 1_500);
    assert_eq!(ledger.patient(&patient()).unwrap().did, "did:p1");
    assert_eq!(ledger.provider(&provider()).unwrap().name, "Dr. X");
    assert_eq!(ledger.health_data(&"h1".to_string()).unwrap().encrypted_data, "ciphertext");
}

#[test]
fn keys_that_differ_in_one_byte_are_different_accounts() {
    let mut bytes = [7u8; 32];
    let first = Pubkey::new_from_array(bytes);
    bytes[31] = 8;
    let second = Pubkey::new_from_array(bytes);
    let mut ledger = Ledger::new(first, 10);
    assert_eq!(ledger.balance(&first), 10);
    assert_eq!(ledger.balance(&second), 0);
    assert_eq!(ledger.transfer(&first, &second, 4), Ok(()));
    assert_eq!(ledger.balance(&first), 6);
    assert_eq!(ledger.balance(&second), 4);
}
