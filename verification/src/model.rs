//! The ledger as a mathematical object, and what each instruction does to it.
//!
//! Records live in four namespaces: patients and providers, each under the
//! credential that registered it; health records, each under the hash of its
//! content; claims, each under its identifier. A namespace only ever gains
//! entries. The contracts of the executable ledger are stated against the
//! functions of this module.

use crate::error::ErrorCode;
use crate::pubkey::Pubkey;
use crate::state::{
    ClaimAccountView,
    HealthDataAccountView,
    PatientAccountView,
    ProviderAccountView,
};
use crate::status::ClaimStatus;
use vstd::prelude::*;

verus! {

/// What a ledger holds.
#[verifier::ext_equal]
pub struct LedgerView {
    /// The registered patients, by credential.
    pub patients: Map<Pubkey, PatientAccountView>,
    /// The registered providers, by credential.
    pub providers: Map<Pubkey, ProviderAccountView>,
    /// The stored health records, by content hash.
    pub health_data: Map<Seq<char>, HealthDataAccountView>,
    /// The claims, by identifier.
    pub claims: Map<Seq<char>, ClaimAccountView>,
    /// The balance of every credential; one that never held funds has 0.
    pub balances: Map<Pubkey, nat>,
    /// The time on the ledger's clock.
    pub unix_timestamp: i64,
}

/// An instruction to the ledger: what is asked, by whom, with what data.
pub enum InstructionView {
    InitializePatient { authority: Pubkey, did: Seq<char> },
    InitializeProvider { authority: Pubkey, did: Seq<char>, name: Seq<char> },
    SubmitHealthData { owner: Pubkey, data_hash: Seq<char>, encrypted_data: Seq<char> },
    CreateClaim {
        patient: Pubkey,
        provider: Pubkey,
        claim_id: Seq<char>,
        amount: u64,
        health_data_hash: Seq<char>,
    },
    VerifyClaim { claim_id: Seq<char>, provider: Pubkey, status: ClaimStatus },
    ProcessPayment { claim_id: Seq<char>, provider: Pubkey, patient: Pubkey },
}

/// The result of an attempt on a ledger, given what the executable code
/// reported and the ledger it left behind.
pub open spec fn outcome(
    result: Result<(), ErrorCode>,
    after: LedgerView,
) -> Result<LedgerView, ErrorCode> {
    match result {
        Ok(()) => Ok(after),
        Err(e) => Err(e),
    }
}

/// The balances after `lamports` have left `from` and then reached `to`.
pub open spec fn moved(
    balances: Map<Pubkey, nat>,
    from: Pubkey,
    to: Pubkey,
    lamports: nat,
) -> Map<Pubkey, nat> {
    let debited = balances.insert(from, (balances[from] - lamports) as nat);
    debited.insert(to, debited[to] + lamports)
}

impl LedgerView {
    /// A new ledger: no records, the clock at 0, and the whole `supply` in
    /// the hands of `faucet`.
    pub open spec fn genesis(faucet: Pubkey, supply: u64) -> LedgerView {
        LedgerView {
            patients: Map::empty(),
            providers: Map::empty(),
            health_data: Map::empty(),
            claims: Map::empty(),
            balances: Map::total(
                |key: Pubkey|
                    if key == faucet {
                        supply as nat
                    } else {
                        0nat
                    },
            ),
            unix_timestamp: 0,
        }
    }

    /// Whether the ledger is one that instructions can have built: every
    /// credential has a balance, and every record lies under its own key.
    pub open spec fn well_formed(self) -> bool {
        &&& forall|key: Pubkey| self.balances.contains_key(key)
        &&& forall|key: Pubkey| #[trigger]
            self.patients.contains_key(key) ==> self.patients[key].authority == key
        &&& forall|key: Pubkey| #[trigger]
            self.providers.contains_key(key) ==> self.providers[key].authority == key
        &&& forall|hash: Seq<char>| #[trigger]
            self.health_data.contains_key(hash) ==> self.health_data[hash].data_hash == hash
        &&& forall|id: Seq<char>| #[trigger]
            self.claims.contains_key(id) ==> self.claims[id].claim_id == id
    }

    /// The funds that `key` holds.
    pub open spec fn balance(self, key: Pubkey) -> nat {
        self.balances[key]
    }

    /// The ledger that an attempt leaves behind: the new one if it
    /// succeeded, this one, untouched, if it was refused.
    pub open spec fn after(self, attempt: Result<LedgerView, ErrorCode>) -> LedgerView {
        match attempt {
            Ok(next) => next,
            Err(_) => self,
        }
    }

    /// The clock moved to `now`, unless that would turn it back.
    pub open spec fn advance_clock(self, now: i64) -> LedgerView {
        LedgerView {
            unix_timestamp: if now > self.unix_timestamp {
                now
            } else {
                self.unix_timestamp
            },
            ..self
        }
    }

    /// Moves `lamports` from `from` to `to`; refused as `InsufficientFunds`
    /// when `from` holds less than that.
    pub open spec fn transfer(
        self,
        from: Pubkey,
        to: Pubkey,
        lamports: u64,
    ) -> Result<LedgerView, ErrorCode> {
        if self.balances[from] < lamports {
            Err(ErrorCode::InsufficientFunds)
        } else {
            Ok(LedgerView { balances: moved(self.balances, from, to, lamports as nat), ..self })
        }
    }

    /// Registers the patient `authority`; refused as `AlreadyExists` when
    /// that credential has registered a patient before.
    pub open spec fn initialize_patient(
        self,
        authority: Pubkey,
        did: Seq<char>,
    ) -> Result<LedgerView, ErrorCode> {
        if self.patients.contains_key(authority) {
            Err(ErrorCode::AlreadyExists)
        } else {
            let account = PatientAccountView { authority, did };
            Ok(LedgerView { patients: self.patients.insert(authority, account), ..self })
        }
    }

    /// Registers the provider `authority`; refused as `AlreadyExists` when
    /// that credential has registered a provider before.
    pub open spec fn initialize_provider(
        self,
        authority: Pubkey,
        did: Seq<char>,
        name: Seq<char>,
    ) -> Result<LedgerView, ErrorCode> {
        if self.providers.contains_key(authority) {
            Err(ErrorCode::AlreadyExists)
        } else {
            let account = ProviderAccountView { authority, did, name };
            Ok(LedgerView { providers: self.providers.insert(authority, account), ..self })
        }
    }

    /// Stores a health record of `owner` under `data_hash`, stamped with the
    /// time on the clock; refused as `AlreadyExists` when a record is
    /// already stored under that hash.
    pub open spec fn submit_health_data(
        self,
        owner: Pubkey,
        data_hash: Seq<char>,
        encrypted_data: Seq<char>,
    ) -> Result<LedgerView, ErrorCode> {
        if self.health_data.contains_key(data_hash) {
            Err(ErrorCode::AlreadyExists)
        } else {
            let account = HealthDataAccountView {
                owner,
                data_hash,
                encrypted_data,
                timestamp: self.unix_timestamp,
            };
            Ok(LedgerView { health_data: self.health_data.insert(data_hash, account), ..self })
        }
    }

    /// Opens a pending claim of `patient` on `provider` under `claim_id`,
    /// stamped with the time on the clock; refused as `AlreadyExists` when a
    /// claim already has that identifier. Neither the parties nor the health
    /// record need to be known to the ledger.
    pub open spec fn create_claim(
        self,
        patient: Pubkey,
        provider: Pubkey,
        claim_id: Seq<char>,
        amount: u64,
        health_data_hash: Seq<char>,
    ) -> Result<LedgerView, ErrorCode> {
        if self.claims.contains_key(claim_id) {
            Err(ErrorCode::AlreadyExists)
        } else {
            let account = ClaimAccountView::opened(
                claim_id,
                patient,
                provider,
                health_data_hash,
                amount,
                self.unix_timestamp,
            );
            Ok(LedgerView { claims: self.claims.insert(claim_id, account), ..self })
        }
    }

    /// Records the decision of `acting_provider` on the claim `claim_id`.
    /// Refused, in this order, as `ClaimNotFound` when there is no such
    /// claim, `Unauthorized` when another provider is recorded on it, and
    /// `InvalidTransition` unless the claim is pending and the decision is
    /// `Verified` or `Rejected`.
    pub open spec fn verify_claim(
        self,
        claim_id: Seq<char>,
        acting_provider: Pubkey,
        status: ClaimStatus,
    ) -> Result<LedgerView, ErrorCode> {
        if !self.claims.contains_key(claim_id) {
            Err(ErrorCode::ClaimNotFound)
        } else {
            match self.claims[claim_id].adjudicate(acting_provider, status) {
                Err(e) => Err(e),
                Ok(decided) => Ok(
                    LedgerView { claims: self.claims.insert(claim_id, decided), ..self },
                ),
            }
        }
    }

    /// Settles the claim `claim_id`: its amount moves from the provider to
    /// the patient and the claim becomes paid, both or neither.
    ///
    /// Refused, in this order, as `ClaimNotFound` when there is no such
    /// claim, `Unauthorized` when `acting_provider` is not its provider,
    /// `InvalidPatient` when `acting_patient` is not its patient,
    /// `ClaimNotVerified` when it is not verified, and `InsufficientFunds`
    /// when the provider holds less than its amount.
    pub open spec fn process_payment(
        self,
        claim_id: Seq<char>,
        acting_provider: Pubkey,
        acting_patient: Pubkey,
    ) -> Result<LedgerView, ErrorCode> {
        if !self.claims.contains_key(claim_id) {
            Err(ErrorCode::ClaimNotFound)
        } else {
            let claim = self.claims[claim_id];
            match claim.authorize_payment(acting_provider, acting_patient) {
                Err(e) => Err(e),
                Ok(amount) => match self.transfer(acting_provider, acting_patient, amount) {
                    Err(e) => Err(e),
                    Ok(paid) => {
                        let settled = claim.with_status(ClaimStatus::Paid);
                        Ok(LedgerView { claims: self.claims.insert(claim_id, settled), ..paid })
                    },
                },
            }
        }
    }

    /// What an instruction does to the ledger.
    pub open spec fn apply(self, instruction: InstructionView) -> Result<LedgerView, ErrorCode> {
        match instruction {
            InstructionView::InitializePatient { authority, did } => {
                self.initialize_patient(authority, did)
            },
            InstructionView::InitializeProvider { authority, did, name } => {
                self.initialize_provider(authority, did, name)
            },
            InstructionView::SubmitHealthData { owner, data_hash, encrypted_data } => {
                self.submit_health_data(owner, data_hash, encrypted_data)
            },
            InstructionView::CreateClaim {
                patient,
                provider,
                claim_id,
                amount,
                health_data_hash,
            } => self.create_claim(patient, provider, claim_id, amount, health_data_hash),
            InstructionView::VerifyClaim { claim_id, provider, status } => {
                self.verify_claim(claim_id, provider, status)
            },
            InstructionView::ProcessPayment { claim_id, provider, patient } => {
                self.process_payment(claim_id, provider, patient)
            },
        }
    }
}

} // verus!
