//! A verified core for a medical-claims workflow on an account ledger.
//!
//! Patients and providers register identities, patients store hashed,
//! encrypted health records and open claims against them, providers decide
//! the claims, and a verified claim is settled by a payment from the
//! provider to the patient.
//!
//! - [`state`] holds the records and the rules each record enforces.
//! - [`model`] is the ledger as a mathematical object: what every
//!   instruction does, stated once.
//! - [`ledger`] is the executable ledger, and [`instructions`] the
//!   instructions that run on it, each proved against the model.
//! - [`laws`] proves what holds of every ledger and every instruction.

pub mod error;
pub mod instructions;
pub mod laws;
pub mod ledger;
pub mod model;
pub mod pubkey;
pub mod state;
pub mod status;
mod table;

pub use error::ErrorCode;
pub use instructions::{
    create_claim, initialize_patient, initialize_provider, process_instruction, process_payment,
    submit_health_data, verify_claim, CreateClaim, InitializePatient, InitializeProvider,
    Instruction, ProcessPayment, SubmitHealthData, VerifyClaim,
};
pub use ledger::Ledger;
pub use pubkey::Pubkey;
pub use state::{ClaimAccount, HealthDataAccount, PatientAccount, ProviderAccount};
pub use status::ClaimStatus;
