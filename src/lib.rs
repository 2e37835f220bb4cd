//! A rate-limited faucet ledger: operators register faucets, users claim from
//! them, and a per-user cooldown gates each claim. Every record stands at an
//! address derived from its seeds; a claim's writes are committed together or
//! not at all.
pub mod address;
pub mod cooldown;
pub mod errors;
pub mod instructions;
pub mod laws;
pub mod ledger;
pub mod states;
pub mod store;

pub use address::Address;
pub use errors::TapShieldErr;
pub use instructions::{CheckEligibility, InitializeFaucet, RecordClaim};
pub use ledger::{check_eligibility, initialize_faucet, record_claim, Ledger};
pub use states::{ClaimRecord, FaucetRegistry, UserClaimRegistry};
