//! The ways an operation on the ledger can fail.
use vstd::prelude::*;

verus! {

/// Why an operation was refused. No refused operation changes the ledger.
#[derive(Debug, Clone, Copy, PartialEq, Eq, Structural)]
pub enum TapShieldErr {
    UnauthorizedSigner,
    UnauthorizedFaucet,
    UnregisteredFaucet,
    ClaimAlreadyExists,
    FaucetAlreadyExists,
    ClaimTooRecent,
    InvalidClaimer,
    InvalidTimestamp,
    InvalidCooldown,
    InvalidInput,
    FaucetNameTooLong,
    FaucetNameEmpty,
    /// A counter would pass `u64::MAX`.
    CounterOverflow,
    /// No program-derived address exists for the record's seeds.
    AddressUnavailable,
}

impl TapShieldErr {
    /// A short human-readable description.
    pub fn message(&self) -> (r: &'static str) {
        match self {
            TapShieldErr::UnauthorizedSigner => "Unauthorized Signer",
            TapShieldErr::UnauthorizedFaucet => "Unauthorized Faucet",
            TapShieldErr::UnregisteredFaucet => "Unregistered Faucet",
            TapShieldErr::ClaimAlreadyExists => "Claim already exists",
            TapShieldErr::FaucetAlreadyExists => "Faucet Already Exists",
            TapShieldErr::ClaimTooRecent => "Claim too recent",
            TapShieldErr::InvalidClaimer => "Invalid Claimer",
            TapShieldErr::InvalidTimestamp => "Invalid Timestamp",
            TapShieldErr::InvalidCooldown => "Invalid Cooldown",
            TapShieldErr::InvalidInput => "Invalid Input",
            TapShieldErr::FaucetNameTooLong => "Faucet name exceed 32 characters",
            TapShieldErr::FaucetNameEmpty => "Faucet name is empty",
            TapShieldErr::CounterOverflow => "Counter overflow",
            TapShieldErr::AddressUnavailable => "No viable program address",
        }
    }
}

} // verus!
