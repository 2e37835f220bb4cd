//! The records that the ledger keeps.
use vstd::prelude::*;
use crate::address::{Address, zero_address};

verus! {

/// A registered faucet: who runs it, its name, how many claims it has served
/// and when it was registered.
#[derive(Debug)]
pub struct FaucetRegistry {
    pub operator: Address,
    pub name: String,
    pub total_claims: u64,
    pub created_at: i64,
}

impl FaucetRegistry {
    /// A field-by-field copy.
    pub fn duplicate(&self) -> (r: FaucetRegistry)
        ensures
            r == *self,
    {
        FaucetRegistry {
            operator: self.operator,
            name: self.name.clone(),
            total_claims: self.total_claims,
            created_at: self.created_at,
        }
    }
}

/// One successful claim. Never changed once written.
#[derive(Debug, Clone, Copy)]
pub struct ClaimRecord {
    pub claimer: Address,
    pub faucet_id: Address,
    pub amount: u64,
    pub timestamp: i64,
}

/// What the ledger knows of one claimer across all faucets. A record whose
/// `user` is the zero address stands for a claimer who never claimed.
#[derive(Debug, Clone, Copy)]
pub struct UserClaimRegistry {
    pub user: Address,
    pub last_claim_timestamp: i64,
    pub last_faucet: Address,
    pub total_claims_across_faucets: u64,
}

impl UserClaimRegistry {
    /// The record of a claimer who never claimed: every field zero.
    pub open spec fn empty_spec() -> UserClaimRegistry {
        UserClaimRegistry {
            user: zero_address(),
            last_claim_timestamp: 0,
            last_faucet: zero_address(),
            total_claims_across_faucets: 0,
        }
    }

    /// The record of a claimer who never claimed: every field zero.
    pub fn empty() -> (r: UserClaimRegistry)
        ensures
            r == UserClaimRegistry::empty_spec(),
    {
        UserClaimRegistry {
            user: Address::zero(),
            last_claim_timestamp: 0,
            last_faucet: Address::zero(),
            total_claims_across_faucets: 0,
        }
    }

    /// Whether this record shows an earlier claim.
    pub open spec fn has_claimed_spec(&self) -> bool {
        !self.user.is_zero_spec()
    }
}

} // verus!
