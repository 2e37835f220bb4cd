//! The handlers of the three operations. Each works on the accounts that the
//! ledger loaded for it and changes nothing when it fails, so that the ledger
//! can commit all of its writes or none.
use vstd::prelude::*;
use vstd::string::StrSliceExecFns;
use crate::address::Address;
use crate::cooldown::{eligibility, is_eligible};
use crate::errors::TapShieldErr;
use crate::states::{ClaimRecord, FaucetRegistry, UserClaimRegistry};

verus! {

/// The longest faucet name, in characters.
pub const MAX_NAME_LEN: usize = 32;

/// Why a faucet name is refused, if it is.
pub open spec fn name_error(name: Seq<char>) -> Option<TapShieldErr> {
    if name.len() > MAX_NAME_LEN {
        Some(TapShieldErr::FaucetNameTooLong)
    } else if name.len() == 0 {
        Some(TapShieldErr::FaucetNameEmpty)
    } else {
        None
    }
}

/// The accounts of a faucet registration: the operator who signs and the
/// fresh registry account.
pub struct InitializeFaucet {
    pub operator: Address,
    pub faucet_registry: FaucetRegistry,
    /// The time of the host's clock when the operation runs.
    pub now: i64,
}

impl InitializeFaucet {
    /// Fills the fresh registry: the operator, the name, no claims yet and the
    /// current time. Refuses a name longer than `MAX_NAME_LEN` characters or an
    /// empty one, and then leaves the accounts as they were.
    pub fn initialize_faucet(&mut self, name: String) -> (r: Result<(), TapShieldErr>)
        ensures
            r matches Err(e) ==> name_error(name@) == Some(e) && *final(self) == *old(self),
            r is Ok ==> name_error(name@) is None && final(self).operator == old(self).operator
                && final(self).now == old(self).now && final(self).faucet_registry == (
            FaucetRegistry {
                operator: old(self).operator,
                name: name,
                total_claims: 0,
                created_at: old(self).now,
            }),
    {
        let len = name.as_str().unicode_len();
        if len > MAX_NAME_LEN {
            return Err(TapShieldErr::FaucetNameTooLong);
        }
        if len == 0 {
            return Err(TapShieldErr::FaucetNameEmpty);
        }
        self.faucet_registry = FaucetRegistry {
            operator: self.operator,
            name,
            total_claims: 0,
            created_at: self.now,
        };
        Ok(())
    }
}

/// Why a claim request is malformed, if it is: a zero amount, a non-positive
/// cooldown, or an asserted claimer that is not the claimer account.
pub open spec fn request_error(
    claimer: Address,
    claimer_pubkey: Address,
    amount: u64,
    cooldown_second: i64,
) -> Option<TapShieldErr> {
    if amount == 0 {
        Some(TapShieldErr::InvalidInput)
    } else if cooldown_second <= 0 {
        Some(TapShieldErr::InvalidCooldown)
    } else if claimer != claimer_pubkey {
        Some(TapShieldErr::InvalidClaimer)
    } else {
        None
    }
}

/// Checks the parts of a claim request that need no account.
pub fn validate_claim_request(
    claimer: &Address,
    claimer_pubkey: &Address,
    amount: u64,
    cooldown_second: i64,
) -> (r: Result<(), TapShieldErr>)
    ensures
        r matches Err(e) ==> request_error(*claimer, *claimer_pubkey, amount, cooldown_second)
            == Some(e),
        r is Ok ==> request_error(*claimer, *claimer_pubkey, amount, cooldown_second) is None,
{
    if amount == 0 {
        return Err(TapShieldErr::InvalidInput);
    }
    if cooldown_second <= 0 {
        return Err(TapShieldErr::InvalidCooldown);
    }
    if !claimer_pubkey.equals(claimer) {
        return Err(TapShieldErr::InvalidClaimer);
    }
    Ok(())
}

/// Why an admissible-looking claim is refused once the accounts are read:
/// the cooldown rule, or a counter that would overflow.
pub open spec fn admission_error(
    index: UserClaimRegistry,
    faucet: FaucetRegistry,
    cooldown_second: i64,
    now: i64,
) -> Option<TapShieldErr> {
    match eligibility(now, index.last_claim_timestamp, cooldown_second, index.has_claimed_spec()) {
        Err(e) => Some(e),
        Ok(false) => Some(TapShieldErr::ClaimTooRecent),
        Ok(true) => if faucet.total_claims == u64::MAX || index.total_claims_across_faucets
            == u64::MAX {
            Some(TapShieldErr::CounterOverflow)
        } else {
            None
        },
    }
}

/// The accounts of a claim: the operator who signs, the claimer, the
/// faucet's registry (at `faucet_address`), the fresh claim record and the
/// claimer's index (an empty one where the claimer never claimed).
pub struct RecordClaim {
    pub operator: Address,
    pub claimer: Address,
    pub faucet_address: Address,
    pub faucet_registry: FaucetRegistry,
    pub claim_record: ClaimRecord,
    pub user_claim_registry: UserClaimRegistry,
    /// The time of the host's clock when the operation runs.
    pub now: i64,
}

impl RecordClaim {
    /// Admits a claim of `amount` by `claimer_pubkey`: checks the request, then
    /// the cooldown against the claimer's index; on success writes the claim
    /// record, counts the claim on the faucet and on the index, and stamps the
    /// index with the time and the faucet. On failure the accounts are left as
    /// they were.
    pub fn record_claim(&mut self, claimer_pubkey: Address, amount: u64, cooldown_second: i64) -> (r:
        Result<(), TapShieldErr>)
        ensures
            r matches Err(e) ==> *final(self) == *old(self) && (request_error(
                old(self).claimer,
                claimer_pubkey,
                amount,
                cooldown_second,
            ) == Some(e) || (request_error(old(self).claimer, claimer_pubkey, amount, cooldown_second) is None
                && admission_error(
                old(self).user_claim_registry,
                old(self).faucet_registry,
                cooldown_second,
                old(self).now,
            ) == Some(e))),
            r is Ok <==> request_error(old(self).claimer, claimer_pubkey, amount, cooldown_second) is None
                && admission_error(
                old(self).user_claim_registry,
                old(self).faucet_registry,
                cooldown_second,
                old(self).now,
            ) is None,
            r is Ok ==> {
                &&& final(self).operator == old(self).operator
                &&& final(self).claimer == old(self).claimer
                &&& final(self).faucet_address == old(self).faucet_address
                &&& final(self).now == old(self).now
                &&& final(self).claim_record == (ClaimRecord {
                    claimer: claimer_pubkey,
                    faucet_id: old(self).faucet_address,
                    amount,
                    timestamp: old(self).now,
                })
                &&& final(self).faucet_registry == (FaucetRegistry {
                    total_claims: (old(self).faucet_registry.total_claims + 1) as u64,
                    ..old(self).faucet_registry
                })
                &&& final(self).user_claim_registry == (UserClaimRegistry {
                    user: claimer_pubkey,
                    last_claim_timestamp: old(self).now,
                    last_faucet: old(self).faucet_address,
                    total_claims_across_faucets: (old(
                        self,
                    ).user_claim_registry.total_claims_across_faucets + 1) as u64,
                })
            },
    {
        validate_claim_request(&self.claimer, &claimer_pubkey, amount, cooldown_second)?;
        let index = &self.user_claim_registry;
        let eligible = is_eligible(
            self.now,
            index.last_claim_timestamp,
            cooldown_second,
            !index.user.is_zero(),
        )?;
        if !eligible {
            return Err(TapShieldErr::ClaimTooRecent);
        }
        if self.faucet_registry.total_claims == u64::MAX
            || index.total_claims_across_faucets == u64::MAX {
            return Err(TapShieldErr::CounterOverflow);
        }
        self.claim_record = ClaimRecord {
            claimer: claimer_pubkey,
            faucet_id: self.faucet_address,
            amount,
            timestamp: self.now,
        };
        self.user_claim_registry = UserClaimRegistry {
            user: claimer_pubkey,
            last_claim_timestamp: self.now,
            last_faucet: self.faucet_address,
            total_claims_across_faucets: self.user_claim_registry.total_claims_across_faucets + 1,
        };
        self.faucet_registry.total_claims = self.faucet_registry.total_claims + 1;
        Ok(())
    }
}

/// The accounts of an eligibility query: the claimer and the claimer's index
/// (an empty one where the claimer never claimed).
pub struct CheckEligibility {
    pub claimer: Address,
    pub user_claim_registry: UserClaimRegistry,
    /// The time of the host's clock when the operation runs.
    pub now: i64,
}

/// The answer to an eligibility query: a non-positive cooldown is refused
/// first, then an asserted claimer that is not the claimer account; otherwise
/// the verdict of the cooldown rule on the claimer's index.
pub open spec fn eligibility_answer(
    claimer: Address,
    index: UserClaimRegistry,
    claimer_pubkey: Address,
    cooldown_second: i64,
    now: i64,
) -> Result<bool, TapShieldErr> {
    if cooldown_second <= 0 {
        Err(TapShieldErr::InvalidCooldown)
    } else if claimer != claimer_pubkey {
        Err(TapShieldErr::InvalidClaimer)
    } else {
        eligibility(now, index.last_claim_timestamp, cooldown_second, index.has_claimed_spec())
    }
}

impl CheckEligibility {
    /// Whether `claimer_pubkey` may claim now under `cooldown_second`, without
    /// changing anything.
    pub fn check_eligibility(&self, claimer_pubkey: Address, cooldown_second: i64) -> (r: Result<
        bool,
        TapShieldErr,
    >)
        ensures
            r == eligibility_answer(
                self.claimer,
                self.user_claim_registry,
                claimer_pubkey,
                cooldown_second,
                self.now,
            ),
    {
        if cooldown_second <= 0 {
            return Err(TapShieldErr::InvalidCooldown);
        }
        if !claimer_pubkey.equals(&self.claimer) {
            return Err(TapShieldErr::InvalidClaimer);
        }
        let index = &self.user_claim_registry;
        is_eligible(self.now, index.last_claim_timestamp, cooldown_second, !index.user.is_zero())
    }
}

} // verus!
