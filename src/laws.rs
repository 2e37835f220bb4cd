//! Properties of the ledger that relate several operations or hold in every
//! state, proved from the operations' contracts.
use vstd::prelude::*;
use crate::address::{lemma_zero_address, user_key, faucet_key, Address};
use crate::cooldown::eligibility;
use crate::errors::TapShieldErr;
use crate::instructions::{eligibility_answer, request_error};
use crate::ledger::{
    claim_addresses, claim_count, claim_error, claimed, lemma_claim_addresses, registered,
    registration_error, Ledger,
};

verus! {

/// A faucet is registered once: after `operator` registered a faucet, another
/// registration for the same operator fails with `FaucetAlreadyExists`,
/// whatever the name.
pub proof fn lemma_register_once(
    before: Ledger,
    after: Ledger,
    operator: Address,
    name: String,
    now: i64,
    other_name: Seq<char>,
)
    requires
        before.wf(),
        registration_error(before, operator, name@) is None,
        registered(before, after, operator, name, now),
    ensures
        registration_error(after, operator, other_name) == Some(TapShieldErr::FaucetAlreadyExists),
{
}

/// A claim keeps every registered faucet registered, so a registration that
/// was refused as a duplicate stays refused.
pub proof fn lemma_claim_keeps_faucets(
    before: Ledger,
    after: Ledger,
    operator: Address,
    claimer: Address,
    claimer_pubkey: Address,
    amount: u64,
    cooldown_seconds: i64,
    now: i64,
    other_operator: Address,
    name: Seq<char>,
)
    requires
        before.wf(),
        claim_error(before, operator, claimer, claimer_pubkey, amount, cooldown_seconds, now) is None,
        claimed(before, after, operator, claimer, amount, now),
        registration_error(before, other_operator, name) == Some(TapShieldErr::FaucetAlreadyExists),
    ensures
        registration_error(after, other_operator, name) == Some(TapShieldErr::FaucetAlreadyExists),
{
}

/// Cooldown: once `claimer` has claimed at `t1`, its next claim at a later
/// `t2`, from any registered faucet and under a cooldown `cooldown_seconds`,
/// is refused as too recent exactly when fewer than `cooldown_seconds` have
/// passed; when enough have passed, only a full counter or an unavailable or
/// taken record address can refuse it.
pub proof fn lemma_cooldown(
    l0: Ledger,
    l1: Ledger,
    operator1: Address,
    claimer: Address,
    amount1: u64,
    cooldown1: i64,
    t1: i64,
    operator2: Address,
    amount2: u64,
    cooldown_seconds: i64,
    t2: i64,
)
    requires
        l0.wf(),
        claim_error(l0, operator1, claimer, claimer, amount1, cooldown1, t1) is None,
        claimed(l0, l1, operator1, claimer, amount1, t1),
        !claimer.is_zero_spec(),
        t1 < t2,
        t2 - t1 <= i64::MAX,
        request_error(claimer, claimer, amount2, cooldown_seconds) is None,
        faucet_key(l1.program(), operator2) is Some,
        l1.faucets_spec().contains_key(faucet_key(l1.program(), operator2)->0),
        l1.faucets_spec()[faucet_key(l1.program(), operator2)->0].operator == operator2,
    ensures
        claim_error(l1, operator2, claimer, claimer, amount2, cooldown_seconds, t2) == Some(
            TapShieldErr::ClaimTooRecent,
        ) <==> t2 - t1 < cooldown_seconds,
        t2 - t1 >= cooldown_seconds ==> match claim_error(
            l1,
            operator2,
            claimer,
            claimer,
            amount2,
            cooldown_seconds,
            t2,
        ) {
            None => true,
            Some(e) => e == TapShieldErr::CounterOverflow || e == TapShieldErr::AddressUnavailable
                || e == TapShieldErr::ClaimAlreadyExists,
        },
{
    let uk = user_key(l0.program(), claimer)->0;
    assert(l1.users_spec().contains_key(uk));
    let index = l1.index_at(Some(uk));
    assert(index.user == claimer);
    assert(index.last_claim_timestamp == t1);
    assert(eligibility(t2, t1, cooldown_seconds, true) == Ok::<bool, TapShieldErr>(t2 - t1 >= cooldown_seconds));
}

/// A claimer who has no index is eligible under any positive cooldown.
pub proof fn lemma_first_claim_exempt(l: Ledger, claimer: Address, cooldown_seconds: i64, now: i64)
    requires
        l.wf(),
        cooldown_seconds > 0,
        user_key(l.program(), claimer) matches Some(uk) ==> !l.users_spec().contains_key(uk),
    ensures
        eligibility_answer(claimer, l.index_of(claimer), claimer, cooldown_seconds, now) == Ok::<
            bool,
            TapShieldErr,
        >(true),
        eligibility(now, l.index_of(claimer).last_claim_timestamp, cooldown_seconds, l.index_of(claimer).has_claimed_spec())
            == Ok::<bool, TapShieldErr>(true),
{
    lemma_zero_address(claimer);
}

/// Counter consistency: in a well-formed ledger a faucet's counter is the
/// number of claim records from it, and those records stand at exactly that
/// many distinct addresses, each holding a record from that faucet.
pub proof fn lemma_counter_consistency(l: Ledger, faucet: Address)
    requires
        l.wf(),
        l.faucets_spec().contains_key(faucet),
    ensures
        l.faucets_spec()[faucet].total_claims == claim_count(l.claim_log(), faucet),
        claim_addresses(l.claim_log(), faucet).finite(),
        claim_addresses(l.claim_log(), faucet).len() == l.faucets_spec()[faucet].total_claims,
        forall|a: Address| #[trigger] claim_addresses(l.claim_log(), faucet).contains(a)
            ==> l.claims_spec().contains_key(a) && l.claims_spec()[a].faucet_id == faucet,
{
    lemma_claim_addresses(l.claim_log(), faucet);
    assert forall|a: Address| #[trigger] claim_addresses(l.claim_log(), faucet).contains(a)
        implies l.claims_spec().contains_key(a) && l.claims_spec()[a].faucet_id == faucet by {
        let i = choose|i: int| 0 <= i < l.claim_log().len() && (#[trigger] l.claim_log()[i]).0 == a && l.claim_log()[i].1.faucet_id == faucet;
        assert(l.claims_spec().contains_key(l.claim_log()[i].0));
    }
}

} // verus!
