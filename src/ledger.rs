//! The ledger: faucet registries, the append-only log of claim records and
//! the claimers' indexes, each keyed by its derived address, and the three
//! operations on them.
use vstd::prelude::*;
use crate::address::{Address, claim_address, claim_key, faucet_address, faucet_key, user_address, user_key};
use crate::errors::TapShieldErr;
use crate::instructions::{
    admission_error, eligibility_answer, name_error, request_error, validate_claim_request,
    CheckEligibility, InitializeFaucet, RecordClaim,
};
use crate::states::{ClaimRecord, FaucetRegistry, UserClaimRegistry};
use crate::store::AccountStore;

verus! {

/// How many records of `log` were claimed from the faucet at `faucet`.
pub open spec fn claim_count(log: Seq<(Address, ClaimRecord)>, faucet: Address) -> nat
    decreases log.len(),
{
    if log.len() == 0 {
        0
    } else {
        claim_count(log.drop_last(), faucet) + if log.last().1.faucet_id == faucet {
            1nat
        } else {
            0nat
        }
    }
}

/// The addresses of the records of `log` claimed from the faucet at `faucet`.
pub open spec fn claim_addresses(log: Seq<(Address, ClaimRecord)>, faucet: Address) -> Set<Address>
    decreases log.len(),
{
    if log.len() == 0 {
        Set::empty()
    } else if log.last().1.faucet_id == faucet {
        claim_addresses(log.drop_last(), faucet).insert(log.last().0)
    } else {
        claim_addresses(log.drop_last(), faucet)
    }
}

/// Appending one record counts it for its own faucet only.
pub proof fn lemma_claim_count_push(log: Seq<(Address, ClaimRecord)>, entry: (Address, ClaimRecord), faucet: Address)
    ensures
        claim_count(log.push(entry), faucet) == claim_count(log, faucet) + if entry.1.faucet_id
            == faucet {
            1nat
        } else {
            0nat
        },
{
    assert(log.push(entry).drop_last() =~= log);
}

/// A faucet that no record names has no claims.
pub proof fn lemma_claim_count_none(log: Seq<(Address, ClaimRecord)>, faucet: Address)
    requires
        forall|i: int| 0 <= i < log.len() ==> (#[trigger] log[i]).1.faucet_id != faucet,
    ensures
        claim_count(log, faucet) == 0,
    decreases log.len(),
{
    if log.len() > 0 {
        assert forall|i: int| 0 <= i < log.drop_last().len() implies (#[trigger] log.drop_last()[i]).1.faucet_id != faucet by {
            assert(log.drop_last()[i] == log[i]);
        }
        lemma_claim_count_none(log.drop_last(), faucet);
        assert(log[log.len() - 1].1.faucet_id != faucet);
    }
}

/// With distinct addresses, a faucet has as many claim addresses as claims,
/// each the address of a record of the log.
pub proof fn lemma_claim_addresses(log: Seq<(Address, ClaimRecord)>, faucet: Address)
    requires
        forall|i: int, j: int|
            0 <= i < log.len() && 0 <= j < log.len() && i != j ==> (#[trigger] log[i]).0
                != (#[trigger] log[j]).0,
    ensures
        claim_addresses(log, faucet).finite(),
        claim_addresses(log, faucet).len() == claim_count(log, faucet),
        forall|a: Address| #[trigger] claim_addresses(log, faucet).contains(a) ==> exists|i: int|
            0 <= i < log.len() && (#[trigger] log[i]).0 == a && log[i].1.faucet_id == faucet,
    decreases log.len(),
{
    if log.len() > 0 {
        let rest = log.drop_last();
        assert forall|i: int, j: int|
            0 <= i < rest.len() && 0 <= j < rest.len() && i != j implies (#[trigger] rest[i]).0
                != (#[trigger] rest[j]).0 by {
            assert(rest[i] == log[i] && rest[j] == log[j]);
        }
        lemma_claim_addresses(rest, faucet);
        let last = log.last();
        assert forall|a: Address| #[trigger] claim_addresses(log, faucet).contains(a) implies exists|i: int|
            0 <= i < log.len() && (#[trigger] log[i]).0 == a && log[i].1.faucet_id == faucet by {
            if claim_addresses(rest, faucet).contains(a) {
                let i = choose|i: int| 0 <= i < rest.len() && (#[trigger] rest[i]).0 == a && rest[i].1.faucet_id == faucet;
                assert(log[i] == rest[i]);
            } else {
                assert(log[log.len() - 1] == last);
            }
        }
        if last.1.faucet_id == faucet {
            if claim_addresses(rest, faucet).contains(last.0) {
                let i = choose|i: int| 0 <= i < rest.len() && (#[trigger] rest[i]).0 == last.0 && rest[i].1.faucet_id == faucet;
                assert(log[i] == rest[i]);
                assert(log[i].0 == log[log.len() - 1].0);
            }
        }
    }
}

/// Record `i` of `log` is the latest one claimed by `user`.
pub open spec fn latest_claim_of(log: Seq<(Address, ClaimRecord)>, user: Address, i: int) -> bool {
    &&& 0 <= i < log.len()
    &&& log[i].1.claimer == user
    &&& forall|j: int| i < j < log.len() ==> (#[trigger] log[j]).1.claimer != user
}

/// The state of the faucet program.
pub struct Ledger {
    program_id: Address,
    faucets: AccountStore<FaucetRegistry>,
    claims: AccountStore<ClaimRecord>,
    users: AccountStore<UserClaimRegistry>,
}

impl Ledger {
    /// The program whose addresses the ledger derives.
    pub closed spec fn program(&self) -> Address {
        self.program_id
    }

    /// Faucet registries, by registry address.
    pub closed spec fn faucets_spec(&self) -> Map<Address, FaucetRegistry> {
        self.faucets@
    }

    /// Claim records, by record address.
    pub closed spec fn claims_spec(&self) -> Map<Address, ClaimRecord> {
        self.claims@
    }

    /// Claim records with their addresses, oldest first.
    pub closed spec fn claim_log(&self) -> Seq<(Address, ClaimRecord)> {
        self.claims.entries_spec()
    }

    /// Claimer indexes, by index address.
    pub closed spec fn users_spec(&self) -> Map<Address, UserClaimRegistry> {
        self.users@
    }

    /// Each store keeps its own invariant.
    pub closed spec fn stores_wf(&self) -> bool {
        &&& self.faucets.wf()
        &&& self.claims.wf()
        &&& self.users.wf()
    }

    /// The ledger's invariant: the log and the record map agree, record
    /// addresses are distinct, every record names a registered faucet, and
    /// each faucet's counter is the number of records claimed from it.
    pub open spec fn wf(&self) -> bool {
        &&& self.stores_wf()
        &&& forall|i: int|
            0 <= i < self.claim_log().len() ==> self.claims_spec().contains_key(
                (#[trigger] self.claim_log()[i]).0,
            ) && self.claims_spec()[self.claim_log()[i].0] == self.claim_log()[i].1
                && self.faucets_spec().contains_key(self.claim_log()[i].1.faucet_id)
        &&& forall|a: Address|
            #[trigger] self.claims_spec().contains_key(a) ==> exists|i: int|
                0 <= i < self.claim_log().len() && (#[trigger] self.claim_log()[i]).0 == a
        &&& forall|i: int, j: int|
            0 <= i < self.claim_log().len() && 0 <= j < self.claim_log().len() && i != j
                ==> (#[trigger] self.claim_log()[i]).0 != (#[trigger] self.claim_log()[j]).0
        &&& forall|f: Address|
            #[trigger] self.faucets_spec().contains_key(f) ==> self.faucets_spec()[f].total_claims
                == claim_count(self.claim_log(), f)
        &&& forall|k: Address|
            #[trigger] self.users_spec().contains_key(k) && !self.users_spec()[k].user.is_zero_spec()
                ==> self.index_consistent(k)
    }

    /// The index at `k` stands at its claimer's index address, and its time
    /// and faucet are those of the claimer's latest claim record.
    pub open spec fn index_consistent(&self, k: Address) -> bool {
        let u = self.users_spec()[k];
        &&& user_key(self.program(), u.user) == Some(k)
        &&& exists|i: int|
            #[trigger] latest_claim_of(self.claim_log(), u.user, i) && self.claim_log()[i].1.timestamp
                == u.last_claim_timestamp && self.claim_log()[i].1.faucet_id == u.last_faucet
    }

    /// The index of the claimer whose index is at `key`, or an empty one.
    pub open spec fn index_at(&self, key: Option<Address>) -> UserClaimRegistry {
        match key {
            Some(k) => if self.users_spec().contains_key(k) {
                self.users_spec()[k]
            } else {
                UserClaimRegistry::empty_spec()
            },
            None => UserClaimRegistry::empty_spec(),
        }
    }

    /// The index of `claimer`, or an empty one where it has none.
    pub open spec fn index_of(&self, claimer: Address) -> UserClaimRegistry {
        self.index_at(user_key(self.program(), claimer))
    }

    /// An empty ledger for the program `program_id`.
    pub fn new(program_id: Address) -> (r: Ledger)
        ensures
            r.wf(),
            r.program() == program_id,
            r.faucets_spec() == Map::<Address, FaucetRegistry>::empty(),
            r.claims_spec() == Map::<Address, ClaimRecord>::empty(),
            r.claim_log() == Seq::<(Address, ClaimRecord)>::empty(),
            r.users_spec() == Map::<Address, UserClaimRegistry>::empty(),
    {
        Ledger {
            program_id,
            faucets: AccountStore::new(),
            claims: AccountStore::new(),
            users: AccountStore::new(),
        }
    }

    /// The program whose addresses the ledger derives.
    pub fn program_id(&self) -> (r: Address)
        ensures
            r == self.program(),
    {
        self.program_id
    }

    /// The registry of the faucet run by `operator`, if there is one.
    pub fn faucet(&self, operator: &Address) -> (r: Option<&FaucetRegistry>)
        requires
            self.wf(),
        ensures
            match faucet_key(self.program(), *operator) {
                Some(fk) => match r {
                    Some(f) => self.faucets_spec().contains_key(fk) && *f == self.faucets_spec()[fk],
                    None => !self.faucets_spec().contains_key(fk),
                },
                None => r is None,
            },
    {
        match faucet_address(&self.program_id, operator) {
            Some(fk) => self.faucets.get(&fk),
            None => None,
        }
    }

    /// The index of `claimer`, if it has one.
    pub fn user_index(&self, claimer: &Address) -> (r: Option<UserClaimRegistry>)
        requires
            self.wf(),
        ensures
            match user_key(self.program(), *claimer) {
                Some(uk) => match r {
                    Some(u) => self.users_spec().contains_key(uk) && u == self.users_spec()[uk],
                    None => !self.users_spec().contains_key(uk),
                },
                None => r is None,
            },
    {
        match user_address(&self.program_id, claimer) {
            Some(uk) => match self.users.get(&uk) {
                Some(u) => Some(*u),
                None => None,
            },
            None => None,
        }
    }

    /// The number of claim records.
    pub fn claim_count(&self) -> (r: usize)
        ensures
            r == self.claim_log().len(),
    {
        self.claims.len()
    }

    /// The claim record at position `i`, oldest first, with its address.
    pub fn claim_at(&self, i: usize) -> (r: (Address, ClaimRecord))
        requires
            i < self.claim_log().len(),
        ensures
            r == self.claim_log()[i as int],
    {
        *self.claims.entry(i)
    }

    /// The claim record at `address`, if there is one.
    pub fn claim(&self, address: &Address) -> (r: Option<ClaimRecord>)
        requires
            self.wf(),
        ensures
            match r {
                Some(c) => self.claims_spec().contains_key(*address) && c == self.claims_spec()[*address],
                None => !self.claims_spec().contains_key(*address),
            },
    {
        match self.claims.get(address) {
            Some(c) => Some(*c),
            None => None,
        }
    }
}

/// Why registering a faucet for `operator` under `name` is refused, if it is:
/// no registry address, a faucet already registered there, or a bad name.
pub open spec fn registration_error(l: Ledger, operator: Address, name: Seq<char>) -> Option<
    TapShieldErr,
> {
    match faucet_key(l.program(), operator) {
        None => Some(TapShieldErr::AddressUnavailable),
        Some(fk) => if l.faucets_spec().contains_key(fk) {
            Some(TapShieldErr::FaucetAlreadyExists)
        } else {
            name_error(name)
        },
    }
}

/// `after` is `before` with a new faucet of `operator` named `name`,
/// registered at `now`, with no claims.
pub open spec fn registered(
    before: Ledger,
    after: Ledger,
    operator: Address,
    name: String,
    now: i64,
) -> bool {
    let fk = faucet_key(before.program(), operator)->0;
    &&& after.program() == before.program()
    &&& after.faucets_spec() == before.faucets_spec().insert(
        fk,
        FaucetRegistry { operator, name, total_claims: 0, created_at: now },
    )
    &&& after.claims_spec() == before.claims_spec()
    &&& after.claim_log() == before.claim_log()
    &&& after.users_spec() == before.users_spec()
}

/// Registers the faucet of `operator`, named `name`, at time `now`. Fails
/// when the operator already has a faucet or the name is refused, and then
/// changes nothing.
pub fn initialize_faucet(ledger: &mut Ledger, operator: Address, name: String, now: i64) -> (r:
    Result<(), TapShieldErr>)
    requires
        old(ledger).wf(),
    ensures
        final(ledger).wf(),
        r matches Err(e) ==> registration_error(*old(ledger), operator, name@) == Some(e)
            && *final(ledger) == *old(ledger),
        r is Ok <==> registration_error(*old(ledger), operator, name@) is None,
        r is Ok ==> registered(*old(ledger), *final(ledger), operator, name, now),
{
    let fk = match faucet_address(&ledger.program_id, &operator) {
        Some(k) => k,
        None => return Err(TapShieldErr::AddressUnavailable),
    };
    if ledger.faucets.contains(&fk) {
        return Err(TapShieldErr::FaucetAlreadyExists);
    }
    let mut ctx = InitializeFaucet {
        operator,
        faucet_registry: FaucetRegistry {
            operator: Address::zero(),
            name: String::new(),
            total_claims: 0,
            created_at: 0,
        },
        now,
    };
    ctx.initialize_faucet(name)?;
    proof {
        assert forall|i: int| 0 <= i < ledger.claim_log().len() implies (#[trigger] ledger.claim_log()[i]).1.faucet_id != fk by {
            assert(ledger.faucets_spec().contains_key(ledger.claim_log()[i].1.faucet_id));
        }
        lemma_claim_count_none(ledger.claim_log(), fk);
    }
    let ghost before = *ledger;
    ledger.faucets.insert_if_absent(fk, ctx.faucet_registry);
    proof {
        assert forall|f: Address| #[trigger] ledger.faucets_spec().contains_key(f) implies ledger.faucets_spec()[f].total_claims
            == claim_count(ledger.claim_log(), f) by {
            if f != fk {
                assert(before.faucets_spec().contains_key(f));
            }
        }
        assert forall|a: Address| #[trigger] ledger.claims_spec().contains_key(a) implies exists|i: int|
            0 <= i < ledger.claim_log().len() && (#[trigger] ledger.claim_log()[i]).0 == a by {
            assert(before.claims_spec().contains_key(a));
            let i = choose|i: int| 0 <= i < before.claim_log().len() && (#[trigger] before.claim_log()[i]).0 == a;
            assert(ledger.claim_log()[i].0 == a);
        }
        assert forall|k: Address|
            #[trigger] ledger.users_spec().contains_key(k) && !ledger.users_spec()[k].user.is_zero_spec()
                implies ledger.index_consistent(k) by {
            assert(before.index_consistent(k));
            let u = before.users_spec()[k];
            let i = choose|i: int|
                #[trigger] latest_claim_of(before.claim_log(), u.user, i) && before.claim_log()[i].1.timestamp
                    == u.last_claim_timestamp && before.claim_log()[i].1.faucet_id == u.last_faucet;
            assert(ledger.claim_log() == before.claim_log());
            assert(latest_claim_of(ledger.claim_log(), u.user, i));
        }
    }
    Ok(())
}

/// Why a claim is refused, if it is, in the order of the checks: the request
/// itself; the operator's faucet (it must exist and be the operator's); the
/// claimer's index address; the cooldown and the counters; the new record's
/// address, which must be free.
pub open spec fn claim_error(
    l: Ledger,
    operator: Address,
    claimer: Address,
    claimer_pubkey: Address,
    amount: u64,
    cooldown_seconds: i64,
    now: i64,
) -> Option<TapShieldErr> {
    match request_error(claimer, claimer_pubkey, amount, cooldown_seconds) {
        Some(e) => Some(e),
        None => match faucet_key(l.program(), operator) {
            None => Some(TapShieldErr::UnregisteredFaucet),
            Some(fk) => if !l.faucets_spec().contains_key(fk) {
                Some(TapShieldErr::UnregisteredFaucet)
            } else if l.faucets_spec()[fk].operator != operator {
                Some(TapShieldErr::UnauthorizedFaucet)
            } else {
                match user_key(l.program(), claimer) {
                    None => Some(TapShieldErr::AddressUnavailable),
                    Some(uk) => match admission_error(
                        l.index_at(Some(uk)),
                        l.faucets_spec()[fk],
                        cooldown_seconds,
                        now,
                    ) {
                        Some(e) => Some(e),
                        None => match claim_key(
                            l.program(),
                            claimer,
                            fk,
                            l.faucets_spec()[fk].total_claims,
                        ) {
                            None => Some(TapShieldErr::AddressUnavailable),
                            Some(ck) => if l.claims_spec().contains_key(ck) {
                                Some(TapShieldErr::ClaimAlreadyExists)
                            } else {
                                None
                            },
                        },
                    },
                }
            },
        },
    }
}

/// `after` is `before` with one more claim of `amount` by `claimer` from the
/// faucet of `operator` at `now`: the record is appended at the address
/// numbered by the faucet's counter, the counter goes up by one, and the
/// claimer's index records the time, the faucet and one more claim.
pub open spec fn claimed(
    before: Ledger,
    after: Ledger,
    operator: Address,
    claimer: Address,
    amount: u64,
    now: i64,
) -> bool {
    let fk = faucet_key(before.program(), operator)->0;
    let uk = user_key(before.program(), claimer)->0;
    let faucet = before.faucets_spec()[fk];
    let ck = claim_key(before.program(), claimer, fk, faucet.total_claims)->0;
    let index = before.index_at(Some(uk));
    let record = ClaimRecord { claimer, faucet_id: fk, amount, timestamp: now };
    &&& after.program() == before.program()
    &&& after.claim_log() == before.claim_log().push((ck, record))
    &&& after.claims_spec() == before.claims_spec().insert(ck, record)
    &&& after.faucets_spec() == before.faucets_spec().insert(
        fk,
        FaucetRegistry { total_claims: (faucet.total_claims + 1) as u64, ..faucet },
    )
    &&& after.users_spec() == before.users_spec().insert(
        uk,
        UserClaimRegistry {
            user: claimer,
            last_claim_timestamp: now,
            last_faucet: fk,
            total_claims_across_faucets: (index.total_claims_across_faucets + 1) as u64,
        },
    )
}

/// Admits a claim of `amount` by `claimer` (asserted as `claimer_pubkey`)
/// from the faucet of `operator`, at time `now`, under a cooldown of
/// `cooldown_seconds`. All of its writes happen, or none.
pub fn record_claim(
    ledger: &mut Ledger,
    operator: Address,
    claimer: Address,
    claimer_pubkey: Address,
    amount: u64,
    cooldown_seconds: i64,
    now: i64,
) -> (r: Result<(), TapShieldErr>)
    requires
        old(ledger).wf(),
    ensures
        final(ledger).wf(),
        r matches Err(e) ==> claim_error(
            *old(ledger),
            operator,
            claimer,
            claimer_pubkey,
            amount,
            cooldown_seconds,
            now,
        ) == Some(e) && *final(ledger) == *old(ledger),
        r is Ok <==> claim_error(
            *old(ledger),
            operator,
            claimer,
            claimer_pubkey,
            amount,
            cooldown_seconds,
            now,
        ) is None,
        r is Ok ==> claimed(*old(ledger), *final(ledger), operator, claimer, amount, now),
{
    validate_claim_request(&claimer, &claimer_pubkey, amount, cooldown_seconds)?;
    let fk = match faucet_address(&ledger.program_id, &operator) {
        Some(k) => k,
        None => return Err(TapShieldErr::UnregisteredFaucet),
    };
    let faucet = match ledger.faucets.get(&fk) {
        Some(f) => f.duplicate(),
        None => return Err(TapShieldErr::UnregisteredFaucet),
    };
    if !faucet.operator.equals(&operator) {
        return Err(TapShieldErr::UnauthorizedFaucet);
    }
    let uk = match user_address(&ledger.program_id, &claimer) {
        Some(k) => k,
        None => return Err(TapShieldErr::AddressUnavailable),
    };
    let index = match ledger.users.get(&uk) {
        Some(u) => *u,
        None => UserClaimRegistry::empty(),
    };
    let sequence = faucet.total_claims;
    let mut ctx = RecordClaim {
        operator,
        claimer,
        faucet_address: fk,
        faucet_registry: faucet,
        claim_record: ClaimRecord { claimer, faucet_id: fk, amount: 0, timestamp: 0 },
        user_claim_registry: index,
        now,
    };
    ctx.record_claim(claimer_pubkey, amount, cooldown_seconds)?;
    let ck = match claim_address(&ledger.program_id, &claimer, &fk, sequence) {
        Some(k) => k,
        None => return Err(TapShieldErr::AddressUnavailable),
    };
    let ghost before = *ledger;
    if !ledger.claims.insert_if_absent(ck, ctx.claim_record) {
        return Err(TapShieldErr::ClaimAlreadyExists);
    }
    ledger.faucets.upsert(fk, ctx.faucet_registry);
    ledger.users.upsert(uk, ctx.user_claim_registry);
    proof {
        let entry = (ck, ctx.claim_record);
        assert forall|f: Address| #[trigger] ledger.faucets_spec().contains_key(f) implies ledger.faucets_spec()[f].total_claims
            == claim_count(ledger.claim_log(), f) by {
            lemma_claim_count_push(before.claim_log(), entry, f);
        }
        assert forall|i: int| 0 <= i < ledger.claim_log().len() implies ledger.claims_spec().contains_key(
            (#[trigger] ledger.claim_log()[i]).0,
        ) && ledger.claims_spec()[ledger.claim_log()[i].0] == ledger.claim_log()[i].1
            && ledger.faucets_spec().contains_key(ledger.claim_log()[i].1.faucet_id) by {
            if i < before.claim_log().len() {
                assert(ledger.claim_log()[i] == before.claim_log()[i]);
                assert(before.claim_log()[i].0 != ck);
            }
        }
        assert forall|a: Address| #[trigger] ledger.claims_spec().contains_key(a) implies exists|i: int|
            0 <= i < ledger.claim_log().len() && (#[trigger] ledger.claim_log()[i]).0 == a by {
            if a == ck {
                assert(ledger.claim_log()[before.claim_log().len() as int].0 == a);
            } else {
                let i = choose|i: int| 0 <= i < before.claim_log().len() && (#[trigger] before.claim_log()[i]).0 == a;
                assert(ledger.claim_log()[i] == before.claim_log()[i]);
            }
        }
        assert forall|k: Address|
            #[trigger] ledger.users_spec().contains_key(k) && !ledger.users_spec()[k].user.is_zero_spec()
                implies ledger.index_consistent(k) by {
            let n = before.claim_log().len() as int;
            let log = ledger.claim_log();
            if k == uk {
                assert(latest_claim_of(log, claimer, n));
            } else {
                let x = before.users_spec()[k].user;
                assert(before.users_spec().contains_key(k));
                assert(before.index_consistent(k));
                let i = choose|i: int|
                    #[trigger] latest_claim_of(before.claim_log(), x, i) && before.claim_log()[i].1.timestamp
                        == before.users_spec()[k].last_claim_timestamp && before.claim_log()[i].1.faucet_id
                        == before.users_spec()[k].last_faucet;
                assert(x != claimer);
                assert(log[i] == before.claim_log()[i]);
                assert forall|j: int| i < j < log.len() implies (#[trigger] log[j]).1.claimer != x by {
                    if j < n {
                        assert(log[j] == before.claim_log()[j]);
                    }
                }
                assert(latest_claim_of(log, x, i));
            }
        }
        assert forall|i: int, j: int|
            0 <= i < ledger.claim_log().len() && 0 <= j < ledger.claim_log().len() && i != j
                implies (#[trigger] ledger.claim_log()[i]).0 != (#[trigger] ledger.claim_log()[j]).0 by {
            let n = before.claim_log().len() as int;
            if i < n && j < n {
                assert(ledger.claim_log()[i] == before.claim_log()[i]);
                assert(ledger.claim_log()[j] == before.claim_log()[j]);
            } else if i < n {
                assert(ledger.claim_log()[i] == before.claim_log()[i]);
                assert(before.claims_spec().contains_key(before.claim_log()[i].0));
            } else if j < n {
                assert(ledger.claim_log()[j] == before.claim_log()[j]);
                assert(before.claims_spec().contains_key(before.claim_log()[j].0));
            }
        }
    }
    Ok(())
}

/// Whether `claimer` (asserted as `claimer_pubkey`) may claim at `now` under
/// a cooldown of `cooldown_seconds`. Changes nothing.
pub fn check_eligibility(
    ledger: &Ledger,
    claimer: Address,
    claimer_pubkey: Address,
    cooldown_seconds: i64,
    now: i64,
) -> (r: Result<bool, TapShieldErr>)
    requires
        ledger.wf(),
    ensures
        r == eligibility_answer(
            claimer,
            ledger.index_of(claimer),
            claimer_pubkey,
            cooldown_seconds,
            now,
        ),
{
    let index = match user_address(&ledger.program_id, &claimer) {
        Some(uk) => match ledger.users.get(&uk) {
            Some(u) => *u,
            None => UserClaimRegistry::empty(),
        },
        None => UserClaimRegistry::empty(),
    };
    let ctx = CheckEligibility { claimer, user_claim_registry: index, now };
    ctx.check_eligibility(claimer_pubkey, cooldown_seconds)
}

} // verus!
