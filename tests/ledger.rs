use tap_shield::address::{claim_address, faucet_address, u64_le_bytes, user_address};
use tap_shield::cooldown::is_eligible;
use tap_shield::{
    check_eligibility, initialize_faucet, record_claim, Address, CheckEligibility, ClaimRecord,
    FaucetRegistry, InitializeFaucet,
    Ledger, RecordClaim, TapShieldErr, UserClaimRegistry,
};

fn addr(b: u8) -> Address {
    Address::new([b; 32])
}

fn program() -> Address {
    let mut bytes = [0u8; 32];
    for (i, b) in bytes.iter_mut().enumerate() {
        *b = (i as u8).wrapping_mul(7).wrapping_add(3);
    }
    Address::new(bytes)
}

fn ledger_with_faucet(operator: Address, name: &str, now: i64) -> Ledger {
    let mut ledger = Ledger::new(program());
    assert_eq!(initialize_faucet(&mut ledger, operator, name.to_string(), now), Ok(()));
    ledger
}

fn claim(ledger: &mut Ledger, operator: Address, user: Address, amount: u64, cooldown: i64, now: i64) -> Result<(), TapShieldErr> {
    record_claim(ledger, operator, user, user, amount, cooldown, now)
}

#[test]
fn scenario_faucet_a_claims_and_cooldown() {
    let o = addr(1);
    let u = addr(2);
    let mut ledger = ledger_with_faucet(o, "A", 10);
    assert_eq!(claim(&mut ledger, o, u, 100, 60, 1000), Ok(()));
    assert_eq!(ledger.faucet(&o).unwrap().total_claims, 1);
    assert_eq!(ledger.user_index(&u).unwrap().last_claim_timestamp, 1000);
    assert_eq!(claim(&mut ledger, o, u, 100, 60, 1030), Err(TapShieldErr::ClaimTooRecent));
    assert_eq!(ledger.faucet(&o).unwrap().total_claims, 1);
    assert_eq!(claim(&mut ledger, o, u, 100, 60, 1065), Ok(()));
    assert_eq!(ledger.faucet(&o).unwrap().total_claims, 2);
    assert_eq!(ledger.user_index(&u).unwrap().last_claim_timestamp, 1065);
    assert_eq!(ledger.user_index(&u).unwrap().total_claims_across_faucets, 2);
}

#[test]
fn registration_fields() {
    let o = addr(1);
    let ledger = ledger_with_faucet(o, "Main tap", 1234);
    let f: &FaucetRegistry = ledger.faucet(&o).unwrap();
    assert_eq!(f.name, "Main tap");
    assert_eq!(f.total_claims, 0);
    assert_eq!(f.created_at, 1234);
    assert!(f.operator.equals(&o));
    assert!(ledger.faucet(&addr(9)).is_none());
}

#[test]
fn register_twice_fails_already_exists() {
    let o = addr(1);
    let mut ledger = ledger_with_faucet(o, "A", 10);
    assert_eq!(
        initialize_faucet(&mut ledger, o, "B".to_string(), 20),
        Err(TapShieldErr::FaucetAlreadyExists)
    );
    assert_eq!(ledger.faucet(&o).unwrap().name, "A");
    assert_eq!(ledger.faucet(&o).unwrap().created_at, 10);
    assert_eq!(initialize_faucet(&mut ledger, addr(3), "B".to_string(), 20), Ok(()));
}

#[test]
fn register_after_claims_still_fails() {
    let o = addr(1);
    let mut ledger = ledger_with_faucet(o, "A", 10);
    assert_eq!(claim(&mut ledger, o, addr(2), 5, 60, 100), Ok(()));
    assert_eq!(
        initialize_faucet(&mut ledger, o, "A".to_string(), 200),
        Err(TapShieldErr::FaucetAlreadyExists)
    );
}

#[test]
fn name_length_limits() {
    let mut ledger = Ledger::new(program());
    let long = "x".repeat(33);
    assert_eq!(
        initialize_faucet(&mut ledger, addr(1), long, 0),
        Err(TapShieldErr::FaucetNameTooLong)
    );
    assert!(ledger.faucet(&addr(1)).is_none());
    assert_eq!(
        initialize_faucet(&mut ledger, addr(1), String::new(), 0),
        Err(TapShieldErr::FaucetNameEmpty)
    );
    assert!(ledger.faucet(&addr(1)).is_none());
    assert_eq!(initialize_faucet(&mut ledger, addr(1), "y".repeat(32), 0), Ok(()));
    // 32 two-byte characters: 64 bytes, but 32 characters.
    assert_eq!(initialize_faucet(&mut ledger, addr(2), "\u{e9}".repeat(32), 0), Ok(()));
    assert_eq!(
        initialize_faucet(&mut ledger, addr(3), "\u{e9}".repeat(33), 0),
        Err(TapShieldErr::FaucetNameTooLong)
    );
}

#[test]
fn cooldown_boundary() {
    let o = addr(1);
    let u = addr(2);
    let mut ledger = ledger_with_faucet(o, "A", 0);
    assert_eq!(claim(&mut ledger, o, u, 1, 60, 1000), Ok(()));
    assert_eq!(claim(&mut ledger, o, u, 1, 60, 1059), Err(TapShieldErr::ClaimTooRecent));
    assert_eq!(claim(&mut ledger, o, u, 1, 60, 1060), Ok(()));
    assert_eq!(claim(&mut ledger, o, u, 1, 60, 1060), Err(TapShieldErr::ClaimTooRecent));
}

#[test]
fn cooldown_spans_faucets() {
    let o1 = addr(1);
    let o2 = addr(3);
    let u = addr(2);
    let mut ledger = ledger_with_faucet(o1, "A", 0);
    assert_eq!(initialize_faucet(&mut ledger, o2, "B".to_string(), 0), Ok(()));
    assert_eq!(claim(&mut ledger, o1, u, 1, 60, 1000), Ok(()));
    assert_eq!(claim(&mut ledger, o2, u, 1, 60, 1010), Err(TapShieldErr::ClaimTooRecent));
    assert_eq!(claim(&mut ledger, o2, u, 1, 60, 1100), Ok(()));
    let index = ledger.user_index(&u).unwrap();
    assert_eq!(index.total_claims_across_faucets, 2);
    let fb = faucet_address(&ledger.program_id(), &o2).unwrap();
    assert!(index.last_faucet.equals(&fb));
    assert_eq!(ledger.faucet(&o1).unwrap().total_claims, 1);
    assert_eq!(ledger.faucet(&o2).unwrap().total_claims, 1);
}

#[test]
fn first_claim_is_exempt() {
    assert_eq!(is_eligible(0, 0, 1, false), Ok(true));
    assert_eq!(is_eligible(i64::MIN, i64::MAX, i64::MAX, false), Ok(true));
    let ledger = ledger_with_faucet(addr(1), "A", 0);
    let u = addr(2);
    assert_eq!(check_eligibility(&ledger, u, u, i64::MAX, 0), Ok(true));
    assert_eq!(check_eligibility(&ledger, u, u, 1, -5), Ok(true));
}

#[test]
fn cooldown_policy_values() {
    assert_eq!(is_eligible(1060, 1000, 60, true), Ok(true));
    assert_eq!(is_eligible(1059, 1000, 60, true), Ok(false));
    assert_eq!(is_eligible(900, 1000, 60, true), Ok(false));
    assert_eq!(is_eligible(1000, 1000, 0, true), Err(TapShieldErr::InvalidCooldown));
    assert_eq!(is_eligible(1000, 1000, -1, false), Err(TapShieldErr::InvalidCooldown));
    assert_eq!(is_eligible(i64::MIN, 1, 60, true), Err(TapShieldErr::InvalidTimestamp));
    assert_eq!(is_eligible(i64::MAX, -1, 60, true), Err(TapShieldErr::InvalidTimestamp));
}

#[test]
fn check_eligibility_after_claim() {
    let o = addr(1);
    let u = addr(2);
    let mut ledger = ledger_with_faucet(o, "A", 0);
    assert_eq!(claim(&mut ledger, o, u, 1, 60, 1000), Ok(()));
    assert_eq!(check_eligibility(&ledger, u, u, 60, 1030), Ok(false));
    assert_eq!(check_eligibility(&ledger, u, u, 60, 1060), Ok(true));
    assert_eq!(check_eligibility(&ledger, u, u, 0, 1060), Err(TapShieldErr::InvalidCooldown));
    assert_eq!(check_eligibility(&ledger, u, addr(5), 60, 1060), Err(TapShieldErr::InvalidClaimer));
    assert_eq!(ledger.claim_count(), 1);
}

#[test]
fn claim_request_errors() {
    let o = addr(1);
    let u = addr(2);
    let mut ledger = ledger_with_faucet(o, "A", 0);
    assert_eq!(claim(&mut ledger, o, u, 0, 60, 1000), Err(TapShieldErr::InvalidInput));
    assert_eq!(claim(&mut ledger, o, u, 1, 0, 1000), Err(TapShieldErr::InvalidCooldown));
    assert_eq!(claim(&mut ledger, o, u, 1, -60, 1000), Err(TapShieldErr::InvalidCooldown));
    assert_eq!(
        record_claim(&mut ledger, o, u, addr(7), 1, 60, 1000),
        Err(TapShieldErr::InvalidClaimer)
    );
    assert_eq!(claim(&mut ledger, addr(9), u, 1, 60, 1000), Err(TapShieldErr::UnregisteredFaucet));
    assert_eq!(ledger.claim_count(), 0);
    assert!(ledger.user_index(&u).is_none());
    assert_eq!(ledger.faucet(&o).unwrap().total_claims, 0);
}

#[test]
fn clock_overflow_is_invalid_timestamp() {
    let o = addr(1);
    let u = addr(2);
    let mut ledger = ledger_with_faucet(o, "A", 0);
    assert_eq!(claim(&mut ledger, o, u, 1, 60, i64::MAX), Ok(()));
    assert_eq!(claim(&mut ledger, o, u, 1, 60, -2), Err(TapShieldErr::InvalidTimestamp));
    assert_eq!(ledger.faucet(&o).unwrap().total_claims, 1);
}

#[test]
fn refused_claim_changes_nothing() {
    let o = addr(1);
    let u = addr(2);
    let mut ledger = ledger_with_faucet(o, "A", 0);
    assert_eq!(claim(&mut ledger, o, u, 7, 60, 1000), Ok(()));
    assert_eq!(claim(&mut ledger, o, u, 8, 60, 1001), Err(TapShieldErr::ClaimTooRecent));
    assert_eq!(ledger.claim_count(), 1);
    assert_eq!(ledger.faucet(&o).unwrap().total_claims, 1);
    let index = ledger.user_index(&u).unwrap();
    assert_eq!(index.last_claim_timestamp, 1000);
    assert_eq!(index.total_claims_across_faucets, 1);
    let (_, record) = ledger.claim_at(0);
    assert_eq!(record.amount, 7);
    assert_eq!(record.timestamp, 1000);
}

#[test]
fn counter_matches_distinct_records() {
    let o = addr(1);
    let mut ledger = ledger_with_faucet(o, "A", 0);
    let n: u8 = 5;
    for k in 0..n {
        assert_eq!(claim(&mut ledger, o, addr(10 + k), 1 + k as u64, 60, 100), Ok(()));
    }
    assert_eq!(claim(&mut ledger, o, addr(10), 1, 60, 1000), Ok(()));
    let total = ledger.faucet(&o).unwrap().total_claims;
    assert_eq!(total, n as u64 + 1);
    assert_eq!(ledger.claim_count(), n as usize + 1);
    let fa = faucet_address(&ledger.program_id(), &o).unwrap();
    let mut seen: Vec<[u8; 32]> = Vec::new();
    for i in 0..ledger.claim_count() {
        let (a, record) = ledger.claim_at(i);
        assert!(record.faucet_id.equals(&fa));
        assert!(!seen.contains(&a.bytes));
        seen.push(a.bytes);
        let stored: ClaimRecord = ledger.claim(&a).unwrap();
        assert_eq!(stored.amount, record.amount);
    }
    assert_eq!(seen.len() as u64, total);
}

#[test]
fn claim_record_stands_at_counter_address() {
    let o = addr(1);
    let u = addr(2);
    let mut ledger = ledger_with_faucet(o, "A", 0);
    assert_eq!(claim(&mut ledger, o, u, 100, 60, 1000), Ok(()));
    assert_eq!(claim(&mut ledger, o, u, 50, 60, 2000), Ok(()));
    let p = ledger.program_id();
    let fa = faucet_address(&p, &o).unwrap();
    let first = claim_address(&p, &u, &fa, 0).unwrap();
    let second = claim_address(&p, &u, &fa, 1).unwrap();
    assert!(!first.equals(&second));
    let r0 = ledger.claim(&first).unwrap();
    assert_eq!(r0.amount, 100);
    assert_eq!(r0.timestamp, 1000);
    assert!(r0.claimer.equals(&u));
    let r1 = ledger.claim(&second).unwrap();
    assert_eq!(r1.amount, 50);
    assert!(ledger.claim(&addr(4)).is_none());
}

#[test]
fn derived_addresses_are_stable_and_distinct() {
    let p = program();
    let o = addr(1);
    let a1 = faucet_address(&p, &o).unwrap();
    let a2 = faucet_address(&p, &o).unwrap();
    assert!(a1.equals(&a2));
    assert!(!a1.equals(&o));
    assert!(!a1.equals(&p));
    let b = faucet_address(&p, &addr(2)).unwrap();
    assert!(!a1.equals(&b));
    let u = user_address(&p, &o).unwrap();
    assert!(!u.equals(&a1));
    let other_program = faucet_address(&addr(8), &o).unwrap();
    assert!(!other_program.equals(&a1));
}

#[test]
fn le_bytes_of_counter() {
    assert_eq!(u64_le_bytes(0x0102), vec![2, 1, 0, 0, 0, 0, 0, 0]);
    assert_eq!(u64_le_bytes(u64::MAX), vec![255; 8]);
    assert_eq!(u64_le_bytes(0x0807060504030201), vec![1, 2, 3, 4, 5, 6, 7, 8]);
}

#[test]
fn address_helpers() {
    assert!(Address::zero().is_zero());
    assert!(!addr(1).is_zero());
    let mut bytes = [0u8; 32];
    bytes[31] = 1;
    assert!(!Address::new(bytes).is_zero());
    assert!(!Address::new(bytes).equals(&Address::zero()));
    assert!(addr(3).equals(&addr(3)));
    let empty = UserClaimRegistry::empty();
    assert!(empty.user.is_zero());
    assert_eq!(empty.total_claims_across_faucets, 0);
}

#[test]
fn handler_counter_overflow() {
    let f = addr(4);
    let u = addr(2);
    let mut ctx = RecordClaim {
        operator: addr(1),
        claimer: u,
        faucet_address: f,
        faucet_registry: FaucetRegistry {
            operator: addr(1),
            name: "A".to_string(),
            total_claims: u64::MAX,
            created_at: 0,
        },
        claim_record: ClaimRecord { claimer: Address::zero(), faucet_id: Address::zero(), amount: 0, timestamp: 0 },
        user_claim_registry: UserClaimRegistry::empty(),
        now: 10,
    };
    assert_eq!(ctx.record_claim(u, 1, 60), Err(TapShieldErr::CounterOverflow));
    assert_eq!(ctx.faucet_registry.total_claims, u64::MAX);
    assert_eq!(ctx.claim_record.amount, 0);
    ctx.faucet_registry.total_claims = 3;
    assert_eq!(ctx.record_claim(u, 9, 60), Ok(()));
    assert_eq!(ctx.faucet_registry.total_claims, 4);
    assert_eq!(ctx.claim_record.amount, 9);
    assert_eq!(ctx.claim_record.timestamp, 10);
    assert!(ctx.claim_record.faucet_id.equals(&f));
    assert!(ctx.user_claim_registry.user.equals(&u));
    assert_eq!(ctx.user_claim_registry.total_claims_across_faucets, 1);
}

#[test]
fn handler_initialize_and_check() {
    let mut ctx = InitializeFaucet {
        operator: addr(1),
        faucet_registry: FaucetRegistry { operator: Address::zero(), name: String::new(), total_claims: 9, created_at: 0 },
        now: 77,
    };
    assert_eq!(ctx.initialize_faucet(String::new()), Err(TapShieldErr::FaucetNameEmpty));
    assert_eq!(ctx.faucet_registry.total_claims, 9);
    assert_eq!(ctx.initialize_faucet("tap".to_string()), Ok(()));
    assert_eq!(ctx.faucet_registry.total_claims, 0);
    assert_eq!(ctx.faucet_registry.created_at, 77);
    assert!(ctx.faucet_registry.operator.equals(&addr(1)));

    let index = UserClaimRegistry {
        user: addr(2),
        last_claim_timestamp: 100,
        last_faucet: addr(4),
        total_claims_across_faucets: 1,
    };
    let q = CheckEligibility { claimer: addr(2), user_claim_registry: index, now: 130 };
    assert_eq!(q.check_eligibility(addr(2), 60), Ok(false));
    assert_eq!(q.check_eligibility(addr(2), 30), Ok(true));
    assert_eq!(q.check_eligibility(addr(3), 30), Err(TapShieldErr::InvalidClaimer));
    assert_eq!(q.check_eligibility(addr(2), -1), Err(TapShieldErr::InvalidCooldown));
}

#[test]
fn error_messages() {
    assert_eq!(TapShieldErr::ClaimTooRecent.message(), "Claim too recent");
    assert_eq!(TapShieldErr::FaucetAlreadyExists.message(), "Faucet Already Exists");
}
