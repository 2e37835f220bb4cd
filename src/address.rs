//! Account addresses and their deterministic derivation from seeds.
use vstd::prelude::*;

verus! {

broadcast use vstd::array::group_array_axioms;

/// A 32-byte account address (an operator, a claimer, a program or a record).
#[derive(Clone, Copy, Debug)]
pub struct Address {
    pub bytes: [u8; 32],
}

impl View for Address {
    type V = Seq<u8>;

    open spec fn view(&self) -> Seq<u8> {
        self.bytes@
    }
}

impl Address {
    /// The address made of the given bytes.
    pub fn new(bytes: [u8; 32]) -> (r: Address)
        ensures
            r.bytes == bytes,
    {
        Address { bytes }
    }

    /// The all-zero address, which marks a record that was never written.
    pub fn zero() -> (r: Address)
        ensures
            r == zero_address(),
    {
        let r = Address { bytes: [0u8; 32] };
        assert(r.is_zero_spec());
        proof {
            lemma_zero_address(r);
        }
        r
    }

    pub open spec fn is_zero_spec(&self) -> bool {
        forall|i: int| 0 <= i < 32 ==> #[trigger] self.bytes@[i] == 0u8
    }

    /// Whether every byte is zero.
    pub fn is_zero(&self) -> (r: bool)
        ensures
            r == self.is_zero_spec(),
    {
        let mut i: usize = 0;
        while i < 32
            invariant
                0 <= i <= 32,
                forall|j: int| 0 <= j < i ==> #[trigger] self.bytes@[j] == 0u8,
            decreases 32 - i,
        {
            if self.bytes[i] != 0 {
                return false;
            }
            i = i + 1;
        }
        true
    }

    /// Byte-wise equality.
    pub fn equals(&self, other: &Address) -> (r: bool)
        ensures
            r == (*self == *other),
    {
        let mut i: usize = 0;
        while i < 32
            invariant
                0 <= i <= 32,
                forall|j: int| 0 <= j < i ==> #[trigger] self.bytes@[j] == other.bytes@[j],
            decreases 32 - i,
        {
            if self.bytes[i] != other.bytes[i] {
                assert(self.bytes@[i as int] != other.bytes@[i as int]);
                return false;
            }
            i = i + 1;
        }
        assert(self.bytes =~= other.bytes);
        true
    }
}

/// The all-zero address.
pub open spec fn zero_address() -> Address {
    Address { bytes: vstd::array::spec_array_fill_for_copy_type::<u8, 32>(0u8) }
}

/// Two addresses with the same bytes are the same address.
pub proof fn lemma_bytes_determine(a: Address, b: Address)
    requires
        a@ == b@,
    ensures
        a == b,
{
    assert forall|i: int| 0 <= i < 32 implies a.bytes[i] == b.bytes[i] by {
        assert(a.bytes@[i] == b.bytes@[i]);
    }
    assert(a.bytes =~= b.bytes);
}

/// An address is zero exactly when it is the zero address.
pub proof fn lemma_zero_address(a: Address)
    ensures
        a.is_zero_spec() <==> a == zero_address(),
        zero_address().is_zero_spec(),
{
    let c = zero_address();
    assert(c.is_zero_spec());
    if a.is_zero_spec() {
        assert(a.bytes@ =~= c.bytes@);
        lemma_bytes_determine(a, c);
    }
}

/// The address whose bytes are the given ones, if any.
pub open spec fn key_of(b: Option<Seq<u8>>) -> Option<Address> {
    match b {
        Some(s) => Some(choose|a: Address| a@ == s),
        None => None,
    }
}

/// An optional address is recovered from its bytes.
pub proof fn lemma_key_of(r: Option<Address>)
    ensures
        key_of(opt_bytes(r)) == r,
{
    if let Some(a) = r {
        let s = a@;
        assert(exists|x: Address| x@ == s) by {
            assert(a@ == s);
        }
        let c = choose|x: Address| x@ == s;
        lemma_bytes_determine(c, a);
        assert(key_of(opt_bytes(r)) == Some(c));
    }
}

/// What the program-derived-address search yields for the given seeds and
/// program id: the address found, or none.
pub uninterp spec fn program_address(seeds: Seq<Seq<u8>>, program_id: Seq<u8>) -> Option<Seq<u8>>;

/// The byte contents of each seed.
pub open spec fn seed_bytes(seeds: Seq<Vec<u8>>) -> Seq<Seq<u8>> {
    seeds.map_values(|s: Vec<u8>| s@)
}

/// The bytes of an optional address.
pub open spec fn opt_bytes(a: Option<Address>) -> Option<Seq<u8>> {
    match a {
        Some(a) => Some(a@),
        None => None,
    }
}

/// Relies on `Pubkey::try_find_program_address` (solana-pubkey, re-exported by
/// anchor_lang): the address it finds is a function of the seeds and the
/// program id alone; it returns `None` rather than panicking when no bump
/// seed works or a seed is too long.
#[verifier::external_body]
fn find_program_address(seeds: &Vec<Vec<u8>>, program_id: &Address) -> (r: Option<Address>)
    ensures
        opt_bytes(r) == program_address(seed_bytes(seeds@), program_id@),
{
    let slices: Vec<&[u8]> = seeds.iter().map(|s| s.as_slice()).collect();
    let program = anchor_lang::prelude::Pubkey::new_from_array(program_id.bytes);
    anchor_lang::prelude::Pubkey::try_find_program_address(&slices, &program).map(
        |(key, _bump)| Address { bytes: key.to_bytes() },
    )
}

/// The ASCII bytes of the role tag `faucet`.
pub open spec fn faucet_tag() -> Seq<u8> {
    seq![102u8, 97, 117, 99, 101, 116]
}

/// The ASCII bytes of the role tag `claim`.
pub open spec fn claim_tag() -> Seq<u8> {
    seq![99u8, 108, 97, 105, 109]
}

/// The ASCII bytes of the role tag `user_registry`.
pub open spec fn user_tag() -> Seq<u8> {
    seq![117u8, 115, 101, 114, 95, 114, 101, 103, 105, 115, 116, 114, 121]
}

/// The eight little-endian bytes of `n`.
pub open spec fn le_bytes(n: u64) -> Seq<u8> {
    seq![
        (n % 0x100) as u8,
        ((n / 0x100) % 0x100) as u8,
        ((n / 0x1_0000) % 0x100) as u8,
        ((n / 0x100_0000) % 0x100) as u8,
        ((n / 0x1_0000_0000) % 0x100) as u8,
        ((n / 0x100_0000_0000) % 0x100) as u8,
        ((n / 0x1_0000_0000_0000) % 0x100) as u8,
        ((n / 0x100_0000_0000_0000) % 0x100) as u8,
    ]
}

/// Address of the registry of the faucet run by `operator`.
pub open spec fn faucet_address_spec(program_id: Address, operator: Address) -> Option<Seq<u8>> {
    program_address(seq![faucet_tag(), operator@], program_id@)
}

/// Address of the claim record numbered `sequence` of `claimer` at `faucet`.
pub open spec fn claim_address_spec(
    program_id: Address,
    claimer: Address,
    faucet: Address,
    sequence: u64,
) -> Option<Seq<u8>> {
    program_address(seq![claim_tag(), claimer@, faucet@, le_bytes(sequence)], program_id@)
}

/// Address of the claim index of `claimer`.
pub open spec fn user_address_spec(program_id: Address, claimer: Address) -> Option<Seq<u8>> {
    program_address(seq![user_tag(), claimer@], program_id@)
}

/// The registry address of the faucet run by `operator`, if one exists.
pub open spec fn faucet_key(program_id: Address, operator: Address) -> Option<Address> {
    key_of(faucet_address_spec(program_id, operator))
}

/// The address of the claim record numbered `sequence` of `claimer` at
/// `faucet`, if one exists.
pub open spec fn claim_key(program_id: Address, claimer: Address, faucet: Address, sequence: u64) -> Option<Address> {
    key_of(claim_address_spec(program_id, claimer, faucet, sequence))
}

/// The address of the claim index of `claimer`, if one exists.
pub open spec fn user_key(program_id: Address, claimer: Address) -> Option<Address> {
    key_of(user_address_spec(program_id, claimer))
}

fn address_bytes(a: &Address) -> (r: Vec<u8>)
    ensures
        r@ == a@,
{
    let mut v: Vec<u8> = Vec::new();
    let mut i: usize = 0;
    while i < 32
        invariant
            0 <= i <= 32,
            v@ == a.bytes@.subrange(0, i as int),
        decreases 32 - i,
    {
        v.push(a.bytes[i]);
        i = i + 1;
        assert(v@ =~= a.bytes@.subrange(0, i as int));
    }
    assert(a.bytes@.subrange(0, 32) =~= a.bytes@);
    v
}

/// The eight little-endian bytes of `n`.
pub fn u64_le_bytes(n: u64) -> (r: Vec<u8>)
    ensures
        r@ == le_bytes(n),
{
    let r = vec![
        (n % 0x100) as u8,
        ((n / 0x100) % 0x100) as u8,
        ((n / 0x1_0000) % 0x100) as u8,
        ((n / 0x100_0000) % 0x100) as u8,
        ((n / 0x1_0000_0000) % 0x100) as u8,
        ((n / 0x100_0000_0000) % 0x100) as u8,
        ((n / 0x1_0000_0000_0000) % 0x100) as u8,
        ((n / 0x100_0000_0000_0000) % 0x100) as u8,
    ];
    assert(r@ =~= le_bytes(n));
    r
}

/// Derives the address of the registry of the faucet run by `operator`.
pub fn faucet_address(program_id: &Address, operator: &Address) -> (r: Option<Address>)
    ensures
        r == faucet_key(*program_id, *operator),
{
    let seeds: Vec<Vec<u8>> = vec![
        vec![102u8, 97, 117, 99, 101, 116],
        address_bytes(operator),
    ];
    assert(seed_bytes(seeds@) =~= seq![faucet_tag(), operator@]);
    let r = find_program_address(&seeds, program_id);
    proof {
        lemma_key_of(r);
    }
    r
}

/// Derives the address of the claim record numbered `sequence` of `claimer`
/// at `faucet`.
pub fn claim_address(program_id: &Address, claimer: &Address, faucet: &Address, sequence: u64) -> (r:
    Option<Address>)
    ensures
        r == claim_key(*program_id, *claimer, *faucet, sequence),
{
    let seeds: Vec<Vec<u8>> = vec![
        vec![99u8, 108, 97, 105, 109],
        address_bytes(claimer),
        address_bytes(faucet),
        u64_le_bytes(sequence),
    ];
    assert(seed_bytes(seeds@) =~= seq![claim_tag(), claimer@, faucet@, le_bytes(sequence)]);
    let r = find_program_address(&seeds, program_id);
    proof {
        lemma_key_of(r);
    }
    r
}

/// Derives the address of the claim index of `claimer`.
pub fn user_address(program_id: &Address, claimer: &Address) -> (r: Option<Address>)
    ensures
        r == user_key(*program_id, *claimer),
{
    let seeds: Vec<Vec<u8>> = vec![
        vec![117u8, 115, 101, 114, 95, 114, 101, 103, 105, 115, 116, 114, 121],
        address_bytes(claimer),
    ];
    assert(seed_bytes(seeds@) =~= seq![user_tag(), claimer@]);
    let r = find_program_address(&seeds, program_id);
    proof {
        lemma_key_of(r);
    }
    r
}

} // verus!
