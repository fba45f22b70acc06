//! Record addresses and their derivation from seeds.
//!
//! Every record of the ledger lives at an address that is computed from a
//! list of seeds (a fixed tag followed by the attributes that identify the
//! record) and the identity of the program that owns the ledger. The
//! derivation itself is done by `Pubkey::try_find_program_address`; the
//! functions here fix which seeds are handed to it for each kind of record.

use anchor_lang::solana_program::pubkey::Pubkey;
use vstd::prelude::*;

verus! {

/// A 32-byte identity: the address of a record, of an authority, or of the
/// program that owns the ledger.
#[derive(Clone, Copy, Debug)]
pub struct Address {
    pub bytes: [u8; 32],
}

impl PartialEq for Address {
    fn eq(&self, other: &Address) -> (r: bool) {
        let mut i: usize = 0;
        while i < 32
            invariant
                i <= 32,
                forall|j: int| 0 <= j < i ==> self.bytes[j] == other.bytes[j],
            decreases 32 - i,
        {
            if self.bytes[i] != other.bytes[i] {
                return false;
            }
            i += 1;
        }
        proof {
            assert(self.bytes =~= other.bytes);
        }
        true
    }
}

impl vstd::std_specs::cmp::PartialEqSpecImpl for Address {
    open spec fn obeys_eq_spec() -> bool {
        true
    }

    open spec fn eq_spec(&self, other: &Address) -> bool {
        *self == *other
    }
}

impl Eq for Address {

}

impl Address {
    /// The address made of the given bytes.
    pub fn new(bytes: [u8; 32]) -> (r: Address)
        ensures
            r.bytes == bytes,
    {
        Address { bytes }
    }

    /// The bytes of the address, in order, as a seed.
    pub fn to_seed(&self) -> (r: Vec<u8>)
        ensures
            r@ == self.bytes@,
    {
        let mut v: Vec<u8> = Vec::new();
        let mut i: usize = 0;
        while i < 32
            invariant
                i <= 32,
                v@ == self.bytes@.take(i as int),
            decreases 32 - i,
        {
            v.push(self.bytes[i]);
            i += 1;
        }
        v
    }
}

/// ASCII `pool`: the tag of a pool's seeds.
pub const POOL_TAG: [u8; 4] = [112, 111, 111, 108];

/// ASCII `maker`: the tag of a maker's seeds.
pub const MAKER_TAG: [u8; 5] = [109, 97, 107, 101, 114];

/// ASCII `contribution`: the tag of a contribution's seeds.
pub const CONTRIBUTION_TAG: [u8; 12] = [99, 111, 110, 116, 114, 105, 98, 117, 116, 105, 111, 110];

/// ASCII `transaction`: the tag of a pool transaction's seeds.
pub const TRANSACTION_TAG: [u8; 11] = [116, 114, 97, 110, 115, 97, 99, 116, 105, 111, 110];

/// ASCII `offer`: the tag of an escrow offer's seeds.
pub const OFFER_TAG: [u8; 5] = [111, 102, 102, 101, 114];

/// ASCII `custody`: the only seed of the protocol-owned transfer authority.
pub const CUSTODY_TAG: [u8; 7] = [99, 117, 115, 116, 111, 100, 121];

/// What `Pubkey::try_find_program_address` returns for these seeds and this
/// program: the derived address with its bump, or `None` when no bump in
/// the search space gives a valid address.
pub uninterp spec fn program_address(seeds: Seq<Seq<u8>>, program_id: Address) -> Option<(Address, u8)>;

/// Calls `Pubkey::try_find_program_address` of `solana_program`.
///
/// Believed, not proved: the result is a function of the seeds and the
/// program identity alone, named `program_address`. Nothing is claimed of
/// which address or bump comes out.
#[verifier::external_body]
pub(crate) fn find_program_address(seeds: &Vec<Vec<u8>>, program_id: &Address) -> (r: Option<(Address, u8)>)
    ensures
        r == program_address(seeds.deep_view(), *program_id),
{
    let parts: Vec<&[u8]> = seeds.iter().map(|s| s.as_slice()).collect();
    let id = Pubkey::new_from_array(program_id.bytes);
    match Pubkey::try_find_program_address(&parts, &id) {
        Some((key, bump)) => Some((Address { bytes: key.to_bytes() }, bump)),
        None => None,
    }
}

/// The bytes of `a`, in order, as a seed.
pub(crate) fn seed_of<const N: usize>(a: &[u8; N]) -> (r: Vec<u8>)
    ensures
        r@ == a@,
{
    let mut v: Vec<u8> = Vec::new();
    let mut i: usize = 0;
    while i < N
        invariant
            i <= N,
            v@ == a@.take(i as int),
        decreases N - i,
    {
        v.push(a[i]);
        i += 1;
    }
    v
}

/// The address derived from one seed.
fn derive1(program_id: &Address, s0: Vec<u8>) -> (r: Option<(Address, u8)>)
    ensures
        r == program_address(seq![s0@], *program_id),
{
    let mut seeds: Vec<Vec<u8>> = Vec::new();
    seeds.push(s0);
    proof {
        assert(seeds.deep_view() =~~= seq![s0@]);
    }
    find_program_address(&seeds, program_id)
}

/// The address derived from two seeds.
fn derive2(program_id: &Address, s0: Vec<u8>, s1: Vec<u8>) -> (r: Option<(Address, u8)>)
    ensures
        r == program_address(seq![s0@, s1@], *program_id),
{
    let mut seeds: Vec<Vec<u8>> = Vec::new();
    seeds.push(s0);
    seeds.push(s1);
    proof {
        assert(seeds.deep_view() =~~= seq![s0@, s1@]);
    }
    find_program_address(&seeds, program_id)
}

/// The address derived from three seeds.
fn derive3(program_id: &Address, s0: Vec<u8>, s1: Vec<u8>, s2: Vec<u8>) -> (r: Option<(Address, u8)>)
    ensures
        r == program_address(seq![s0@, s1@, s2@], *program_id),
{
    let mut seeds: Vec<Vec<u8>> = Vec::new();
    seeds.push(s0);
    seeds.push(s1);
    seeds.push(s2);
    proof {
        assert(seeds.deep_view() =~~= seq![s0@, s1@, s2@]);
    }
    find_program_address(&seeds, program_id)
}

/// Where the pool of a currency lives: derived from the pool tag and the
/// currency code.
pub open spec fn pool_address(program_id: Address, currency: [u8; 3]) -> Option<(Address, u8)> {
    program_address(seq![POOL_TAG@, currency@], program_id)
}

/// Where the maker of an authority lives: derived from the maker tag and
/// the authority.
pub open spec fn maker_address(program_id: Address, authority: Address) -> Option<(Address, u8)> {
    program_address(seq![MAKER_TAG@, authority.bytes@], program_id)
}

/// Where the contribution of a maker to a pool lives: derived from the
/// contribution tag, the pool's address and the maker's address.
pub open spec fn contribution_address(program_id: Address, pool: Address, maker: Address) -> Option<
    (Address, u8),
> {
    program_address(seq![CONTRIBUTION_TAG@, pool.bytes@, maker.bytes@], program_id)
}

/// Where the transaction record of a maker on a pool lives: derived from
/// the transaction tag, the pool's address and the maker's address.
pub open spec fn transaction_address(program_id: Address, pool: Address, maker: Address) -> Option<
    (Address, u8),
> {
    program_address(seq![TRANSACTION_TAG@, pool.bytes@, maker.bytes@], program_id)
}

/// Where an escrow offer lives: derived from the offer tag, the depositor
/// and the little-endian bytes of the nonce.
pub open spec fn offer_address(program_id: Address, depositor: Address, nonce: u64) -> Option<
    (Address, u8),
> {
    program_address(
        seq![OFFER_TAG@, depositor.bytes@, vstd::bytes::spec_u64_to_le_bytes(nonce)],
        program_id,
    )
}

/// The protocol-owned transfer authority: derived from the custody tag
/// alone, so that no private key belongs to it.
pub open spec fn custody_authority(program_id: Address) -> Option<(Address, u8)> {
    program_address(seq![CUSTODY_TAG@], program_id)
}

/// Derives the address of the pool of `currency`.
pub fn derive_pool_address(program_id: &Address, currency: &[u8; 3]) -> (r: Option<(Address, u8)>)
    ensures
        r == pool_address(*program_id, *currency),
{
    derive2(program_id, seed_of(&POOL_TAG), seed_of(currency))
}

/// Derives the address of the maker whose authority is `authority`.
pub fn derive_maker_address(program_id: &Address, authority: &Address) -> (r: Option<(Address, u8)>)
    ensures
        r == maker_address(*program_id, *authority),
{
    derive2(program_id, seed_of(&MAKER_TAG), authority.to_seed())
}

/// Derives the address of the contribution of `maker` to `pool`.
pub fn derive_contribution_address(program_id: &Address, pool: &Address, maker: &Address) -> (r:
    Option<(Address, u8)>)
    ensures
        r == contribution_address(*program_id, *pool, *maker),
{
    derive3(program_id, seed_of(&CONTRIBUTION_TAG), pool.to_seed(), maker.to_seed())
}

/// Derives the address of the transaction record of `maker` on `pool`.
pub fn derive_transaction_address(program_id: &Address, pool: &Address, maker: &Address) -> (r:
    Option<(Address, u8)>)
    ensures
        r == transaction_address(*program_id, *pool, *maker),
{
    derive3(program_id, seed_of(&TRANSACTION_TAG), pool.to_seed(), maker.to_seed())
}

/// Derives the address of the offer that `depositor` opens under `nonce`.
pub fn derive_offer_address(program_id: &Address, depositor: &Address, nonce: u64) -> (r: Option<
    (Address, u8),
>)
    ensures
        r == offer_address(*program_id, *depositor, nonce),
{
    derive3(program_id, seed_of(&OFFER_TAG), depositor.to_seed(), vstd::bytes::u64_to_le_bytes(nonce))
}

/// Derives the protocol-owned transfer authority.
pub fn derive_custody_authority(program_id: &Address) -> (r: Option<(Address, u8)>)
    ensures
        r == custody_authority(*program_id),
{
    derive1(program_id, seed_of(&CUSTODY_TAG))
}

} // verus!
