use vstd::prelude::*;

use solana_program::pubkey::Pubkey;
use vstd::bytes::{spec_u64_to_le_bytes, u64_to_le_bytes};

verus! {

/// The program-derived address for `seeds` under `program_id`, or `None`
/// where no bump seed yields an address off the curve.
pub uninterp spec fn program_address_of(seeds: Seq<Seq<u8>>, program_id: Seq<u8>) -> Option<
    Seq<u8>,
>;

/// The byte contents of each seed.
pub open spec fn seed_views(seeds: Seq<Vec<u8>>) -> Seq<Seq<u8>> {
    seeds.map_values(|s: Vec<u8>| s@)
}

/// Relies on solana_program's `Pubkey::try_find_program_address`: the
/// address that it derives (dropping the bump seed) depends on the seeds and
/// the program id alone.
#[verifier::external_body]
fn find_program_address(seeds: &Vec<Vec<u8>>, program_id: &[u8; 32]) -> (r: Option<[u8; 32]>)
    ensures
        match r {
            Some(a) => program_address_of(seed_views(seeds@), program_id@) == Some(a@),
            None => program_address_of(seed_views(seeds@), program_id@) is None,
        },
{
    let refs: Vec<&[u8]> = seeds.iter().map(|s| s.as_slice()).collect();
    Pubkey::try_find_program_address(&refs, &Pubkey::new_from_array(*program_id)).map(
        |(a, _)| a.to_bytes(),
    )
}

/// The ASCII text `lending_pool`, the first seed of a pool's address.
pub open spec fn pool_seed_prefix() -> Seq<u8> {
    seq![0x6cu8, 0x65, 0x6e, 0x64, 0x69, 0x6e, 0x67, 0x5f, 0x70, 0x6f, 0x6f, 0x6c]
}

/// The ASCII text `loan`, the first seed of a loan's address.
pub open spec fn loan_seed_prefix() -> Seq<u8> {
    seq![0x6cu8, 0x6f, 0x61, 0x6e]
}

/// The seeds of the pool made with `seed`: the prefix and the seed's eight
/// little-endian bytes.
pub open spec fn pool_seeds(seed: u64) -> Seq<Seq<u8>> {
    seq![pool_seed_prefix(), spec_u64_to_le_bytes(seed)]
}

/// The seeds of loan `loan_id` of the pool at `pool`.
pub open spec fn loan_seeds(pool: Seq<u8>, loan_id: u64) -> Seq<Seq<u8>> {
    seq![loan_seed_prefix(), pool, spec_u64_to_le_bytes(loan_id)]
}

/// Where the pool made with `seed` lives under `program_id`.
pub open spec fn pool_address_spec(seed: u64, program_id: Seq<u8>) -> Option<Seq<u8>> {
    program_address_of(pool_seeds(seed), program_id)
}

/// Where loan `loan_id` of the pool at `pool` lives under `program_id`.
pub open spec fn loan_address_spec(pool: Seq<u8>, loan_id: u64, program_id: Seq<u8>) -> Option<
    Seq<u8>,
> {
    program_address_of(loan_seeds(pool, loan_id), program_id)
}

/// An optional address as bytes.
pub open spec fn address_view(a: Option<[u8; 32]>) -> Option<Seq<u8>> {
    match a {
        Some(a) => Some(a@),
        None => None,
    }
}

/// Derives the address of the pool made with `seed`.
pub fn pool_address(seed: u64, program_id: &[u8; 32]) -> (r: Option<[u8; 32]>)
    ensures
        address_view(r) == pool_address_spec(seed, program_id@),
{
    let prefix: Vec<u8> = vec![0x6cu8, 0x65, 0x6e, 0x64, 0x69, 0x6e, 0x67, 0x5f, 0x70, 0x6f, 0x6f, 0x6c];
    let seeds: Vec<Vec<u8>> = vec![prefix, u64_to_le_bytes(seed)];
    assert(seed_views(seeds@) =~= pool_seeds(seed));
    find_program_address(&seeds, program_id)
}

/// Derives the address of loan `loan_id` of the pool at `pool`.
pub fn loan_address(pool: &[u8; 32], loan_id: u64, program_id: &[u8; 32]) -> (r: Option<[u8; 32]>)
    ensures
        address_view(r) == loan_address_spec(pool@, loan_id, program_id@),
{
    let prefix: Vec<u8> = vec![0x6cu8, 0x6f, 0x61, 0x6e];
    let pool_bytes: Vec<u8> = vstd::slice::slice_to_vec(vstd::array::array_as_slice(pool));
    let seeds: Vec<Vec<u8>> = vec![prefix, pool_bytes, u64_to_le_bytes(loan_id)];
    assert(seed_views(seeds@) =~= loan_seeds(pool@, loan_id));
    find_program_address(&seeds, program_id)
}

/// Whether two addresses are the same.
pub fn same_address(a: &[u8; 32], b: &[u8; 32]) -> (r: bool)
    ensures
        r == (a@ == b@),
{
    let mut i: usize = 0;
    while i < 32
        invariant
            0 <= i <= 32,
            a@.len() == 32,
            b@.len() == 32,
            forall|j: int| 0 <= j < i ==> a@[j] == b@[j],
        decreases 32 - i,
    {
        if a[i] != b[i] {
            return false;
        }
        i = i + 1;
    }
    assert(a@ =~= b@);
    true
}

} // verus!
