//! The derived address of a sale's configuration record.
use vstd::prelude::*;
use solana_program::pubkey::Pubkey;

verus! {

/// What `Pubkey::try_find_program_address` returns for the given seeds and
/// program identity: the first off-curve address in a search that appends a
/// bump seed counting down from `u8::MAX`, with that bump; `None` when no bump
/// gives one.
pub uninterp spec fn program_address_search_of(seeds: Seq<Seq<u8>>, program_id: Seq<u8>) -> Option<(Seq<u8>, u8)>;

/// Relies on `solana_program::pubkey::Pubkey::try_find_program_address`: a
/// deterministic hash-based search (it neither panics nor reads any state) whose
/// address, when there is one, is a 32-byte key.
#[verifier::external_body]
fn try_find_program_address(seeds: &Vec<Vec<u8>>, program_id: &[u8; 32]) -> (r: Option<([u8; 32], u8)>)
    ensures
        program_address_search_of(seeds.deep_view(), program_id@) == match r {
            Some(found) => Some((found.0@, found.1)),
            None => None::<(Seq<u8>, u8)>,
        },
{
    let refs: Vec<&[u8]> = seeds.iter().map(|s| s.as_slice()).collect();
    Pubkey::try_find_program_address(&refs, &Pubkey::new_from_array(*program_id)).map(
        |(k, b)| (k.to_bytes(), b),
    )
}

/// The domain label that starts the seeds of every configuration record: the
/// ASCII bytes of `token_base`.
pub open spec fn token_base_label() -> Seq<u8> {
    seq![116u8, 111u8, 107u8, 101u8, 110u8, 95u8, 98u8, 97u8, 115u8, 101u8]
}

/// The seeds of the record of the sale that `sale_authority` opens for `mint`.
pub open spec fn token_base_seeds(sale_authority: Seq<u8>, mint: Seq<u8>) -> Seq<Seq<u8>> {
    seq![token_base_label(), sale_authority, mint]
}

/// The record's address and bump, when the search finds one.
pub open spec fn token_base_derivation(program_id: Seq<u8>, sale_authority: Seq<u8>, mint: Seq<u8>) -> Option<(Seq<u8>, u8)> {
    program_address_search_of(token_base_seeds(sale_authority, mint), program_id)
}

/// A key as a byte vector.
pub fn key_to_vec(k: &[u8; 32]) -> (r: Vec<u8>)
    ensures
        r@ == k@,
{
    let mut out: Vec<u8> = Vec::new();
    crate::bytes::push_key(&mut out, k);
    assert(out@ =~= k@);
    out
}

/// The seeds of the record of the sale that `sale_authority` opens for `mint`.
pub fn token_base_seed_vec(sale_authority: &[u8; 32], mint: &[u8; 32]) -> (r: Vec<Vec<u8>>)
    ensures
        r.deep_view() == token_base_seeds(sale_authority@, mint@),
{
    let label: Vec<u8> = vec![116u8, 111u8, 107u8, 101u8, 110u8, 95u8, 98u8, 97u8, 115u8, 101u8];
    assert(label@ =~= token_base_label());
    let mut seeds: Vec<Vec<u8>> = Vec::new();
    seeds.push(label);
    seeds.push(key_to_vec(sale_authority));
    seeds.push(key_to_vec(mint));
    assert(seeds.deep_view()[0] =~= token_base_label());
    assert(seeds.deep_view()[1] =~= sale_authority@);
    assert(seeds.deep_view()[2] =~= mint@);
    assert(seeds.deep_view() =~= token_base_seeds(sale_authority@, mint@));
    seeds
}

/// Derives the address of the record of the sale that `sale_authority` opens
/// for `mint` under `program_id`, with its bump.
pub fn find_token_base_pda(program_id: &[u8; 32], sale_authority: &[u8; 32], mint: &[u8; 32]) -> (r: Option<([u8; 32], u8)>)
    ensures
        token_base_derivation(program_id@, sale_authority@, mint@) == match r {
            Some(found) => Some((found.0@, found.1)),
            None => None::<(Seq<u8>, u8)>,
        },
{
    let seeds = token_base_seed_vec(sale_authority, mint);
    try_find_program_address(&seeds, program_id)
}

/// Address derivation is a function of its inputs: equal program identities,
/// sale authorities and mints always give the same address and bump.
pub proof fn lemma_derivation_deterministic(
    program_id: Seq<u8>,
    sale_authority: Seq<u8>,
    mint: Seq<u8>,
    program_id2: Seq<u8>,
    sale_authority2: Seq<u8>,
    mint2: Seq<u8>,
)
    requires
        program_id == program_id2,
        sale_authority == sale_authority2,
        mint == mint2,
    ensures
        token_base_derivation(program_id, sale_authority, mint) == token_base_derivation(
            program_id2,
            sale_authority2,
            mint2,
        ),
{
}

} // verus!
