use crate::address::Address;
use crate::programs::{
    associated_token_program, associated_token_program_id, token_metadata_program,
    token_metadata_program_id, token_program, token_program_id,
};
use anchor_lang::solana_program::pubkey::Pubkey;
use vstd::prelude::*;

verus! {

/// The address and bump seed that the runtime derives for `seeds` under
/// `program`, or `None` where no bump seed gives an address off the curve.
pub uninterp spec fn program_address_of(seeds: Seq<Seq<u8>>, program: Seq<u8>) -> Option<
    (Seq<u8>, u8),
>;

/// The bytes of each seed.
pub open spec fn seeds_view(seeds: Seq<Vec<u8>>) -> Seq<Seq<u8>> {
    seeds.map_values(|s: Vec<u8>| s@)
}

pub open spec fn found_view(r: Option<(Address, u8)>) -> Option<(Seq<u8>, u8)> {
    match r {
        Some((a, b)) => Some((a@, b)),
        None => None,
    }
}

/// Relies on solana_program's `Pubkey::try_find_program_address`: the
/// program-derived address of the seeds, searched from bump 255 downwards,
/// or `None`. It is computed from the seeds and the program id alone.
#[verifier::external_body]
fn try_find_program_address(seeds: &Vec<Vec<u8>>, program: &Address) -> (r: Option<(Address, u8)>)
    ensures
        found_view(r) == program_address_of(seeds_view(seeds@), program@),
{
    let refs: Vec<&[u8]> = seeds.iter().map(|s| s.as_slice()).collect();
    let id = Pubkey::new_from_array(program.bytes);
    Pubkey::try_find_program_address(&refs, &id).map(|(k, b)| (Address::new(k.to_bytes()), b))
}

/// The seed of the program's own signing authority: `b"central_authority"`.
pub open spec fn authority_seed() -> Seq<u8> {
    seq![99u8, 101, 110, 116, 114, 97, 108, 95, 97, 117, 116, 104, 111, 114, 105, 116, 121]
}

/// The prefix of the metadata program's account seeds: `b"metadata"`.
pub open spec fn metadata_prefix() -> Seq<u8> {
    seq![109u8, 101, 116, 97, 100, 97, 116, 97]
}

/// The suffix of a master edition's seeds: `b"edition"`.
pub open spec fn edition_suffix() -> Seq<u8> {
    seq![101u8, 100, 105, 116, 105, 111, 110]
}

pub open spec fn authority_seeds() -> Seq<Seq<u8>> {
    seq![authority_seed()]
}

pub open spec fn metadata_seeds(mint: Seq<u8>) -> Seq<Seq<u8>> {
    seq![metadata_prefix(), token_metadata_program_id(), mint]
}

pub open spec fn edition_seeds(mint: Seq<u8>) -> Seq<Seq<u8>> {
    seq![metadata_prefix(), token_metadata_program_id(), mint, edition_suffix()]
}

/// The seeds of an owner's associated token account for a mint.
pub open spec fn associated_token_seeds(owner: Seq<u8>, mint: Seq<u8>) -> Seq<Seq<u8>> {
    seq![owner, token_program_id(), mint]
}

/// The seeds with which the authority signs: its seed and then its bump.
pub open spec fn signer_seeds_of(bump: u8) -> Seq<Seq<u8>> {
    seq![authority_seed(), seq![bump]]
}

fn authority_seed_bytes() -> (r: Vec<u8>)
    ensures
        r@ == authority_seed(),
{
    let r: Vec<u8> = vec![99u8, 101, 110, 116, 114, 97, 108, 95, 97, 117, 116, 104, 111, 114, 105, 116, 121];
    assert(r@ =~= authority_seed());
    r
}

fn metadata_prefix_bytes() -> (r: Vec<u8>)
    ensures
        r@ == metadata_prefix(),
{
    let r: Vec<u8> = vec![109u8, 101, 116, 97, 100, 97, 116, 97];
    assert(r@ =~= metadata_prefix());
    r
}

fn edition_suffix_bytes() -> (r: Vec<u8>)
    ensures
        r@ == edition_suffix(),
{
    let r: Vec<u8> = vec![101u8, 100, 105, 116, 105, 111, 110];
    assert(r@ =~= edition_suffix());
    r
}

fn address_bytes(a: &Address) -> (r: Vec<u8>)
    ensures
        r@ == a@,
{
    let mut r: Vec<u8> = Vec::new();
    let mut i: usize = 0;
    while i < 32
        invariant
            0 <= i <= 32,
            a@.len() == 32,
            r@ == a@.subrange(0, i as int),
        decreases 32 - i,
    {
        r.push(a.bytes[i]);
        i = i + 1;
        assert(r@ =~= a@.subrange(0, i as int));
    }
    assert(a@.subrange(0, 32) =~= a@);
    r
}

/// The program's signing authority under `program`: the address derived
/// from `b"central_authority"`, and its bump seed.
pub fn find_central_authority(program: &Address) -> (r: Option<(Address, u8)>)
    ensures
        found_view(r) == program_address_of(authority_seeds(), program@),
{
    let seeds: Vec<Vec<u8>> = vec![authority_seed_bytes()];
    assert(seeds_view(seeds@) =~= authority_seeds());
    try_find_program_address(&seeds, program)
}

/// The metadata account that the metadata program keeps for `mint`.
pub fn find_metadata_account(mint: &Address) -> (r: Option<(Address, u8)>)
    ensures
        found_view(r) == program_address_of(metadata_seeds(mint@), token_metadata_program_id()),
{
    let program = token_metadata_program();
    let seeds: Vec<Vec<u8>> = vec![metadata_prefix_bytes(), address_bytes(&program), address_bytes(mint)];
    assert(seeds_view(seeds@) =~= metadata_seeds(mint@));
    try_find_program_address(&seeds, &program)
}

/// The master edition account that the metadata program keeps for `mint`.
pub fn find_master_edition_account(mint: &Address) -> (r: Option<(Address, u8)>)
    ensures
        found_view(r) == program_address_of(edition_seeds(mint@), token_metadata_program_id()),
{
    let program = token_metadata_program();
    let seeds: Vec<Vec<u8>> = vec![
        metadata_prefix_bytes(),
        address_bytes(&program),
        address_bytes(mint),
        edition_suffix_bytes(),
    ];
    assert(seeds_view(seeds@) =~= edition_seeds(mint@));
    try_find_program_address(&seeds, &program)
}

/// The associated token account of `owner` for `mint`.
pub fn find_associated_token_account(owner: &Address, mint: &Address) -> (r: Option<(Address, u8)>)
    ensures
        found_view(r) == program_address_of(
            associated_token_seeds(owner@, mint@),
            associated_token_program_id(),
        ),
{
    let token = token_program();
    let seeds: Vec<Vec<u8>> = vec![address_bytes(owner), address_bytes(&token), address_bytes(mint)];
    assert(seeds_view(seeds@) =~= associated_token_seeds(owner@, mint@));
    try_find_program_address(&seeds, &associated_token_program())
}

/// The seeds with which the authority signs its calls.
pub fn signer_seeds(bump: u8) -> (r: Vec<Vec<u8>>)
    ensures
        seeds_view(r@) == signer_seeds_of(bump),
{
    let bump_seed: Vec<u8> = vec![bump];
    assert(bump_seed@ =~= seq![bump]);
    let r: Vec<Vec<u8>> = vec![authority_seed_bytes(), bump_seed];
    assert(seeds_view(r@) =~= signer_seeds_of(bump));
    r
}

} // verus!
