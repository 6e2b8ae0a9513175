//! Derived addresses: addresses computed from seeds and a program's address.
//!
//! A derived address has no secret key. The program it was derived under
//! signs for it by presenting the seeds, bump included, that derive it.

use vstd::prelude::*;
use vstd::slice::slice_to_vec;
use anchor_lang::prelude::Pubkey;
use crate::address::Address;

verus! {

/// The address that `seeds` derive under `program`, or `None` where they
/// derive none: too many seeds, a seed that is too long, or a hash that
/// falls on the curve of the signature scheme.
pub uninterp spec fn created_address(seeds: Seq<Seq<u8>>, program: Seq<u8>) -> Option<Seq<u8>>;

/// `seeds` followed by the one-byte seed `bump`.
pub open spec fn with_bump(seeds: Seq<Seq<u8>>, bump: u8) -> Seq<Seq<u8>> {
    seeds.push(seq![bump])
}

/// The address that `seeds` and `bump` derive under `program`.
pub open spec fn bump_address(seeds: Seq<Seq<u8>>, program: Seq<u8>, bump: u8) -> Option<Seq<u8>> {
    created_address(with_bump(seeds, bump), program)
}

/// `bump` is the highest bump, from 255 down to 1, with which `seeds`
/// derive an address under `program`.
pub open spec fn is_top_bump(seeds: Seq<Seq<u8>>, program: Seq<u8>, bump: u8) -> bool {
    &&& bump >= 1
    &&& bump_address(seeds, program, bump) is Some
    &&& forall|higher: u8| higher > bump ==> #[trigger] bump_address(seeds, program, higher) is None
}

/// The address that a search finds for `seeds` under `program`, with its
/// bump: the one derived with the highest bump that derives any.
pub open spec fn found_address(seeds: Seq<Seq<u8>>, program: Seq<u8>) -> Option<(Seq<u8>, u8)> {
    if exists|bump: u8| is_top_bump(seeds, program, bump) {
        let bump = choose|bump: u8| is_top_bump(seeds, program, bump);
        Some((bump_address(seeds, program, bump).unwrap(), bump))
    } else {
        None
    }
}

/// A found address and its bump, as bytes.
pub open spec fn found_view(found: Option<(Address, u8)>) -> Option<(Seq<u8>, u8)> {
    match found {
        Some((address, bump)) => Some((address@, bump)),
        None => None,
    }
}

/// Calls `Pubkey::create_program_address`. The result is the address that
/// the seeds derive under the program, a function of the bytes alone that
/// `created_address` names; an error of the call is `None`.
#[verifier::external_body]
fn create_program_address(seeds: &Vec<Vec<u8>>, program: &Address) -> (r: Option<Address>)
    ensures
        match r {
            Some(address) => created_address(seeds.deep_view(), program@) == Some(address@),
            None => created_address(seeds.deep_view(), program@) is None,
        },
{
    let slices: Vec<&[u8]> = seeds.iter().map(|seed| seed.as_slice()).collect();
    match Pubkey::create_program_address(&slices, &Pubkey::new_from_array(program.bytes)) {
        Ok(key) => Some(Address { bytes: key.to_bytes() }),
        Err(_) => None,
    }
}

/// Calls `Pubkey::try_find_program_address`, which tries the bumps from 255
/// down to 1 and returns the first address that `create_program_address`
/// derives from the seeds followed by the bump, with that bump; `None` where
/// no bump derives one.
#[verifier::external_body]
fn try_find_program_address(seeds: &Vec<Vec<u8>>, program: &Address) -> (r: Option<(Address, u8)>)
    ensures
        found_view(r) == found_address(seeds.deep_view(), program@),
{
    let slices: Vec<&[u8]> = seeds.iter().map(|seed| seed.as_slice()).collect();
    match Pubkey::try_find_program_address(&slices, &Pubkey::new_from_array(program.bytes)) {
        Some((key, bump)) => Some((Address { bytes: key.to_bytes() }, bump)),
        None => None,
    }
}

/// The seed of the mint's address: the bytes of `mint`.
pub const MINT_SEED: [u8; 4] = [109, 105, 110, 116];

/// The first seed of a metadata address: the bytes of `metadata`.
pub const METADATA_SEED: [u8; 8] = [109, 101, 116, 97, 100, 97, 116, 97];

/// The seed of the mint's address, as a sequence.
pub open spec fn mint_seed() -> Seq<u8> {
    MINT_SEED@
}

/// The first seed of a metadata address, as a sequence.
pub open spec fn metadata_seed() -> Seq<u8> {
    METADATA_SEED@
}

/// The mint's address and bump under `program`.
pub open spec fn mint_address(program: Seq<u8>) -> Option<(Seq<u8>, u8)> {
    found_address(seq![mint_seed()], program)
}

/// The address and bump of the metadata of `mint`, under the metadata
/// program.
pub open spec fn metadata_address(metadata_program: Seq<u8>, mint: Seq<u8>) -> Option<
    (Seq<u8>, u8),
> {
    found_address(seq![metadata_seed(), metadata_program, mint], metadata_program)
}

/// The address and bump of the token account of `owner` for `mint`, under
/// the associated-token-account program.
pub open spec fn associated_token_address(
    owner: Seq<u8>,
    mint: Seq<u8>,
    token_program: Seq<u8>,
    associated_token_program: Seq<u8>,
) -> Option<(Seq<u8>, u8)> {
    found_address(seq![owner, token_program, mint], associated_token_program)
}

/// The seeds with which the program signs for its mint.
pub open spec fn mint_signer_seeds_spec(bump: u8) -> Seq<Seq<u8>> {
    seq![mint_seed(), seq![bump]]
}

fn seed<const N: usize>(bytes: &[u8; N]) -> (r: Vec<u8>)
    ensures
        r@ == bytes@,
{
    slice_to_vec(bytes.as_slice())
}

/// Finds the mint's address under `program`, and its bump.
pub fn find_mint_address(program: &Address) -> (r: Option<(Address, u8)>)
    ensures
        found_view(r) == mint_address(program@),
{
    let mut seeds: Vec<Vec<u8>> = Vec::new();
    seeds.push(seed(&MINT_SEED));
    assert(seeds.deep_view() =~~= seq![mint_seed()]);
    try_find_program_address(&seeds, program)
}

/// Finds the address of the metadata of `mint`, and its bump.
pub fn find_metadata_address(metadata_program: &Address, mint: &Address) -> (r: Option<
    (Address, u8),
>)
    ensures
        found_view(r) == metadata_address(metadata_program@, mint@),
{
    let mut seeds: Vec<Vec<u8>> = Vec::new();
    seeds.push(seed(&METADATA_SEED));
    seeds.push(seed(&metadata_program.bytes));
    seeds.push(seed(&mint.bytes));
    assert(seeds.deep_view() =~~= seq![metadata_seed(), metadata_program@, mint@]);
    try_find_program_address(&seeds, metadata_program)
}

/// Finds the address of the token account of `owner` for `mint`, and its
/// bump.
pub fn find_associated_token_address(
    owner: &Address,
    mint: &Address,
    token_program: &Address,
    associated_token_program: &Address,
) -> (r: Option<(Address, u8)>)
    ensures
        found_view(r) == associated_token_address(
            owner@,
            mint@,
            token_program@,
            associated_token_program@,
        ),
{
    let mut seeds: Vec<Vec<u8>> = Vec::new();
    seeds.push(seed(&owner.bytes));
    seeds.push(seed(&token_program.bytes));
    seeds.push(seed(&mint.bytes));
    assert(seeds.deep_view() =~~= seq![owner@, token_program@, mint@]);
    try_find_program_address(&seeds, associated_token_program)
}

/// The seeds with which the program signs for its mint: the mint's seed and
/// the bump that was found with the mint's address.
pub fn mint_signer_seeds(bump: u8) -> (r: Vec<Vec<u8>>)
    ensures
        r.deep_view() == mint_signer_seeds_spec(bump),
{
    let mut seeds: Vec<Vec<u8>> = Vec::new();
    seeds.push(seed(&MINT_SEED));
    let mut last: Vec<u8> = Vec::new();
    last.push(bump);
    assert(last@ =~= seq![bump]);
    seeds.push(last);
    assert(seeds.deep_view() =~~= mint_signer_seeds_spec(bump));
    seeds
}

/// Whether `seeds` sign for `address` under `program`: whether they derive
/// exactly that address.
pub fn signs_for(seeds: &Vec<Vec<u8>>, program: &Address, address: &Address) -> (r: bool)
    ensures
        r == (created_address(seeds.deep_view(), program@) == Some(address@)),
{
    match create_program_address(seeds, program) {
        Some(derived) => derived == *address,
        None => false,
    }
}

/// The seeds found for the mint sign for the mint: whenever a search finds
/// the mint's address with some bump under `program`, the mint's seed
/// followed by that bump derives that address under `program`.
pub proof fn mint_signer_seeds_sign_for_mint(program: Seq<u8>, mint: Seq<u8>, bump: u8)
    requires
        mint_address(program) == Some((mint, bump)),
    ensures
        created_address(mint_signer_seeds_spec(bump), program) == Some(mint),
{
    let seeds = seq![mint_seed()];
    assert(is_top_bump(seeds, program, bump));
    assert(with_bump(seeds, bump) =~= mint_signer_seeds_spec(bump));
}

} // verus!
