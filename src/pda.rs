//! Program-derived addresses: addresses computed from seeds and a program id,
//! for which no private key exists.
use vstd::prelude::*;
use crate::address::Address;
use anchor_lang::prelude::Pubkey;
use anchor_lang::solana_program::pubkey::PubkeyError;

verus! {

#[verifier::external_type_specification]
#[verifier::external_body]
pub struct ExPubkeyError(PubkeyError);

/// The address and bump seed that `Pubkey::try_find_program_address` gives
/// for the seeds and the program id, or `None` where it finds none.
pub uninterp spec fn found_address_of(seeds: Seq<Seq<u8>>, program_id: Seq<u8>) -> Option<(Seq<u8>, u8)>;

/// The address that `Pubkey::create_program_address` gives for the seeds and
/// the program id, or `None` where it fails.
pub uninterp spec fn created_address_of(seeds: Seq<Seq<u8>>, program_id: Seq<u8>) -> Option<Seq<u8>>;

pub open spec fn seeds_view(seeds: &Vec<Vec<u8>>) -> Seq<Seq<u8>> {
    seeds@.map_values(|s: Vec<u8>| s@)
}

/// Whether `key` is the address found for the seeds.
pub open spec fn derives(seeds: Seq<Seq<u8>>, program_id: Seq<u8>, key: Seq<u8>) -> bool {
    found_address_of(seeds, program_id) matches Some(p) && p.0 == key
}

/// Relies on `Pubkey::try_find_program_address`: a deterministic search over
/// bump seeds from 255 down, returning the first address that
/// `Pubkey::create_program_address` gives for the seeds followed by the bump.
#[verifier::external_body]
fn try_find_program_address(seeds: &Vec<Vec<u8>>, program_id: &Address) -> (r: Option<(Address, u8)>)
    ensures
        match r {
            Some(p) => found_address_of(seeds_view(seeds), program_id@) == Some((p.0@, p.1)),
            None => found_address_of(seeds_view(seeds), program_id@) is None,
        },
        r matches Some(p) ==> created_address_of(seeds_view(seeds).push(seq![p.1]), program_id@)
            == Some(p.0@),
{
    let s: Vec<&[u8]> = seeds.iter().map(|x| x.as_slice()).collect();
    Pubkey::try_find_program_address(&s, &Pubkey::new_from_array(program_id.bytes)).map(
        |(k, b)| (Address { bytes: k.to_bytes() }, b),
    )
}

/// Relies on `Pubkey::create_program_address`: the address for the seeds as
/// given (bump included), or an error.
#[verifier::external_body]
fn create_program_address(seeds: &Vec<Vec<u8>>, program_id: &Address) -> (r: Result<Address, PubkeyError>)
    ensures
        match r {
            Ok(a) => created_address_of(seeds_view(seeds), program_id@) == Some(a@),
            Err(_) => created_address_of(seeds_view(seeds), program_id@) is None,
        },
{
    let s: Vec<&[u8]> = seeds.iter().map(|x| x.as_slice()).collect();
    Pubkey::create_program_address(&s, &Pubkey::new_from_array(program_id.bytes)).map(
        |k| Address { bytes: k.to_bytes() },
    )
}

/// The address and bump found for the seeds, if any.
pub fn find_address(seeds: &Vec<Vec<u8>>, program_id: &Address) -> (r: Option<(Address, u8)>)
    ensures
        match r {
            Some(p) => found_address_of(seeds_view(seeds), program_id@) == Some((p.0@, p.1)),
            None => found_address_of(seeds_view(seeds), program_id@) is None,
        },
        r matches Some(p) ==> created_address_of(seeds_view(seeds).push(seq![p.1]), program_id@)
            == Some(p.0@),
{
    try_find_program_address(seeds, program_id)
}

/// Whether `key` is the address found for the seeds.
pub fn is_derived(seeds: &Vec<Vec<u8>>, program_id: &Address, key: &Address) -> (r: bool)
    ensures
        r == derives(seeds_view(seeds), program_id@, key@),
{
    match try_find_program_address(seeds, program_id) {
        Some(p) => p.0.same(key),
        None => false,
    }
}

/// The address given by the seeds followed by a one-byte bump seed, if any.
pub fn create_address(seeds: Vec<Vec<u8>>, bump: u8, program_id: &Address) -> (r: Option<Address>)
    ensures
        match r {
            Some(a) => created_address_of(seeds_view(&seeds).push(seq![bump]), program_id@) == Some(a@),
            None => created_address_of(seeds_view(&seeds).push(seq![bump]), program_id@) is None,
        },
{
    let mut full = seeds;
    let mut b: Vec<u8> = Vec::new();
    b.push(bump);
    full.push(b);
    proof {
        assert(b@ =~= seq![bump]);
        assert(seeds_view(&full) =~= seeds_view(&seeds).push(seq![bump]));
    }
    match create_program_address(&full, program_id) {
        Ok(a) => Some(a),
        Err(_) => None,
    }
}

} // verus!
