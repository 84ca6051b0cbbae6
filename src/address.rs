use anchor_lang::solana_program::pubkey::Pubkey;
use vstd::prelude::*;
use vstd::string::*;
use vstd::utf8::encode_utf8;

use crate::key::Key;

verus! {

/// The most seeds a program address can be derived from, the bump seed
/// included.
pub const MAX_SEEDS: usize = 16;

/// The longest seed a program address can be derived from.
pub const MAX_SEED_LEN: usize = 32;

/// The address and bump seed that the runtime derives from `seeds` for the
/// program `program`, if one exists.
pub uninterp spec fn program_address_of(seeds: Seq<Seq<u8>>, program: Seq<u8>) -> Option<(Seq<u8>, u8)>;

/// The contents of a list of seeds.
pub open spec fn seeds_view(seeds: &Vec<Vec<u8>>) -> Seq<Seq<u8>> {
    seeds@.map_values(|s: Vec<u8>| s@)
}

/// Whether some seed is longer than the runtime allows.
pub open spec fn has_long_seed(seeds: Seq<Seq<u8>>) -> bool {
    exists|i: int| 0 <= i < seeds.len() && seeds[i].len() > MAX_SEED_LEN
}

/// The derived address alone.
pub open spec fn derived_address(seeds: Seq<Seq<u8>>, program: Seq<u8>) -> Option<Seq<u8>> {
    match program_address_of(seeds, program) {
        Some(p) => Some(p.0),
        None => None,
    }
}

/// Relies on `Pubkey::try_find_program_address` (solana-program): the
/// program-derived address and bump seed for the seeds and the program id,
/// a function of those alone; `None` when there are `MAX_SEEDS` seeds or
/// more, or when a seed is longer than `MAX_SEED_LEN`.
#[verifier::external_body]
fn find_program_address(seeds: &Vec<Vec<u8>>, program_id: &Key) -> (r: Option<(Key, u8)>)
    ensures
        match r {
            Some(p) => program_address_of(seeds_view(seeds), program_id@) == Some((p.0@, p.1)),
            None => program_address_of(seeds_view(seeds), program_id@) is None,
        },
        (seeds@.len() >= MAX_SEEDS || has_long_seed(seeds_view(seeds))) ==> r is None,
{
    let refs: Vec<&[u8]> = seeds.iter().map(|s| s.as_slice()).collect();
    let program = Pubkey::new_from_array(program_id.bytes);
    Pubkey::try_find_program_address(&refs, &program).map(|(a, b)| (Key { bytes: a.to_bytes() }, b))
}

/// Seeds of the program's own signing authority.
pub open spec fn authority_seeds() -> Seq<Seq<u8>> {
    seq!["authority".spec_bytes()]
}

/// Seeds of the collection of the given type.
pub open spec fn collection_seeds(collection_type: Seq<char>) -> Seq<Seq<u8>> {
    seq!["collection".spec_bytes(), encode_utf8(collection_type), "2".spec_bytes()]
}

/// Seeds of the vault of `external_token_id` in the given collection.
pub open spec fn vault_seeds(collection: Seq<u8>, external_token_id: Seq<char>) -> Seq<Seq<u8>> {
    seq!["vault".spec_bytes(), collection, encode_utf8(external_token_id)]
}

fn derive(seeds: &Vec<Vec<u8>>, program_id: &Key) -> (r: Option<Key>)
    ensures
        match r {
            Some(a) => derived_address(seeds_view(seeds), program_id@) == Some(a@),
            None => derived_address(seeds_view(seeds), program_id@) is None,
        },
        (seeds@.len() >= MAX_SEEDS || has_long_seed(seeds_view(seeds))) ==> r is None,
{
    match find_program_address(seeds, program_id) {
        Some(p) => Some(p.0),
        None => None,
    }
}

/// The address of the program's signing authority, which holds the freeze
/// and burn delegation of every collection.
pub fn authority_address(program_id: &Key) -> (r: Option<Key>)
    ensures
        match r {
            Some(a) => derived_address(authority_seeds(), program_id@) == Some(a@),
            None => derived_address(authority_seeds(), program_id@) is None,
        },
{
    let mut seeds: Vec<Vec<u8>> = Vec::new();
    seeds.push("authority".as_bytes_vec());
    assert(seeds_view(&seeds) =~= authority_seeds());
    derive(&seeds, program_id)
}

/// The address of the collection of the given type.
pub fn collection_address(program_id: &Key, collection_type: &String) -> (r: Option<Key>)
    ensures
        match r {
            Some(a) => derived_address(collection_seeds(collection_type@), program_id@) == Some(a@),
            None => derived_address(collection_seeds(collection_type@), program_id@) is None,
        },
        encode_utf8(collection_type@).len() > MAX_SEED_LEN ==> r is None,
{
    let mut seeds: Vec<Vec<u8>> = Vec::new();
    seeds.push("collection".as_bytes_vec());
    seeds.push(collection_type.as_str().as_bytes_vec());
    seeds.push("2".as_bytes_vec());
    assert(seeds_view(&seeds) =~= collection_seeds(collection_type@));
    assert(encode_utf8(collection_type@).len() > MAX_SEED_LEN ==> has_long_seed(seeds_view(&seeds)))
        by {
        assert(seeds_view(&seeds)[1] == encode_utf8(collection_type@));
    };
    derive(&seeds, program_id)
}

/// The address of the vault of `external_token_id` in `collection`.
pub fn vault_address(program_id: &Key, collection: &Key, external_token_id: &String) -> (r: Option<Key>)
    ensures
        match r {
            Some(a) => derived_address(vault_seeds(collection@, external_token_id@), program_id@) == Some(a@),
            None => derived_address(vault_seeds(collection@, external_token_id@), program_id@) is None,
        },
        encode_utf8(external_token_id@).len() > MAX_SEED_LEN ==> r is None,
{
    let mut seeds: Vec<Vec<u8>> = Vec::new();
    seeds.push("vault".as_bytes_vec());
    seeds.push(collection.to_vec());
    seeds.push(external_token_id.as_str().as_bytes_vec());
    assert(seeds_view(&seeds) =~= vault_seeds(collection@, external_token_id@));
    assert(encode_utf8(external_token_id@).len() > MAX_SEED_LEN ==> has_long_seed(seeds_view(&seeds)))
        by {
        assert(seeds_view(&seeds)[2] == encode_utf8(external_token_id@));
    };
    derive(&seeds, program_id)
}

} // verus!
