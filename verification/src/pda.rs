//! Program derived addresses, found by `solana_address`.
use vstd::prelude::*;
use crate::account::Address;

verus! {

/// What `solana_address::Address::try_find_program_address` returns for the
/// seeds `seeds` and the program `program_id`: the derived address and its
/// bump seed, or nothing when no bump seed gives an address off the curve.
pub uninterp spec fn program_address_search(seeds: Seq<Seq<u8>>, program_id: Seq<u8>) -> Option<
    (Seq<u8>, u8),
>;

/// The model of a found address and bump seed.
pub open spec fn found_address_view(r: Option<(Address, u8)>) -> Option<(Seq<u8>, u8)> {
    match r {
        Some((a, b)) => Some((a@, b)),
        None => None,
    }
}

/// Searches the program derived address of `program_id` for `seeds`, with
/// `solana_address::Address::try_find_program_address`.
///
/// Trusted: the result is the one that function gives for these seeds and
/// this program, and, as its source shows, it gives nothing when there are
/// sixteen seeds or more or when a seed is longer than 32 bytes. Which address
/// it finds (a SHA-256 hash of the seeds, the program id and a bump seed that
/// puts it off the ed25519 curve) is not stated.
#[verifier::external_body]
pub(crate) fn try_find_program_address(seeds: &Vec<Vec<u8>>, program_id: &Address) -> (r: Option<
    (Address, u8),
>)
    ensures
        found_address_view(r) == program_address_search(seeds.deep_view(), program_id@),
        seeds@.len() >= 16 ==> r is None,
        (exists|i: int| 0 <= i < seeds@.len() && #[trigger] seeds@[i]@.len() > 32) ==> r is None,
{
    let seed_slices: Vec<&[u8]> = seeds.iter().map(|s| s.as_slice()).collect();
    let program = solana_address::Address::new_from_array(*program_id);
    match solana_address::Address::try_find_program_address(&seed_slices, &program) {
        Some((address, bump)) => Some((address.to_bytes(), bump)),
        None => None,
    }
}

} // verus!
