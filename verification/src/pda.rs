//! Program-derived addresses: the one-way derivation that binds an account's
//! address to program-controlled seed bytes.

use vstd::prelude::*;

verus! {

/// The views of a sequence of seed byte vectors.
pub open spec fn seed_views(seeds: Seq<Vec<u8>>) -> Seq<Seq<u8>> {
    seeds.map_values(|s: Vec<u8>| s@)
}

/// The address derived from a seed set under a program identity, if the
/// derivation succeeds. The outcome is a function of the seeds and the
/// program identity alone; nothing here says what it is on given inputs.
pub uninterp spec fn derived_address_of(seeds: Seq<Seq<u8>>, program_id: Seq<u8>) -> Option<
    Seq<u8>,
>;

/// Relies on solana_pubkey::Pubkey::try_find_program_address: searches for a
/// valid derived address for `seeds` under `program_id`. The result is a
/// deterministic function of the seeds and the program identity; it is `None`
/// when no valid derivation exists (too many seeds, an over-long seed, or no
/// usable bump), and otherwise the derived 32-byte address.
#[verifier::external_body]
pub(crate) fn find_derived_address(seeds: &Vec<Vec<u8>>, program_id: &Vec<u8>) -> (r: Option<
    Vec<u8>,
>)
    requires
        program_id@.len() == 32,
    ensures
        r is Some <==> derived_address_of(seed_views(seeds@), program_id@) is Some,
        r matches Some(a) ==> a@ == derived_address_of(seed_views(seeds@), program_id@)->0
            && a@.len() == 32,
{
    let slices: Vec<&[u8]> = seeds.iter().map(|s| s.as_slice()).collect();
    let key = solana_pubkey::Pubkey::new_from_array(program_id.as_slice().try_into().unwrap());
    solana_pubkey::Pubkey::try_find_program_address(slices.as_slice(), &key).map(
        |(addr, _bump)| addr.to_bytes().to_vec(),
    )
}

} // verus!
