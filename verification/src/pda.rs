use vstd::prelude::*;

use crate::account::Address;

verus! {

/// The program-derived address, with its bump, that
/// `pinocchio::Address::derive_program_address` finds for `seeds` under
/// `program_id` (SHA-256 of the seeds, a bump, the program id and a marker,
/// trying bumps from 255 down until the hash is off the ed25519 curve), or
/// `None` when no bump gives one or a seed is longer than 32 bytes.
pub uninterp spec fn program_address(seeds: Seq<Seq<u8>>, program_id: Seq<u8>) -> Option<
    (Address, u8),
>;

/// Calls `pinocchio::Address::derive_program_address` on three seeds.
///
/// Trusted: the result is the outside function's, named `program_address`;
/// nothing is claimed of its value beyond that it depends on the seeds and
/// the program id alone.
#[verifier::external_body]
pub(crate) fn derive_program_address(
    seed0: &[u8],
    seed1: &[u8],
    seed2: &[u8],
    program_id: &Address,
) -> (r: Option<(Address, u8)>)
    ensures
        r == program_address(seq![seed0@, seed1@, seed2@], program_id@),
{
    match pinocchio::Address::derive_program_address(
        &[seed0, seed1, seed2],
        &pinocchio::Address::new_from_array(*program_id),
    ) {
        Some((address, bump)) => Some((address.to_bytes(), bump)),
        None => None,
    }
}

} // verus!
