//! Randomness from the operating system.
use rand::{OsRng, Rng};
use vstd::prelude::*;
use crate::primitives::PeerId;

verus! {

/// `rand::OsRng`, a generator that reads the operating system's randomness.
#[verifier::external_type_specification]
#[verifier::external_body]
pub struct ExOsRng(OsRng);

/// `std::io::Error`, which tells why no generator could be opened.
#[verifier::external_type_specification]
#[verifier::external_body]
pub struct ExIoError(std::io::Error);

/// Calls `rand::OsRng::new`. Whether it succeeds rests on the operating system, so nothing is
/// claimed of its result, neither when a generator comes back nor which error.
#[verifier::external_body]
pub(crate) fn os_rng() -> (res: Result<OsRng, std::io::Error>) {
    OsRng::new()
}

/// Calls `rand::Rng::shuffle`, which swaps entries of the slice in place. Claimed is that the
/// entries afterwards are those from before, each as often as it was there; their order rests on
/// chance. Like any use of `OsRng` it panics if the operating system fails to hand out randomness.
#[verifier::external_body]
pub(crate) fn shuffle_peers(rng: &mut OsRng, peer_ids: &mut Vec<PeerId>)
    ensures
        final(peer_ids)@.to_multiset() == old(peer_ids)@.to_multiset(),
{
    rng.shuffle(peer_ids);
}

} // verus!
