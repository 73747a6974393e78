//! Fx hashing, by the crate `rustc_hash`.

use vstd::prelude::*;

verus! {

/// The Fx hash of a string, on the target that the library is built for, whose `usize` has `bits`
/// bits.
pub uninterp spec fn fx_text(text: Seq<char>, bits: u32) -> u64;

/// The Fx hash of a width, a height and a byte slice, fed to the hasher in this order, on the
/// target that the library is built for, whose `usize` has `bits` bits.
pub uninterp spec fn fx_image(width: usize, height: usize, bytes: Seq<u8>, bits: u32) -> u64;

/// `rustc_hash::FxBuildHasher::hash_one` on a string. The hasher starts from a constant and has no
/// seed, so equal strings have equal hashes. It works in `usize`, whose width is an argument of
/// the name, and how it mixes long strings depends on whether the target has a wide
/// multiplication. No hash leaves the process.
#[verifier::external_body]
pub(crate) fn fx_hash_text(text: &str) -> (hash: u64)
    ensures
        hash == fx_text(text@, usize::BITS),
{
    std::hash::BuildHasher::hash_one(&rustc_hash::FxBuildHasher, text)
}

/// `rustc_hash::FxBuildHasher::hash_one` on the dimensions and the bytes of an image, as a tuple,
/// which hashes its parts one after the other. As for a string, equal parts give an equal hash.
#[verifier::external_body]
pub(crate) fn fx_hash_image(width: usize, height: usize, bytes: &[u8]) -> (hash: u64)
    ensures
        hash == fx_image(width, height, bytes@, usize::BITS),
{
    std::hash::BuildHasher::hash_one(&rustc_hash::FxBuildHasher, (width, height, bytes))
}

} // verus!
