//! Password hashing and random salts, by the crates `argon2` and `rand`.

use vstd::prelude::*;

verus! {

/// The 32 bytes of Argon2id, version 19, with 19456 KiB of memory, two passes and one lane.
pub uninterp spec fn argon2id(password: Seq<u8>, salt: Seq<u8>) -> Seq<u8>;

/// `argon2::Argon2::default().hash_password_into`, with an output of 32 bytes. With a salt and an
/// output of this size it fails only on a password longer than the algorithm admits.
#[verifier::external_body]
pub(crate) fn argon2_hash(password: &[u8], salt: &[u8; 32]) -> (hash: [u8; 32])
    requires
        password@.len() <= 0xffff_ffff,
    ensures
        hash@ == argon2id(password@, salt@),
{
    let mut hash = [0u8; 32];
    argon2::Argon2::default().hash_password_into(password, salt, &mut hash).unwrap();
    hash
}

/// `rand::rng().random()`: 32 bytes of which nothing is known.
#[verifier::external_body]
pub(crate) fn random_salt() -> [u8; 32] {
    rand::Rng::random(&mut rand::rng())
}

} // verus!
