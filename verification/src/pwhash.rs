//! Password hashing, delegated to an outside collaborator.
//!
//! The encoded Argon2 hash of a password is a pure function of the password
//! and the salt, but far too large to state here; it is therefore only named
//! ([`argon_hash_of`]), and likewise the verdict of verification
//! ([`argon_verify_of`]). Everything the rest of the crate proves about
//! passwords goes through these two names.

use vstd::prelude::*;

verus! {

/// What rust-argon2's `hash_encoded` returns for a password and a salt under
/// the default configuration.
pub uninterp spec fn argon_hash_of(password: Seq<u8>, salt: Seq<u8>) -> Seq<char>;

/// What rust-argon2's `verify_encoded` returns for an encoded hash and a
/// password: `None` when the hash cannot be decoded at all.
pub uninterp spec fn argon_verify_of(hash: Seq<char>, password: Seq<u8>) -> Option<bool>;

/// Hashing failed; the one detail the callers of this crate act on.
#[derive(Debug)]
pub struct ArgonFailure;

/// Relies on rust-argon2's `hash_encoded` with `Config::default()`: the
/// encoded hash depends on the password and the salt alone, and
/// `verify_encoded` accepts the password it was produced from.
#[verifier::external_body]
pub(crate) fn argon2_hash_encoded(password: &[u8], salt: &[u8]) -> (r: Option<String>)
    ensures
        match r {
            Some(h) => h@ == argon_hash_of(password@, salt@) && argon_verify_of(h@, password@)
                == Some(true),
            None => true,
        },
{
    let config = argon2::Config::default();
    argon2::hash_encoded(password, salt, &config).ok()
}

/// Relies on rust-argon2's `verify_encoded`: deterministic in the encoded
/// hash and the password; an error means the hash could not be decoded.
#[verifier::external_body]
pub(crate) fn argon2_verify_encoded(hash: &str, password: &[u8]) -> (r: Option<bool>)
    ensures
        r == argon_verify_of(hash@, password@),
{
    argon2::verify_encoded(hash, password).ok()
}

/// Relies on `rand::random` for 32 bytes of fresh salt; nothing is assumed of
/// the bytes beyond their number.
#[verifier::external_body]
pub(crate) fn random_salt() -> (r: Vec<u8>)
    ensures
        r@.len() == 32,
{
    rand::random::<[u8; 32]>().to_vec()
}

} // verus!
