//! One-way hashing and verification of secret material.
//!
//! Hashing produces a self-describing encoded string: algorithm identity,
//! parameters and a fresh random salt are embedded in it, so verification
//! needs no stored metadata beyond the string itself. The digest
//! comparison inside verification is constant-time.

use vstd::prelude::*;

verus! {

/// The outcome of the hashing scheme's verification of `password` against
/// the self-describing `encoded` hash string: a deterministic function of
/// the two strings alone, since every parameter it uses is embedded in
/// `encoded`.
pub uninterp spec fn verifies_against(password: Seq<char>, encoded: Seq<char>) -> bool;

/// The encoded hash `h` accepts the password `p`: the shape every output
/// of [`CredentialHasher::hash`] is promised to have for its input.
pub open spec fn accepts_password(h: Seq<char>, p: Seq<char>) -> bool {
    verifies_against(p, h)
}

/// Law: verifying a password against any hash produced for that password
/// succeeds.
pub proof fn lemma_hash_verify_round_trip(p: Seq<char>, h: Seq<char>)
    requires
        accepts_password(h, p),
    ensures
        verifies_against(p, h),
{
}

/// Relies on argon2: `PasswordHash::new` parses the encoded string and
/// `PasswordVerifier::verify_password` recomputes the digest with the
/// algorithm, parameters and salt embedded there and compares in constant
/// time, so the outcome depends on the two strings alone. An unparsable
/// encoded string verifies nothing.
#[verifier::external_body]
fn argon2_verify(password: &str, encoded: &str) -> (r: bool)
    ensures
        r == verifies_against(password@, encoded@),
{
    match argon2::password_hash::PasswordHash::new(encoded) {
        Ok(parsed) => argon2::PasswordVerifier::verify_password(
            &argon2::Argon2::default(),
            password.as_bytes(),
            &parsed,
        ).is_ok(),
        Err(_) => false,
    }
}

/// Relies on argon2: `PasswordHasher::hash_password` with a fresh random
/// salt from `SaltString::generate` returns an encoded hash that embeds
/// the algorithm, its parameters and that salt, and
/// `PasswordVerifier::verify_password` of the same password against it
/// recomputes the same digest and succeeds.
#[verifier::external_body]
fn argon2_hash(password: &str) -> (r: Option<String>)
    ensures
        r matches Some(h) ==> verifies_against(password@, h@),
{
    let salt = argon2::password_hash::SaltString::generate(&mut rand_core::OsRng);
    match argon2::PasswordHasher::hash_password(
        &argon2::Argon2::default(),
        password.as_bytes(),
        &salt,
    ) {
        Ok(h) => Some(h.to_string()),
        Err(_) => None,
    }
}

/// The hashing component: memory-hard one-way hashing of passwords and
/// verification against stored hashes. Stateless aside from the fresh
/// salt each hash draws; constructed once and handed to the service.
pub struct CredentialHasher;

impl CredentialHasher {
    pub fn new() -> (r: CredentialHasher) {
        CredentialHasher
    }

    /// Hash a password under a fresh random salt. `None` only when the
    /// underlying scheme refuses the input; every produced hash accepts
    /// the password it was made from.
    pub fn hash(&self, password: &str) -> (r: Option<String>)
        ensures
            r matches Some(h) ==> accepts_password(h@, password@),
    {
        argon2_hash(password)
    }

    /// Whether `password` is the password the self-describing hash
    /// `stored` was produced from.
    pub fn verify(&self, password: &str, stored: &str) -> (r: bool)
        ensures
            r == verifies_against(password@, stored@),
    {
        argon2_verify(password, stored)
    }
}

} // verus!
