//! The password-hashing discipline: deriving a PHC-encoded hash with a fresh
//! salt and verifying a password against a stored encoding, over a
//! memory-hard KDF.

use vstd::prelude::*;
use vstd::string::StringSliceAdditionalSpecFns;
use crate::error::ApiError;
use argon2::password_hash::{PasswordHash, PasswordHasher, PasswordVerifier, SaltString};

verus! {

/// Whether the KDF, recomputing the digest from the parameters and salt
/// carried by the PHC string `phc`, accepts `password`; a malformed PHC
/// string accepts nothing.
pub uninterp spec fn kdf_accepts(password: Seq<char>, phc: Seq<char>) -> bool;

/// `phc` is a PHC string freshly derived from `password`: it is non-empty
/// and the KDF accepts exactly that password against it.
pub open spec fn derived_from(phc: Seq<char>, password: Seq<char>) -> bool {
    &&& phc.len() > 0
    &&& forall|p: Seq<char>| kdf_accepts(p, phc) <==> p == password
}

/// The self-describing shape every derived encoding carries: the separator
/// and the algorithm family's identifier open the string.
pub open spec fn phc_shaped(phc: Seq<char>) -> bool {
    phc.len() > 7 && phc.subrange(0, 7) == "$argon2"@
}

/// Relies on argon2: `SaltString::generate` draws a fresh salt from the
/// operating-system RNG and `PasswordHasher::hash_password` derives the
/// digest and renders the non-empty PHC encoding, which opens with `$` and
/// the algorithm identifier (an `argon2` variant); `verify_password`
/// recomputes that digest from the encoding's own salt and parameters and
/// compares, so the encoding is accepted for the hashed password and — the
/// derivation keeping distinct passwords apart under one salt — for no
/// other. With the default parameters and a generated salt the one
/// input-dependent failure is a password over the algorithm's byte cap.
#[verifier::external_body]
pub fn hash_password(password: &str) -> (r: Result<String, ApiError>)
    ensures
        password.spec_bytes().len() <= u32::MAX ==> r is Ok,
        r matches Ok(phc) ==> derived_from(phc@, password@) && phc_shaped(phc@),
        r matches Err(e) ==> e is Internal,
{
    let salt = SaltString::generate(&mut rand::rngs::OsRng);
    match argon2::Argon2::default().hash_password(password.as_bytes(), &salt) {
        Ok(h) => Ok(h.to_string()),
        Err(_) => Err(ApiError::Internal),
    }
}

/// Relies on argon2: `PasswordHash::new` parses the PHC string and
/// `PasswordVerifier::verify_password` recomputes the digest from the salt
/// and parameters it carries, succeeding exactly when the recomputation
/// matches the stored digest — a function of the password and the string
/// alone. A malformed string is reported as a mismatch, never as an error.
#[verifier::external_body]
pub fn verify_password(password: &str, password_hash: &str) -> (r: bool)
    ensures
        r == kdf_accepts(password@, password_hash@),
{
    match PasswordHash::new(password_hash) {
        Ok(parsed) => argon2::Argon2::default().verify_password(password.as_bytes(), &parsed).is_ok(),
        Err(_) => false,
    }
}

/// Hash round-trip: a password is always accepted against a hash freshly
/// derived from it.
pub proof fn lemma_hash_round_trip(password: Seq<char>, phc: Seq<char>)
    requires
        derived_from(phc, password),
    ensures
        kdf_accepts(password, phc),
{
}

/// Hash rejection: no other password is ever accepted against a hash
/// derived from this one.
pub proof fn lemma_hash_rejection(password: Seq<char>, other: Seq<char>, phc: Seq<char>)
    requires
        derived_from(phc, password),
        other != password,
    ensures
        !kdf_accepts(other, phc),
{
}

} // verus!
