use vstd::prelude::*;

verus! {

/// The error of the `bcrypt` crate.
#[verifier::external_type_specification]
#[verifier::external_body]
pub struct ExBcryptError(bcrypt::BcryptError);

/// What `bcrypt::verify` finds for a password and a stored hash: whether the
/// password is the one that was hashed, or `None` where it fails, as it does
/// on a text that is no hash.
pub uninterp spec fn bcrypt_verdict(password: Seq<char>, hash: Seq<char>) -> Option<bool>;

/// Checks `password` against `hash` with `bcrypt::verify`.
///
/// Trusted: the outcome is a function of the two texts alone, which
/// [`bcrypt_verdict`] names: `verify` parses the hash, hashes the password
/// again with the cost and salt found there, and compares.
#[verifier::external_body]
pub(crate) fn verify(password: &str, hash: &str) -> (verdict: Result<bool, bcrypt::BcryptError>)
    ensures
        match verdict {
            Ok(same) => bcrypt_verdict(password@, hash@) == Some(same),
            Err(_) => bcrypt_verdict(password@, hash@) is None,
        },
{
    bcrypt::verify(password, hash)
}

/// Hashes `password` with `bcrypt::hash` at the crate's default cost.
///
/// Trusted, and nothing is claimed of the outcome: the salt is drawn at
/// random, so one password has many hashes.
#[verifier::external_body]
pub(crate) fn hash(password: &str) -> (hashed: Result<String, bcrypt::BcryptError>) {
    bcrypt::hash(password, bcrypt::DEFAULT_COST)
}

/// The text of a `bcrypt` error, as its `Display` writes it. Trusted, and
/// nothing is claimed of the text.
#[verifier::external_body]
pub(crate) fn error_text(error: &bcrypt::BcryptError) -> (text: String) {
    error.to_string()
}

} // verus!
