//! Password hashing with bcrypt.

use vstd::prelude::*;

verus! {

#[verifier::external_type_specification]
#[verifier::external_body]
pub struct ExBcryptError(bcrypt::BcryptError);

/// What `bcrypt::verify` gives for a password and a stored hash: `Some(true)` when they
/// match, `Some(false)` when they do not, `None` when the hash cannot be read.
pub uninterp spec fn bcrypt_verify_outcome(password: Seq<char>, hash: Seq<char>) -> Option<bool>;

/// Whether `hash` is a bcrypt hash (version 2b, cost 12) that `password` verifies against.
pub open spec fn is_hash_of(password: Seq<char>, hash: Seq<char>) -> bool {
    &&& bcrypt_verify_outcome(password, hash) == Some(true)
    &&& hash.len() == 60
    &&& hash.subrange(0, 7) == "$2b$12$"@
}

/// Calls `bcrypt::hash` with `bcrypt::DEFAULT_COST` (12) and a random salt.
///
/// On success the result is the hash formatted as `$2b$12$` followed by 53 characters
/// of salt and digest, which `bcrypt::verify` accepts for the same password (it re-hashes
/// with the stored cost and salt). The salt comes from the system's random source, so
/// nothing is said of which hash comes back, nor of when the call fails.
#[verifier::external_body]
fn bcrypt_hash_default_cost(password: &str) -> (r: Result<String, bcrypt::BcryptError>)
    ensures
        r matches Ok(h) ==> is_hash_of(password@, h@),
{
    bcrypt::hash(password, bcrypt::DEFAULT_COST)
}

/// Calls `bcrypt::verify`, which depends on its two arguments alone.
#[verifier::external_body]
fn bcrypt_verify(password: &str, hash: &str) -> (r: Result<bool, bcrypt::BcryptError>)
    ensures
        match r {
            Ok(b) => bcrypt_verify_outcome(password@, hash@) == Some(b),
            Err(_) => bcrypt_verify_outcome(password@, hash@) is None,
        },
{
    bcrypt::verify(password, hash)
}

/// Hashes a password with bcrypt at the default cost and a random salt.
pub fn hash_password(password: &str) -> (r: Result<String, bcrypt::BcryptError>)
    ensures
        r matches Ok(h) ==> is_hash_of(password@, h@),
{
    bcrypt_hash_default_cost(password)
}

/// Checks a password against a stored bcrypt hash; an unreadable hash is an error.
pub fn verify_password(password: &str, hash: &str) -> (r: Result<bool, bcrypt::BcryptError>)
    ensures
        r is Ok <==> bcrypt_verify_outcome(password@, hash@) is Some,
        r matches Ok(b) ==> bcrypt_verify_outcome(password@, hash@) == Some(b),
{
    bcrypt_verify(password, hash)
}

/// A password verifies against every hash that `hash_password` made of it.
pub proof fn lemma_hash_then_verify(password: Seq<char>, hash: Seq<char>)
    requires
        is_hash_of(password, hash),
    ensures
        bcrypt_verify_outcome(password, hash) == Some(true),
{
}

} // verus!
