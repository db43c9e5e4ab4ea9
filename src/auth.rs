use vstd::prelude::*;

verus! {

/// What `bcrypt::verify` answers for a password and a stored digest: whether
/// they match, or `None` where the digest cannot be read.
pub uninterp spec fn bcrypt_verdict(password: Seq<char>, digest: Seq<char>) -> Option<bool>;

/// Relies on `bcrypt::verify`: it re-hashes the password with the cost and
/// salt recorded in the digest and compares in constant time; its answer is a
/// function of the two strings, and a digest it cannot parse is an error
/// (here `None`).
#[verifier::external_body]
pub(crate) fn check_password(password: &str, digest: &str) -> (r: Option<bool>)
    ensures
        r == bcrypt_verdict(password@, digest@),
{
    bcrypt::verify(password, digest).ok()
}

/// Relies on `bcrypt::hash` at `bcrypt::DEFAULT_COST`: a salted digest, the salt
/// drawn from the operating system's random source; `None` where that fails.
/// The digest records its cost and salt, so `bcrypt::verify` re-hashes the same
/// password to the same value and accepts it.
#[verifier::external_body]
pub(crate) fn hash_password(password: &str) -> (r: Option<String>)
    ensures
        r matches Some(d) ==> bcrypt_verdict(password@, d@) == Some(true),
{
    bcrypt::hash(password, bcrypt::DEFAULT_COST).ok()
}

} // verus!
