//! One-way salted password hashing.

use vstd::prelude::*;

verus! {

/// The work factor used unless the service is configured with another one.
pub const DEFAULT_COST: u32 = 12;

/// Whether `bcrypt::verify` accepts `password` against the stored `hash`; a
/// hash that cannot be read accepts nothing.
pub uninterp spec fn bcrypt_accepts(password: Seq<char>, hash: Seq<char>) -> bool;

/// Relies on `bcrypt::hash`: a salted hash of the password at the given cost,
/// or `None` where the cost is outside 4 to 31 or no random salt could be
/// drawn. The salt is random, so the text is not known; but `bcrypt::verify`
/// reads the salt and cost back from it and recomputes the same digest, so
/// the password is accepted against it. The text is `$2b$`, two cost digits,
/// `$`, then 22 characters of salt and 31 of digest: 60 characters.
#[verifier::external_body]
fn bcrypt_hash(password: &str, cost: u32) -> (r: Option<String>)
    ensures
        !(4 <= cost <= 31) ==> r is None,
        r is Some ==> bcrypt_accepts(password@, r->Some_0@),
        r is Some ==> r->Some_0@.len() == 60,
{
    bcrypt::hash(password, cost).ok()
}

/// Relies on `bcrypt::verify`: whether the password hashes, with the salt and
/// cost read from `hash`, to the stored digest; an unreadable hash (the empty
/// one among them) gives an error, taken here as a refusal.
#[verifier::external_body]
fn bcrypt_verify(password: &str, hash: &str) -> (r: bool)
    ensures
        r == bcrypt_accepts(password@, hash@),
        hash@.len() == 0 ==> !r,
{
    bcrypt::verify(password, hash).unwrap_or(false)
}

/// A salted hash of `password` at the default cost, or `None` where hashing
/// failed; a hash it returns accepts the password.
pub fn generate_password_hash(password: &str) -> (r: Option<String>)
    ensures
        r is Some ==> bcrypt_accepts(password@, r->Some_0@),
        r is Some ==> r->Some_0@.len() == 60,
{
    bcrypt_hash(password, DEFAULT_COST)
}

/// A salted hash of `password` at `cost`, or `None` where hashing failed,
/// always so for a cost outside 4 to 31; a hash it returns accepts the
/// password.
pub fn hash_password_with_cost(password: &str, cost: u32) -> (r: Option<String>)
    ensures
        !(4 <= cost <= 31) ==> r is None,
        r is Some ==> bcrypt_accepts(password@, r->Some_0@),
        r is Some ==> r->Some_0@.len() == 60,
{
    bcrypt_hash(password, cost)
}

/// Whether `password` matches the stored `hashed_password`; nothing matches
/// an empty stored hash.
pub fn verify_password(password: &str, hashed_password: &str) -> (r: bool)
    ensures
        r == bcrypt_accepts(password@, hashed_password@),
        hashed_password@.len() == 0 ==> !r,
{
    bcrypt_verify(password, hashed_password)
}

} // verus!
