//! Calls into other crates. Verus believes the contracts in this module
//! without reading the code behind them.

use rand::Rng;
use std::str::FromStr;
use vstd::prelude::*;

verus! {

/// `rand::Rng::gen_range(0..bound)` on `rand::thread_rng()`.
///
/// The range must not be empty, else `gen_range` panics. The result lies in
/// the range; nothing is claimed of how it is distributed.
#[verifier::external_body]
pub(crate) fn random_below(bound: u128) -> (r: u128)
    requires
        bound > 0,
    ensures
        r < bound,
{
    rand::thread_rng().gen_range(0..bound)
}

/// `uuid::Uuid::new_v4()`, as the 128-bit number that `Uuid::as_u128` gives.
///
/// Every such identifier carries version 4 and the RFC variant: the four
/// version bits are `0100` and the two variant bits are `10`. The other
/// 122 bits are random.
#[verifier::external_body]
pub(crate) fn fresh_uuid() -> (id: u128)
    ensures
        is_random_uuid(id),
{
    uuid::Uuid::new_v4().as_u128()
}

/// `chrono::Utc::now()`, in microseconds since the Unix epoch
/// (`DateTime::timestamp_micros`).
///
/// `Utc::now` panics when the system clock stands before the epoch, so a
/// reading that is returned is never negative. Two readings need not be
/// ordered.
#[verifier::external_body]
pub(crate) fn now_micros() -> (t: i64)
    ensures
        t >= 0,
{
    chrono::Utc::now().timestamp_micros()
}

/// The error type of the `bcrypt` crate.
#[verifier::external_type_specification]
#[verifier::external_body]
pub struct ExBcryptError(bcrypt::BcryptError);

/// The UUID that `uuid::Uuid::from_str` reads from `text`, as a 128-bit
/// number, or nothing where it refuses the text.
pub uninterp spec fn uuid_of_text(text: Seq<char>) -> Option<u128>;

/// `uuid::Uuid::from_str`, with the UUID as the 128-bit number that
/// `Uuid::as_u128` gives.
///
/// The parser looks at the text alone, so the same text always gives the
/// same answer; no more is claimed of which texts it accepts.
#[verifier::external_body]
pub(crate) fn parse_uuid(text: &str) -> (id: Option<u128>)
    ensures
        id == uuid_of_text(text@),
{
    match uuid::Uuid::from_str(text) {
        Ok(uuid) => Some(uuid.as_u128()),
        Err(_) => None,
    }
}

/// `bcrypt::hash` with `bcrypt::DEFAULT_COST`.
///
/// The salt is random, so nothing is claimed of the hash. The call fails
/// when the system gives no randomness.
#[verifier::external_body]
pub(crate) fn hash_password(password: &str) -> (hashed: Result<String, bcrypt::BcryptError>) {
    bcrypt::hash(password, bcrypt::DEFAULT_COST)
}

/// What `bcrypt::verify` finds for a password and a hash: whether they
/// match, or nothing where it cannot read the hash.
pub uninterp spec fn bcrypt_verdict(password: Seq<char>, hash: Seq<char>) -> Option<bool>;

/// `bcrypt::verify`.
///
/// The check looks at the password and the hash alone, so the same two
/// always give the same answer; no more is claimed of it.
#[verifier::external_body]
pub(crate) fn verify_password(password: &str, hash: &str) -> (verdict: Result<
    bool,
    bcrypt::BcryptError,
>)
    ensures
        verdict matches Ok(matched) ==> bcrypt_verdict(password@, hash@) == Some(matched),
        verdict is Err ==> bcrypt_verdict(password@, hash@) is None,
{
    bcrypt::verify(password, hash)
}

/// Whether `id` has the version and variant bits of a random (version 4)
/// UUID.
pub open spec fn is_random_uuid(id: u128) -> bool {
    (id >> 76u128) & 0xFu128 == 4u128 && (id >> 62u128) & 0x3u128 == 2u128
}

} // verus!
