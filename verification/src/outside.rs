//! The trusted boundary: every call into an outside crate, and the two std
//! calls that vstd gives no specification, stands here behind a contract.
//! Nothing else in the library is taken on trust.

use vstd::prelude::*;

verus! {

/// The hexadecimal SHA-256 digest of a password, as the outside hasher
/// computes it. The digest is a function of the characters alone.
pub uninterp spec fn sha256_hex_of(password: Seq<char>) -> Seq<char>;

/// The lower-cased form of a string, as std computes it.
pub uninterp spec fn lower_of(s: Seq<char>) -> Seq<char>;

/// Relies on crypto_hash::hex_digest with Algorithm::SHA256: it returns the
/// digest of the input bytes serialized in hexadecimal, and depends on the
/// input alone.
#[verifier::external_body]
pub(crate) fn sha256_hex(data: &str) -> (r: String)
    ensures
        r@ == sha256_hex_of(data@),
{
    crypto_hash::hex_digest(crypto_hash::Algorithm::SHA256, data.as_bytes())
}

/// Relies on str::to_lowercase: the result depends on the characters alone;
/// lower-casing is idempotent (every character of the result is already
/// lower-case or uncased); and no case mapping produces or consumes `@`, so
/// the result holds an `@` exactly when the input does.
#[verifier::external_body]
pub(crate) fn lowercase(s: &str) -> (r: String)
    ensures
        r@ == lower_of(s@),
        lower_of(r@) == r@,
        r@.contains('@') == s@.contains('@'),
{
    s.to_lowercase()
}

/// Relies on rand::Rng::gen_range: on a non-empty half-open range it returns
/// a value inside the range (it panics on an empty one, which the
/// precondition rules out).
#[verifier::external_body]
pub(crate) fn rand_below(n: usize) -> (r: usize)
    requires
        0 < n,
    ensures
        r < n,
{
    rand::Rng::gen_range(&mut rand::thread_rng(), 0..n)
}

/// Relies on rand::Rng::gen: draws 128 bits from the thread-local generator.
/// Nothing is promised of the value.
#[verifier::external_body]
pub(crate) fn rand_bits() -> u128 {
    rand::Rng::gen(&mut rand::thread_rng())
}

/// Relies on uuid::Uuid::from_u128 and uuid::Uuid::as_u128: the first stores
/// the value as big-endian bytes and the second reads them back, so the
/// minted identifier carries exactly the given bits.
#[verifier::external_body]
pub(crate) fn guid_from_bits(bits: u128) -> (g: u128)
    ensures
        g == bits,
{
    uuid::Uuid::from_u128(bits).as_u128()
}

/// Relies on chrono::Local::now and chrono::DateTime::timestamp: seconds
/// since the Unix epoch by the machine's clock. Nothing is promised of the
/// value.
#[verifier::external_body]
pub(crate) fn clock_seconds() -> i64 {
    chrono::Local::now().timestamp()
}

/// Relies on String::from_utf8: bytes below 128 are valid UTF-8 and decode
/// one byte to one character of the same code point.
#[verifier::external_body]
pub(crate) fn ascii_to_string(bytes: Vec<u8>) -> (r: String)
    requires
        forall|i: int| 0 <= i < bytes@.len() ==> bytes@[i] < 128,
    ensures
        r@.len() == bytes@.len(),
        forall|i: int| 0 <= i < bytes@.len() ==> r@[i] == bytes@[i] as char,
{
    String::from_utf8(bytes).unwrap_or_else(|_| String::new())
}

} // verus!
