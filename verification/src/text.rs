//! Verified text helpers: the login/email distinction, the session-token and
//! reset-code generators, and the clock clamp.

use vstd::prelude::*;
use vstd::string::StrSliceExecFns;
use crate::outside::{ascii_to_string, rand_below};

verus! {

/// Length of a session token.
pub const SESSION_TOKEN_LEN: usize = 32;

/// Length of a reset code.
pub const OTP_CODE_LEN: usize = 4;

/// A decimal digit.
pub open spec fn digit_char(c: char) -> bool {
    '0' <= c && c <= '9'
}

/// A character of the 62-symbol token alphabet.
pub open spec fn token_char(c: char) -> bool {
    ('A' <= c && c <= 'Z') || ('a' <= c && c <= 'z') || digit_char(c)
}

/// A well-shaped session token: fixed length, alphanumeric throughout.
pub open spec fn token_shape(s: Seq<char>) -> bool {
    &&& s.len() == SESSION_TOKEN_LEN
    &&& forall|i: int| 0 <= i < s.len() ==> token_char(#[trigger] s[i])
}

/// A well-shaped reset code: fixed length, digits throughout.
pub open spec fn code_shape(s: Seq<char>) -> bool {
    &&& s.len() == OTP_CODE_LEN
    &&& forall|i: int| 0 <= i < s.len() ==> digit_char(#[trigger] s[i])
}

/// True iff the string holds an `@`, which is how a login identifier is told
/// apart from an email address.
pub fn contains_at_sign(s: &str) -> (r: bool)
    ensures
        r == s@.contains('@'),
{
    let n = s.unicode_len();
    let mut i: usize = 0;
    while i < n
        invariant
            i <= n,
            n == s@.len(),
            forall|j: int| 0 <= j < i ==> s@[j] != '@',
        decreases n - i,
    {
        if s.get_char(i) == '@' {
            return true;
        }
        i += 1;
    }
    false
}

/// The byte of the token alphabet at the given position: upper-case letters,
/// then lower-case letters, then digits.
fn token_byte(idx: usize) -> (b: u8)
    requires
        idx < 62,
    ensures
        b < 128,
        token_char(b as char),
{
    if idx < 26 {
        65 + (idx as u8)
    } else if idx < 52 {
        97 + (idx as u8 - 26)
    } else {
        48 + (idx as u8 - 52)
    }
}

/// Draws a fresh high-entropy session token: 32 characters, each uniform
/// over the 62-symbol alphanumeric alphabet.
pub fn make_session_token() -> (t: String)
    ensures
        token_shape(t@),
{
    let mut bytes: Vec<u8> = Vec::new();
    let mut k: usize = 0;
    while k < SESSION_TOKEN_LEN
        invariant
            k <= SESSION_TOKEN_LEN,
            bytes@.len() == k,
            forall|j: int| 0 <= j < k ==> bytes@[j] < 128 && token_char(#[trigger] bytes@[j] as char),
        decreases SESSION_TOKEN_LEN - k,
    {
        let idx = rand_below(62);
        bytes.push(token_byte(idx));
        k += 1;
    }
    ascii_to_string(bytes)
}

/// Draws a fresh reset code: 4 characters, each a uniform decimal digit.
/// Collisions between codes are allowed.
pub fn make_otp_code() -> (c: String)
    ensures
        code_shape(c@),
{
    let mut bytes: Vec<u8> = Vec::new();
    let mut k: usize = 0;
    while k < OTP_CODE_LEN
        invariant
            k <= OTP_CODE_LEN,
            bytes@.len() == k,
            forall|j: int| 0 <= j < k ==> bytes@[j] < 128 && digit_char(#[trigger] bytes@[j] as char),
        decreases OTP_CODE_LEN - k,
    {
        let d = rand_below(10);
        bytes.push(48 + (d as u8));
        k += 1;
    }
    ascii_to_string(bytes)
}

/// A clock reading clamped to the epoch: readings before it count as zero.
pub open spec fn clamp_spec(t: i64) -> u64 {
    if t < 0 {
        0
    } else {
        t as u64
    }
}

/// Clamps a signed clock reading to unsigned seconds since the epoch.
pub fn clamp_seconds(t: i64) -> (r: u64)
    ensures
        r == clamp_spec(t),
{
    if t < 0 {
        0
    } else {
        t as u64
    }
}

} // verus!
