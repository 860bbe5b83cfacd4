//! Trusted boundary to the cryptographic and encoding primitives.
//!
//! Every function here is an `external_body` wrapper around one outside
//! function. Digests and signatures are given names (`sha256_of`,
//! `hmac_sha256_of`, ...): the engine's contracts only ever need that the
//! same input yields the same output, never the value itself. Hex encoding
//! is short enough to state exactly.

use vstd::prelude::*;
use vstd::utf8::valid_utf8;
use vstd::utf8::decode_utf8;
use base64::Engine;

verus! {

/// Inputs at or above this length are never handed to a hash or signature
/// primitive: SHA-256 itself is undefined past 2^64 - 1 bits, and `ring`
/// aborts there rather than returning an error.
pub const MAX_HASH_INPUT_LEN: u64 = 0x1000_0000_0000_0000;

/// The SHA-256 digest of a byte string, as computed by `ring`.
pub uninterp spec fn sha256_of(data: Seq<u8>) -> Seq<u8>;

/// The HMAC-SHA256 tag over `msg` under `key`, as computed by `ring`.
pub uninterp spec fn hmac_sha256_of(key: Seq<u8>, msg: Seq<u8>) -> Seq<u8>;

/// The base64url (no padding) rendering of a byte string.
pub uninterp spec fn b64url_nopad_of(data: Seq<u8>) -> Seq<char>;

/// What base64url (no padding) decoding yields on a string: the byte string
/// it denotes, or nothing when the input is not valid base64url.
pub uninterp spec fn b64url_nopad_decoded(s: Seq<char>) -> Option<Seq<u8>>;

/// What standard-alphabet, padded base64 decoding yields on a string.
pub uninterp spec fn b64_std_decoded(s: Seq<char>) -> Option<Seq<u8>>;

/// The lowercase hex digit for a value below 16.
pub open spec fn hex_digit(n: int) -> char {
    let digits = seq!['0', '1', '2', '3', '4', '5', '6', '7', '8', '9', 'a', 'b', 'c', 'd', 'e', 'f'];
    digits[n]
}

/// Lowercase hex rendering of a byte string: two digits per byte, high
/// nibble first.
pub open spec fn hex_of(data: Seq<u8>) -> Seq<char>
    decreases data.len(),
{
    if data.len() == 0 {
        Seq::empty()
    } else {
        seq![hex_digit(data[0] as int / 16), hex_digit(data[0] as int % 16)] + hex_of(
            data.drop_first(),
        )
    }
}

/// Relies on `ring::digest::digest` with `SHA256`: a pure function of the
/// input bytes, 32 bytes long.
#[verifier::external_body]
pub(crate) fn sha256(data: &[u8]) -> (r: Vec<u8>)
    requires
        data@.len() < MAX_HASH_INPUT_LEN,
    ensures
        r@ == sha256_of(data@),
        r@.len() == 32,
{
    ring::digest::digest(&ring::digest::SHA256, data).as_ref().to_vec()
}

/// Relies on `ring::hmac::sign` with `HMAC_SHA256`: a pure function of key
/// and message, 32 bytes long.
#[verifier::external_body]
pub(crate) fn hmac_sha256(key: &[u8], msg: &[u8]) -> (r: Vec<u8>)
    requires
        key@.len() < MAX_HASH_INPUT_LEN,
        msg@.len() < MAX_HASH_INPUT_LEN,
    ensures
        r@ == hmac_sha256_of(key@, msg@),
        r@.len() == 32,
{
    let hkey = ring::hmac::Key::new(ring::hmac::HMAC_SHA256, key);
    ring::hmac::sign(&hkey, msg).as_ref().to_vec()
}

/// Relies on `base64`'s `URL_SAFE_NO_PAD` engine: encoding is a pure
/// function of the input bytes, four characters for every three bytes with
/// no padding for a partial final group.
#[verifier::external_body]
pub(crate) fn b64url_nopad_encode(data: &[u8]) -> (r: String)
    requires
        data@.len() < MAX_HASH_INPUT_LEN,
    ensures
        r@ == b64url_nopad_of(data@),
        r@.len() == (4 * data@.len() + 2) / 3,
{
    base64::engine::general_purpose::URL_SAFE_NO_PAD.encode(data)
}

/// Relies on `base64`'s `URL_SAFE_NO_PAD` engine: decoding succeeds exactly
/// on the strings of its base64url alphabet and is a pure function of the
/// input.
#[verifier::external_body]
pub(crate) fn b64url_nopad_decode(s: &str) -> (r: Option<Vec<u8>>)
    ensures
        r is Some <==> b64url_nopad_decoded(s@) is Some,
        r matches Some(v) ==> b64url_nopad_decoded(s@) == Some(v@),
{
    base64::engine::general_purpose::URL_SAFE_NO_PAD.decode(s).ok()
}

/// Relies on `base64`'s `STANDARD` engine: decoding succeeds exactly on
/// padded standard-alphabet base64 and is a pure function of the input.
#[verifier::external_body]
pub(crate) fn b64_std_decode(s: &str) -> (r: Option<Vec<u8>>)
    ensures
        r is Some <==> b64_std_decoded(s@) is Some,
        r matches Some(v) ==> b64_std_decoded(s@) == Some(v@),
{
    base64::engine::general_purpose::STANDARD.decode(s).ok()
}

/// Relies on `hex::encode`: lowercase hex, two digits per byte, in input
/// order.
#[verifier::external_body]
pub(crate) fn hex_encode(data: &[u8]) -> (r: String)
    ensures
        r@ == hex_of(data@),
{
    hex::encode(data)
}

/// Relies on `std`'s `String::from_utf8`: succeeds exactly on valid UTF-8
/// and decodes those bytes.
#[verifier::external_body]
pub(crate) fn string_from_utf8(v: Vec<u8>) -> (r: Option<String>)
    ensures
        r is Some <==> valid_utf8(v@),
        r matches Some(s) ==> s@ == decode_utf8(v@),
{
    String::from_utf8(v).ok()
}

} // verus!
