//! Client fingerprinting.
//!
//! A fingerprint is a stable, privacy-preserving identifier derived from
//! client-observable request metadata (the user-agent string): the SHA-256
//! digest of the raw string, rendered as base64url without padding. It binds
//! a cookie to the client context it was issued in; a stolen cookie replayed
//! from another context no longer matches.

use vstd::prelude::*;
use vstd::utf8::encode_utf8;

use crate::crypto::{b64url_nopad_encode, b64url_nopad_of, sha256, sha256_of, MAX_HASH_INPUT_LEN};

verus! {

/// The fingerprint a given agent string hashes to. Absent or empty input is
/// hashed like any other string: empty-agent sessions are fingerprint-equal
/// to one another, an accepted and documented weakness.
pub open spec fn fingerprint_of(agent_bytes: Seq<u8>) -> Seq<char> {
    b64url_nopad_of(sha256_of(agent_bytes))
}

/// A hash of the client site metadata, to detect token stealing.
#[derive(Clone, Debug)]
pub struct ClientFingerprint(String);

impl View for ClientFingerprint {
    type V = Seq<char>;

    closed spec fn view(&self) -> Seq<char> {
        self.0@
    }
}

impl ClientFingerprint {
    /// Derive the fingerprint of a raw user-agent string. Pure and
    /// deterministic; there are no error cases, and the result always has
    /// the fixed length of a base64url-rendered SHA-256 digest.
    pub fn from_agent(agent: String) -> (r: ClientFingerprint)
        requires
            encode_utf8(agent@).len() < MAX_HASH_INPUT_LEN,
        ensures
            r@ == fingerprint_of(encode_utf8(agent@)),
            r@.len() == 43,
    {
        let digest = sha256(agent.as_str().as_bytes());
        let hash = b64url_nopad_encode(digest.as_slice());
        ClientFingerprint(hash)
    }

    pub fn as_str(&self) -> (r: &str)
        ensures
            r@ == self@,
    {
        self.0.as_str()
    }

    pub fn into_string(self) -> (r: String)
        ensures
            r@ == self@,
    {
        self.0
    }

    pub fn to_string(&self) -> (r: String)
        ensures
            r@ == self@,
    {
        self.0.clone()
    }
}

} // verus!
