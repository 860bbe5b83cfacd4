//! The opaque session-family identifier.
//!
//! A session key is minted by the identity-issuing service and never
//! interpreted here: it is carried in the cookie and used, hashed, as the
//! lookup key into the revalidation store.

use vstd::prelude::*;

verus! {

/// An opaque session identifier. Immutable for the life of a session.
#[derive(Clone, Debug)]
pub struct SessionKey(Vec<u8>);

impl View for SessionKey {
    type V = Seq<u8>;

    closed spec fn view(&self) -> Seq<u8> {
        self.0@
    }
}

impl SessionKey {
    pub fn new(raw: Vec<u8>) -> (r: SessionKey)
        ensures
            r@ == raw@,
    {
        SessionKey(raw)
    }

    pub fn as_bytes(&self) -> (r: &[u8])
        ensures
            r@ == self@,
    {
        self.0.as_slice()
    }

    pub fn into_bytes(self) -> (r: Vec<u8>)
        ensures
            r@ == self@,
    {
        self.0
    }
}

} // verus!
