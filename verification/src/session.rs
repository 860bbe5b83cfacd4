//! The signed session cookie.
//!
//! [`SessionMeta`] holds the codec configuration: the cookie's name, the
//! signing key (decoded once, at startup, from a base64 secret) and an
//! optional domain. `encode` seals a record into a cookie whose transport
//! attributes are fixed policy — `Secure`, `HttpOnly`, `SameSite=Lax`,
//! `Path=/`, session-scoped expiry — and `clear` produces a cookie that
//! expires in the past so the client drops it.

use vstd::prelude::*;
use vstd::string::StringExecFns;

use crate::codec::{encodable, record_to_bytes, sealed_value, seal, unseal, unseal_spec};
use crate::crypto::{b64_std_decode, b64_std_decoded, MAX_HASH_INPUT_LEN};
use crate::error::{SessionError, UserSessionError};
use crate::record::CurrentUser;

verus! {

/// Key material must be at least this long; shorter secrets are a fatal
/// configuration error, as with the 512-bit minimum of signed-cookie keys.
pub const MIN_KEY_LEN: usize = 64;

/// When the cookie is set to expire.
#[derive(Clone, Copy, Debug, PartialEq, Eq, Structural)]
pub enum CookieExpiration {
    /// Cleared when the browser session ends.
    SessionScoped,
    /// Already in the past: instructs the client to drop the cookie.
    Past,
}

/// A cookie, ready to be rendered into a `Set-Cookie` header by the caller.
#[derive(Debug)]
pub struct SessionCookie {
    pub name: String,
    /// The signed value; transport encoding (base64 or the like) is the
    /// caller's concern.
    pub value: Vec<u8>,
    pub domain: Option<String>,
    pub secure: bool,
    pub http_only: bool,
    pub same_site_lax: bool,
    pub path: String,
    pub expiration: CookieExpiration,
}

/// Configuration of the signed session codec.
#[derive(Clone, Debug)]
pub struct SessionMeta {
    cookie_name: String,
    key: Vec<u8>,
    domain: Option<String>,
}

impl SessionMeta {
    /// The signing key material.
    pub closed spec fn key_spec(&self) -> Seq<u8> {
        self.key@
    }

    /// The cookie name.
    pub closed spec fn cookie_name_spec(&self) -> Seq<char> {
        self.cookie_name@
    }

    /// The configured domain, if any.
    pub closed spec fn domain_spec(&self) -> Option<Seq<char>> {
        match self.domain {
            Some(d) => Some(d@),
            None => None,
        }
    }

    /// The key material is long enough to sign with and small enough for
    /// the signature primitive. Established by `new`, kept by the builders.
    pub open spec fn wf(&self) -> bool {
        MIN_KEY_LEN <= self.key_spec().len() < MAX_HASH_INPUT_LEN
    }

    /// Decode the configured base64 secret into signing key material.
    /// Fails — fatally, at startup — when the secret is not base64 or the
    /// key material is undersized (or beyond what the signer accepts).
    pub fn new(b64_key: &str) -> (r: Result<SessionMeta, SessionError>)
        ensures
            match r {
                Ok(m) => {
                    &&& m.wf()
                    &&& b64_std_decoded(b64_key@) == Some(m.key_spec())
                    &&& m.cookie_name_spec() == "sid"@
                    &&& m.domain_spec() is None
                },
                Err(e) => {
                    &&& e is InvalidSecret
                    &&& match b64_std_decoded(b64_key@) {
                        None => true,
                        Some(k) => k.len() < MIN_KEY_LEN || k.len() >= MAX_HASH_INPUT_LEN,
                    }
                },
            },
    {
        let key = match b64_std_decode(b64_key) {
            Some(k) => k,
            None => {
                return Err(SessionError::InvalidSecret(String::from_str("not valid base64")));
            },
        };
        if key.len() < MIN_KEY_LEN || (key.len() as u64) >= MAX_HASH_INPUT_LEN {
            return Err(SessionError::InvalidSecret(String::from_str("wrong key material size")));
        }
        Ok(SessionMeta { cookie_name: String::from_str("sid"), key, domain: None })
    }

    /// Replace the cookie name.
    pub fn with_cookie_name(self, cookie_name: &str) -> (r: SessionMeta)
        ensures
            r.cookie_name_spec() == cookie_name@,
            r.key_spec() == self.key_spec(),
            r.domain_spec() == self.domain_spec(),
            self.wf() ==> r.wf(),
    {
        SessionMeta { cookie_name: String::from_str(cookie_name), ..self }
    }

    /// Set the cookie domain.
    pub fn with_domain(self, domain: &str) -> (r: SessionMeta)
        ensures
            r.cookie_name_spec() == self.cookie_name_spec(),
            r.key_spec() == self.key_spec(),
            r.domain_spec() == Some(domain@),
            self.wf() ==> r.wf(),
    {
        SessionMeta { domain: Some(String::from_str(domain)), ..self }
    }

    /// Seal a record into a session cookie. The transport attributes are
    /// fixed policy, not caller-configurable.
    pub fn encode(&self, user: &CurrentUser) -> (c: SessionCookie)
        requires
            self.wf(),
            encodable(user@),
        ensures
            c.value@ == sealed_value(self.key_spec(), user@),
            c.name@ == self.cookie_name_spec(),
            c.domain.deep_view() == self.domain_spec(),
            c.secure,
            c.http_only,
            c.same_site_lax,
            c.path@ == "/"@,
            c.expiration is SessionScoped,
    {
        let value = seal(self.key.as_slice(), user);
        SessionCookie {
            name: self.cookie_name.clone(),
            value,
            domain: self.domain_clone(),
            secure: true,
            http_only: true,
            same_site_lax: true,
            path: String::from_str("/"),
            expiration: CookieExpiration::SessionScoped,
        }
    }

    /// Seal a record after checking that it is small enough to sign:
    /// `None` exactly when it is not. Records a machine can hold always
    /// are.
    pub fn try_encode(&self, user: &CurrentUser) -> (r: Option<SessionCookie>)
        requires
            self.wf(),
        ensures
            match r {
                Some(c) => {
                    &&& encodable(user@)
                    &&& c.value@ == sealed_value(self.key_spec(), user@)
                    &&& c.name@ == self.cookie_name_spec()
                    &&& c.domain.deep_view() == self.domain_spec()
                    &&& c.secure
                    &&& c.http_only
                    &&& c.same_site_lax
                    &&& c.path@ == "/"@
                    &&& c.expiration is SessionScoped
                },
                None => !encodable(user@),
            },
    {
        let payload = record_to_bytes(user);
        if (payload.len() as u64) < MAX_HASH_INPUT_LEN {
            Some(self.encode(user))
        } else {
            None
        }
    }

    /// Verify and parse a cookie value. A missing, forged or malformed
    /// cookie is `Unauthenticated`; nothing more is revealed, so a caller
    /// cannot be used as a signature oracle.
    pub fn decode(&self, value: &[u8]) -> (r: Result<CurrentUser, UserSessionError>)
        requires
            self.wf(),
        ensures
            match r {
                Ok(u) => unseal_spec(self.key_spec(), value@) == Some(u@),
                Err(e) => e is Unauthenticated && unseal_spec(self.key_spec(), value@) is None,
            },
    {
        match unseal(self.key.as_slice(), value) {
            Some(u) => Ok(u),
            None => Err(UserSessionError::Unauthenticated),
        }
    }

    /// A cookie that expires immediately, telling the client to drop the
    /// session cookie.
    pub fn clear(&self) -> (c: SessionCookie)
        ensures
            c.value@.len() == 0,
            c.name@ == self.cookie_name_spec(),
            c.domain.deep_view() == self.domain_spec(),
            c.secure,
            c.http_only,
            c.same_site_lax,
            c.path@ == "/"@,
            c.expiration is Past,
    {
        SessionCookie {
            name: self.cookie_name.clone(),
            value: Vec::new(),
            domain: self.domain_clone(),
            secure: true,
            http_only: true,
            same_site_lax: true,
            path: String::from_str("/"),
            expiration: CookieExpiration::Past,
        }
    }

    fn domain_clone(&self) -> (r: Option<String>)
        ensures
            r.deep_view() == self.domain_spec(),
    {
        match &self.domain {
            Some(d) => Some(d.clone()),
            None => None,
        }
    }
}

} // verus!
