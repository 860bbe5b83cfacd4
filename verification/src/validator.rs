//! The session validator: decode the cookie, check the fingerprint, consult
//! the revalidation store, reconcile versions, and return a verified
//! identity or a classified failure.
//!
//! The store round-trips themselves are I/O and belong to the caller; the
//! decisions in between are here, each as a function from the fetched values
//! to a verdict, with the whole verdict pinned down by `refresh_verdict`,
//! `unchecked_verdict` and `checked_verdict`.

use vstd::prelude::*;
use vstd::string::StringExecFns;

use crate::codec::{encodable, sealed_value, seal, str_eq, unseal, unseal_spec};
use crate::crypto::{b64url_nopad_decode, b64url_nopad_decoded, MAX_HASH_INPUT_LEN};
use crate::error::UserSessionError;
use crate::fingerprint::ClientFingerprint;
use crate::record::{CheckedCurrentUser, CurrentUser, CurrentUserView, UncheckedCurrentUser};
use crate::session::MIN_KEY_LEN;
use crate::store::{
    max_version, spec_data_key, spec_lookup, spec_max_version, spec_sentinel_key, spec_versions,
    store_keys, SessionData, SessionDataView, SessionSentinel, SessionSentinelView,
    SessionStoreEntry, SessionStoreEntryView,
};

verus! {

/// The checks on what a cookie may never change: the fingerprint and start
/// time must equal the sentinel's, and the cookie's version may not be
/// ahead of the newest version the store knows.
pub open spec fn immutable_mismatch(
    user: CurrentUserView,
    sentinel: SessionSentinelView,
    version: u32,
) -> bool {
    ||| user.fingerprint != sentinel.fingerprint
    ||| user.version > version
    ||| user.session_start != sentinel.start_date
}

/// The record with its mutable attributes overwritten from a snapshot.
pub open spec fn refreshed(
    user: CurrentUserView,
    data: SessionDataView,
    version: u32,
) -> CurrentUserView {
    CurrentUserView { name: data.name, roles: data.roles, version, ..user }
}

/// The verdict of store-backed revalidation: expired when the sentinel or
/// any snapshot is gone, compromised when an immutable check fails, and
/// otherwise the record refreshed to the newest snapshot.
pub open spec fn refresh_verdict(user: CurrentUserView, store: SessionStoreEntryView) -> Result<
    CurrentUserView,
    UserSessionError,
> {
    match store.sentinel {
        None => Err(UserSessionError::SessionExpired),
        Some(sentinel) => {
            let versions = spec_versions(store.snapshots);
            if versions.len() == 0 {
                Err(UserSessionError::SessionExpired)
            } else {
                let v = spec_max_version(versions);
                match spec_lookup(store.snapshots, v) {
                    None => Err(UserSessionError::SessionExpired),
                    Some(data) => if immutable_mismatch(user, sentinel, v) {
                        Err(UserSessionError::SessionCompromised)
                    } else {
                        Ok(refreshed(user, data, v))
                    },
                }
            }
        },
    }
}

/// The bytes a caller presented as the cookie value, if any.
pub open spec fn opt_bytes(o: Option<&[u8]>) -> Option<Seq<u8>> {
    match o {
        Some(v) => Some(v@),
        None => None,
    }
}

/// The verdict of unchecked extraction: no cookie and a bad signature are
/// one and the same `Unauthenticated`; a fingerprint mismatch is
/// `SessionCompromised`; otherwise the record, exactly as carried.
pub open spec fn unchecked_verdict(
    secret: Seq<u8>,
    cookie: Option<Seq<u8>>,
    fingerprint: Seq<char>,
) -> Result<CurrentUserView, UserSessionError> {
    match cookie {
        None => Err(UserSessionError::Unauthenticated),
        Some(v) => match unseal_spec(secret, v) {
            None => Err(UserSessionError::Unauthenticated),
            Some(u) => if u.fingerprint != fingerprint {
                Err(UserSessionError::SessionCompromised)
            } else {
                Ok(u)
            },
        },
    }
}

/// The verdict of checked extraction: unchecked extraction, then
/// store-backed revalidation.
pub open spec fn checked_verdict(
    secret: Seq<u8>,
    cookie: Option<Seq<u8>>,
    fingerprint: Seq<char>,
    store: SessionStoreEntryView,
) -> Result<CurrentUserView, UserSessionError> {
    match unchecked_verdict(secret, cookie, fingerprint) {
        Err(e) => Err(e),
        Ok(u) => refresh_verdict(u, store),
    }
}

/// Validates user sessions. While sessions are signed, this layer also gets
/// an up-to-date version from the revalidation store.
pub struct UserSessionValidator {
    cookie_name: String,
    cookie_secret: Vec<u8>,
    key_prefix: String,
}

impl UserSessionValidator {
    /// The decoded signing key material.
    pub closed spec fn secret_spec(&self) -> Seq<u8> {
        self.cookie_secret@
    }

    /// The name of the session cookie.
    pub closed spec fn cookie_name_spec(&self) -> Seq<char> {
        self.cookie_name@
    }

    /// The configured store namespace prefix.
    pub closed spec fn key_prefix_spec(&self) -> Seq<char> {
        self.key_prefix@
    }

    /// Key material within the signer's bounds; established by `new`.
    pub open spec fn wf(&self) -> bool {
        MIN_KEY_LEN <= self.secret_spec().len() < MAX_HASH_INPUT_LEN
    }

    /// Build a validator from its configuration. The base64url secret is
    /// decoded once; malformed or undersized key material is a fatal
    /// configuration error.
    pub fn new(name_suffix: Option<&str>, cookie_secret: &str, key_prefix: &str) -> (r: Result<
        UserSessionValidator,
        UserSessionError,
    >)
        ensures
            match r {
                Ok(v) => {
                    &&& v.wf()
                    &&& b64url_nopad_decoded(cookie_secret@) == Some(v.secret_spec())
                    &&& v.cookie_name_spec() == "sid"@ + (match name_suffix {
                        Some(s) => s@,
                        None => Seq::<char>::empty(),
                    })
                    &&& v.key_prefix_spec() == key_prefix@
                },
                Err(e) => {
                    &&& e is InvalidSecret
                    &&& match b64url_nopad_decoded(cookie_secret@) {
                        None => true,
                        Some(k) => k.len() < MIN_KEY_LEN || k.len() >= MAX_HASH_INPUT_LEN,
                    }
                },
            },
    {
        let key = match b64url_nopad_decode(cookie_secret) {
            Some(k) => k,
            None => {
                return Err(
                    UserSessionError::InvalidSecret(String::from_str("not valid base64")),
                );
            },
        };
        if key.len() < MIN_KEY_LEN || (key.len() as u64) >= MAX_HASH_INPUT_LEN {
            return Err(
                UserSessionError::InvalidSecret(String::from_str("wrong key material size")),
            );
        }
        let mut cookie_name = String::from_str("sid");
        match name_suffix {
            Some(s) => {
                cookie_name.append(s);
            },
            None => {
                proof {
                    assert(cookie_name@ + Seq::<char>::empty() =~= cookie_name@);
                }
            },
        }
        Ok(
            UserSessionValidator {
                cookie_name,
                cookie_secret: key,
                key_prefix: String::from_str(key_prefix),
            },
        )
    }

    /// The name of the cookie this validator reads.
    pub fn cookie_name(&self) -> (r: &str)
        ensures
            r@ == self.cookie_name_spec(),
    {
        self.cookie_name.as_str()
    }

    /// Seal a (possibly refreshed) record back into a cookie value under
    /// this validator's secret.
    pub fn seal_cookie_value(&self, user: &CurrentUser) -> (r: Vec<u8>)
        requires
            self.wf(),
            encodable(user@),
        ensures
            r@ == sealed_value(self.secret_spec(), user@),
    {
        seal(self.cookie_secret.as_slice(), user)
    }

    /// The two namespaced store keys for the session `user` carries:
    /// `(sentinel key, data key)`.
    pub fn session_store_keys(&self, user: &CurrentUser) -> (r: (String, String))
        requires
            user@.key.len() < MAX_HASH_INPUT_LEN,
        ensures
            r.0@ == spec_sentinel_key(self.key_prefix_spec(), user@.user_id, user@.key),
            r.1@ == spec_data_key(self.key_prefix_spec(), user@.user_id, user@.key),
    {
        store_keys(self.key_prefix.as_str(), user.user_id, &user.key)
    }

    /// First decision after the batched store query: missing sentinel or no
    /// versions means the session is expired; otherwise the newest version
    /// is the one to fetch.
    pub fn select_version(sentinel: &Option<SessionSentinel>, versions: &Vec<u32>) -> (r: Result<
        u32,
        UserSessionError,
    >)
        ensures
            match r {
                Ok(v) => sentinel is Some && versions@.len() > 0 && v == spec_max_version(
                    versions@,
                ),
                Err(e) => e is SessionExpired && (sentinel is None || versions@.len() == 0),
            },
    {
        if sentinel.is_none() {
            return Err(UserSessionError::SessionExpired);
        }
        match max_version(versions) {
            Some(v) => Ok(v),
            None => Err(UserSessionError::SessionExpired),
        }
    }

    /// Second decision, once the chosen snapshot was fetched: a snapshot
    /// deleted in the meantime means expired; a failed immutable check
    /// means compromised; otherwise the record's attributes are overwritten
    /// from the snapshot.
    pub fn apply_snapshot(
        user: &mut CurrentUser,
        sentinel: &SessionSentinel,
        version: u32,
        snapshot: Option<SessionData>,
    ) -> (r: Result<(), UserSessionError>)
        ensures
            match r {
                Ok(()) => {
                    &&& snapshot matches Some(d) && final(user)@ == refreshed(
                        old(user)@,
                        d@,
                        version,
                    )
                    &&& !immutable_mismatch(old(user)@, sentinel@, version)
                },
                Err(e) => {
                    &&& final(user)@ == old(user)@
                    &&& (snapshot is None <==> e is SessionExpired)
                    &&& (snapshot matches Some(d) ==> e is SessionCompromised
                        && immutable_mismatch(old(user)@, sentinel@, version))
                },
            },
    {
        let data = match snapshot {
            Some(d) => d,
            None => {
                return Err(UserSessionError::SessionExpired);
            },
        };
        if !str_eq(user.fingerprint.as_str(), sentinel.fingerprint.as_str()) || user.version
            > version || user.session_start != sentinel.start_date {
            return Err(UserSessionError::SessionCompromised);
        }
        user.name = data.name;
        user.roles = data.roles;
        user.version = version;
        Ok(())
    }

    /// The whole revalidation, against already-fetched store contents: the
    /// verdict is exactly `refresh_verdict`, and the record is updated only
    /// on success.
    pub fn refresh_session_data(
        &self,
        user: &mut CurrentUser,
        store: &SessionStoreEntry,
    ) -> (r: Result<(), UserSessionError>)
        ensures
            match r {
                Ok(()) => refresh_verdict(old(user)@, store@) == Ok::<
                    CurrentUserView,
                    UserSessionError,
                >(final(user)@),
                Err(e) => refresh_verdict(old(user)@, store@) == Err::<
                    CurrentUserView,
                    UserSessionError,
                >(e) && final(user)@ == old(user)@,
            },
    {
        let sentinel = match &store.sentinel {
            Some(s) => s,
            None => {
                return Err(UserSessionError::SessionExpired);
            },
        };
        let versions = store.versions();
        let version = match max_version(&versions) {
            Some(v) => v,
            None => {
                return Err(UserSessionError::SessionExpired);
            },
        };
        let snapshot = match store.get(version) {
            Some(d) => Some(clone_session_data(d)),
            None => None,
        };
        Self::apply_snapshot(user, sentinel, version, snapshot)
    }

    /// Unchecked extraction: verify the cookie signature and the client
    /// fingerprint, skipping the store round-trip. For call sites that only
    /// need best-effort identity and accept stale attributes.
    pub fn extract_unchecked(
        &self,
        cookie_value: Option<&[u8]>,
        fingerprint: &ClientFingerprint,
    ) -> (r: Result<UncheckedCurrentUser, UserSessionError>)
        requires
            self.wf(),
        ensures
            match r {
                Ok(u) => unchecked_verdict(self.secret_spec(), opt_bytes(cookie_value), fingerprint@)
                    == Ok::<CurrentUserView, UserSessionError>(u@),
                Err(e) => unchecked_verdict(
                    self.secret_spec(),
                    opt_bytes(cookie_value),
                    fingerprint@,
                ) == Err::<CurrentUserView, UserSessionError>(e),
            },
    {
        let value = match cookie_value {
            Some(v) => v,
            None => {
                return Err(UserSessionError::Unauthenticated);
            },
        };
        let user = match unseal(self.cookie_secret.as_slice(), value) {
            Some(u) => u,
            None => {
                return Err(UserSessionError::Unauthenticated);
            },
        };
        if !str_eq(user.fingerprint.as_str(), fingerprint.as_str()) {
            return Err(UserSessionError::SessionCompromised);
        }
        Ok(UncheckedCurrentUser::wrap(user))
    }

    /// Checked extraction: unchecked extraction, then revalidation against
    /// the fetched store contents.
    pub fn extract_checked(
        &self,
        cookie_value: Option<&[u8]>,
        fingerprint: &ClientFingerprint,
        store: &SessionStoreEntry,
    ) -> (r: Result<CheckedCurrentUser, UserSessionError>)
        requires
            self.wf(),
        ensures
            match r {
                Ok(u) => checked_verdict(
                    self.secret_spec(),
                    opt_bytes(cookie_value),
                    fingerprint@,
                    store@,
                ) == Ok::<CurrentUserView, UserSessionError>(u@),
                Err(e) => checked_verdict(
                    self.secret_spec(),
                    opt_bytes(cookie_value),
                    fingerprint@,
                    store@,
                ) == Err::<CurrentUserView, UserSessionError>(e),
            },
    {
        let unchecked = match self.extract_unchecked(cookie_value, fingerprint) {
            Ok(u) => u,
            Err(e) => {
                return Err(e);
            },
        };
        let mut user = unchecked.into_user();
        match self.refresh_session_data(&mut user, store) {
            Ok(()) => Ok(CheckedCurrentUser::wrap(user)),
            Err(e) => Err(e),
        }
    }
}

/// A field-by-field copy whose contract, unlike a derived clone's, says the
/// content is kept.
fn clone_session_data(d: &SessionData) -> (r: SessionData)
    ensures
        r@ == d@,
{
    let roles = clone_strings(&d.roles);
    SessionData { name: d.name.clone(), is_email_confirmed: d.is_email_confirmed, roles }
}

fn clone_strings(v: &Vec<String>) -> (r: Vec<String>)
    ensures
        r.deep_view() == v.deep_view(),
{
    let mut out: Vec<String> = Vec::new();
    let n = v.len();
    for i in 0..n
        invariant
            n == v@.len(),
            out@.len() == i,
            forall|j: int| 0 <= j < i ==> out@[j]@ == v@[j]@,
    {
        out.push(v[i].clone());
    }
    proof {
        assert(out.deep_view() =~= v.deep_view());
    }
    out
}

// ------------------------------------------------------------------
// The laws of the validator.
// ------------------------------------------------------------------
/// Fingerprint binding: a cookie issued under one fingerprint, presented
/// with a different recomputed fingerprint, is judged compromised — never
/// valid — whatever the store holds.
pub proof fn lemma_fingerprint_binding(
    secret: Seq<u8>,
    r: CurrentUserView,
    fingerprint: Seq<char>,
    store: SessionStoreEntryView,
)
    requires
        encodable(r),
        r.fingerprint != fingerprint,
    ensures
        unchecked_verdict(secret, Some(sealed_value(secret, r)), fingerprint) == Err::<
            CurrentUserView,
            UserSessionError,
        >(UserSessionError::SessionCompromised),
        checked_verdict(secret, Some(sealed_value(secret, r)), fingerprint, store) == Err::<
            CurrentUserView,
            UserSessionError,
        >(UserSessionError::SessionCompromised),
{
    crate::codec::lemma_seal_unseal_round_trip(secret, r);
}

/// Version monotonicity: against a store whose newest version is `v`, a
/// cookie claiming a version past `v` is compromised; one at or behind `v`,
/// with matching fingerprint and start time, is accepted with its
/// attributes refreshed to version `v`.
pub proof fn lemma_version_monotonicity(
    secret: Seq<u8>,
    r: CurrentUserView,
    store: SessionStoreEntryView,
    sentinel: SessionSentinelView,
)
    requires
        encodable(r),
        store.sentinel == Some(sentinel),
        spec_versions(store.snapshots).len() > 0,
        spec_lookup(store.snapshots, spec_max_version(spec_versions(store.snapshots))) is Some,
    ensures
        r.version > spec_max_version(spec_versions(store.snapshots)) ==> checked_verdict(
            secret,
            Some(sealed_value(secret, r)),
            r.fingerprint,
            store,
        ) == Err::<CurrentUserView, UserSessionError>(UserSessionError::SessionCompromised),
        (r.version <= spec_max_version(spec_versions(store.snapshots)) && r.fingerprint
            == sentinel.fingerprint && r.session_start == sentinel.start_date) ==> checked_verdict(
            secret,
            Some(sealed_value(secret, r)),
            r.fingerprint,
            store,
        ) == Ok::<CurrentUserView, UserSessionError>(
            refreshed(
                r,
                spec_lookup(
                    store.snapshots,
                    spec_max_version(spec_versions(store.snapshots)),
                )->Some_0,
                spec_max_version(spec_versions(store.snapshots)),
            ),
        ),
{
    crate::codec::lemma_seal_unseal_round_trip(secret, r);
}

/// Lineage check: once the sentinel's start time differs from the cookie's,
/// the cookie is compromised — even with a valid signature and a matching
/// fingerprint.
pub proof fn lemma_lineage_invalidated(
    secret: Seq<u8>,
    r: CurrentUserView,
    store: SessionStoreEntryView,
    sentinel: SessionSentinelView,
)
    requires
        encodable(r),
        store.sentinel == Some(sentinel),
        r.session_start != sentinel.start_date,
    ensures
        checked_verdict(secret, Some(sealed_value(secret, r)), r.fingerprint, store) matches Err(e)
            && (e is SessionCompromised || e is SessionExpired),
        spec_versions(store.snapshots).len() > 0 && spec_lookup(
            store.snapshots,
            spec_max_version(spec_versions(store.snapshots)),
        ) is Some ==> checked_verdict(secret, Some(sealed_value(secret, r)), r.fingerprint, store)
            == Err::<CurrentUserView, UserSessionError>(UserSessionError::SessionCompromised),
{
    crate::codec::lemma_seal_unseal_round_trip(secret, r);
}

/// Expiry: with the sentinel gone from the store, any cookie for the
/// session — even one that was previously valid — yields `SessionExpired`.
pub proof fn lemma_expired_without_sentinel(
    secret: Seq<u8>,
    r: CurrentUserView,
    store: SessionStoreEntryView,
)
    requires
        encodable(r),
        store.sentinel is None,
    ensures
        refresh_verdict(r, store) == Err::<CurrentUserView, UserSessionError>(
            UserSessionError::SessionExpired,
        ),
        checked_verdict(secret, Some(sealed_value(secret, r)), r.fingerprint, store) == Err::<
            CurrentUserView,
            UserSessionError,
        >(UserSessionError::SessionExpired),
{
    crate::codec::lemma_seal_unseal_round_trip(secret, r);
}

} // verus!
