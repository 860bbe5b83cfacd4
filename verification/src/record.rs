//! The identity record: the versioned payload embedded in the session
//! cookie and mirrored server-side.
//!
//! `user_id`, `key`, `session_start` and `fingerprint` are immutable for the
//! life of the session; `name`, `roles` and `version` are refreshed from the
//! revalidation store and never trusted from the cookie alone for privileged
//! decisions.

use vstd::prelude::*;

use crate::session_key::SessionKey;

verus! {

/// The mathematical content of a [`CurrentUser`].
pub struct CurrentUserView {
    pub user_id: u128,
    pub key: Seq<u8>,
    pub session_start: u64,
    pub name: Seq<char>,
    pub roles: Seq<Seq<char>>,
    pub fingerprint: Seq<char>,
    pub version: u32,
}

/// Current user as decoded from (and re-encoded into) the session cookie.
#[derive(Clone, Debug)]
pub struct CurrentUser {
    /// Stable identifier of the user (a UUID, carried as its 128-bit value).
    pub user_id: u128,
    /// Opaque session-family identifier; lookup key into the store.
    pub key: SessionKey,
    /// When the session lineage was created, in seconds since the Unix
    /// epoch. A sentinel with a different start time means the lineage was
    /// replaced and this record is permanently invalid.
    pub session_start: u64,
    /// Display name; refreshed from the store.
    pub name: String,
    /// Authorization roles; refreshed from the store.
    pub roles: Vec<String>,
    /// Fingerprint of the client the cookie was issued to.
    pub fingerprint: String,
    /// Which attribute snapshot this record reflects; never decreases, and
    /// never legitimately ahead of the store.
    pub version: u32,
}

impl View for CurrentUser {
    type V = CurrentUserView;

    open spec fn view(&self) -> CurrentUserView {
        CurrentUserView {
            user_id: self.user_id,
            key: self.key@,
            session_start: self.session_start,
            name: self.name@,
            roles: self.roles.deep_view(),
            fingerprint: self.fingerprint@,
            version: self.version,
        }
    }
}

/// A user identity whose cookie signature and fingerprint were checked, but
/// whose session was not revalidated against the store. For call sites that
/// only need best-effort identity and accept stale attributes.
pub struct UncheckedCurrentUser(pub(crate) CurrentUser);

impl View for UncheckedCurrentUser {
    type V = CurrentUserView;

    closed spec fn view(&self) -> CurrentUserView {
        self.0@
    }
}

impl UncheckedCurrentUser {
    pub(crate) fn wrap(user: CurrentUser) -> (r: UncheckedCurrentUser)
        ensures
            r@ == user@,
    {
        UncheckedCurrentUser(user)
    }

    pub fn into_user(self) -> (r: CurrentUser)
        ensures
            r@ == self@,
    {
        self.0
    }

    pub fn user(&self) -> (r: &CurrentUser)
        ensures
            r@ == self@,
    {
        &self.0
    }
}

/// A user identity that additionally passed store revalidation: the session
/// is alive, its lineage is unchanged, and the attributes reflect the
/// newest snapshot.
pub struct CheckedCurrentUser(pub(crate) CurrentUser);

impl View for CheckedCurrentUser {
    type V = CurrentUserView;

    closed spec fn view(&self) -> CurrentUserView {
        self.0@
    }
}

impl CheckedCurrentUser {
    pub(crate) fn wrap(user: CurrentUser) -> (r: CheckedCurrentUser)
        ensures
            r@ == user@,
    {
        CheckedCurrentUser(user)
    }

    pub fn into_user(self) -> (r: CurrentUser)
        ensures
            r@ == self@,
    {
        self.0
    }

    pub fn user(&self) -> (r: &CurrentUser)
        ensures
            r@ == self@,
    {
        &self.0
    }
}

} // verus!
