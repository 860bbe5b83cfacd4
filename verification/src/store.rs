//! Model of the revalidation store's per-session contents, and the layout of
//! its keys.
//!
//! The store holds two entries per session: a *sentinel*, the sole source of
//! truth for "is this session still alive", carrying the lineage's start
//! time and the fingerprint it was issued under; and a map from version
//! numbers to attribute *snapshots*. This engine only reads them; fetching
//! is I/O and lives with the caller, which hands the fetched contents in as
//! a [`SessionStoreEntry`].

use vstd::prelude::*;
use vstd::bytes::{spec_u128_to_le_bytes, u128_to_le_bytes, lemma_auto_spec_u128_to_from_le_bytes};
use vstd::string::StringExecFns;

use crate::crypto::{hex_encode, hex_of, sha256, sha256_of, MAX_HASH_INPUT_LEN};
use crate::session_key::SessionKey;

verus! {

/// Mathematical content of a [`SessionSentinel`].
pub struct SessionSentinelView {
    pub start_date: u64,
    pub fingerprint: Seq<char>,
}

/// The liveness marker of a session lineage. Its absence from the store
/// means the session is expired or revoked, regardless of cookie content.
#[derive(Debug)]
pub struct SessionSentinel {
    /// When the lineage was created, in seconds since the Unix epoch.
    pub start_date: u64,
    /// The fingerprint the session was issued under.
    pub fingerprint: String,
}

impl View for SessionSentinel {
    type V = SessionSentinelView;

    open spec fn view(&self) -> SessionSentinelView {
        SessionSentinelView { start_date: self.start_date, fingerprint: self.fingerprint@ }
    }
}

/// Mathematical content of a [`SessionData`].
pub struct SessionDataView {
    pub name: Seq<char>,
    pub is_email_confirmed: bool,
    pub roles: Seq<Seq<char>>,
}

/// One immutable, numbered snapshot of a session's mutable attributes.
#[derive(Debug)]
pub struct SessionData {
    pub name: String,
    pub is_email_confirmed: bool,
    pub roles: Vec<String>,
}

impl View for SessionData {
    type V = SessionDataView;

    open spec fn view(&self) -> SessionDataView {
        SessionDataView {
            name: self.name@,
            is_email_confirmed: self.is_email_confirmed,
            roles: self.roles.deep_view(),
        }
    }
}

/// Mathematical content of a [`SessionStoreEntry`].
pub struct SessionStoreEntryView {
    pub sentinel: Option<SessionSentinelView>,
    pub snapshots: Seq<(u32, SessionDataView)>,
}

/// Everything the store holds for one session key: the sentinel, if any,
/// and the available attribute snapshots keyed by version.
#[derive(Debug)]
pub struct SessionStoreEntry {
    pub sentinel: Option<SessionSentinel>,
    pub snapshots: Vec<(u32, SessionData)>,
}

impl View for SessionStoreEntry {
    type V = SessionStoreEntryView;

    open spec fn view(&self) -> SessionStoreEntryView {
        SessionStoreEntryView {
            sentinel: match self.sentinel {
                Some(s) => Some(s@),
                None => None,
            },
            snapshots: Seq::new(
                self.snapshots@.len(),
                |i: int| (self.snapshots@[i].0, self.snapshots@[i].1@),
            ),
        }
    }
}

/// The version numbers present in a snapshot table.
pub open spec fn spec_versions(snapshots: Seq<(u32, SessionDataView)>) -> Seq<u32> {
    snapshots.map_values(|p: (u32, SessionDataView)| p.0)
}

/// The greatest element of a non-empty version list.
pub open spec fn spec_max_version(versions: Seq<u32>) -> u32
    recommends
        versions.len() > 0,
    decreases versions.len(),
{
    if versions.len() <= 1 {
        versions[0]
    } else {
        let m = spec_max_version(versions.drop_last());
        if versions.last() > m {
            versions.last()
        } else {
            m
        }
    }
}

/// The first snapshot stored under `version`, if any.
pub open spec fn spec_lookup(
    snapshots: Seq<(u32, SessionDataView)>,
    version: u32,
) -> Option<SessionDataView>
    decreases snapshots.len(),
{
    if snapshots.len() == 0 {
        None
    } else if snapshots[0].0 == version {
        Some(snapshots[0].1)
    } else {
        spec_lookup(snapshots.drop_first(), version)
    }
}

impl SessionStoreEntry {
    /// The version numbers with snapshot data, in table order.
    pub fn versions(&self) -> (r: Vec<u32>)
        ensures
            r@ == spec_versions(self@.snapshots),
    {
        let mut out: Vec<u32> = Vec::new();
        let n = self.snapshots.len();
        for i in 0..n
            invariant
                n == self.snapshots.len(),
                out@.len() == i,
                forall|j: int| 0 <= j < i ==> out@[j] == self@.snapshots[j].0,
        {
            out.push(self.snapshots[i].0);
        }
        proof {
            assert(out@ =~= spec_versions(self@.snapshots));
        }
        out
    }

    /// The snapshot stored under `version`, if any.
    pub fn get(&self, version: u32) -> (r: Option<&SessionData>)
        ensures
            match r {
                Some(d) => spec_lookup(self@.snapshots, version) == Some(d@),
                None => spec_lookup(self@.snapshots, version) is None,
            },
    {
        let n = self.snapshots.len();
        proof {
            assert(self@.snapshots.skip(0) =~= self@.snapshots);
        }
        for i in 0..n
            invariant
                n == self.snapshots.len(),
                spec_lookup(self@.snapshots, version) == spec_lookup(
                    self@.snapshots.skip(i as int),
                    version,
                ),
                forall|j: int| 0 <= j < i ==> self@.snapshots[j].0 != version,
        {
            if self.snapshots[i].0 == version {
                proof {
                    assert(self@.snapshots.skip(i as int)[0] == self@.snapshots[i as int]);
                }
                return Some(&self.snapshots[i].1);
            }
            proof {
                lemma_lookup_skip(self@.snapshots, version, i as int);
            }
        }
        proof {
            assert(self@.snapshots.skip(n as int).len() == 0);
        }
        None
    }
}

/// Skipping past a non-matching head leaves the lookup unchanged.
proof fn lemma_lookup_skip(snapshots: Seq<(u32, SessionDataView)>, version: u32, i: int)
    requires
        0 <= i < snapshots.len(),
        snapshots[i].0 != version,
    ensures
        spec_lookup(snapshots.skip(i), version) == spec_lookup(snapshots.skip(i + 1), version),
{
    assert(snapshots.skip(i).drop_first() =~= snapshots.skip(i + 1));
    assert(snapshots.skip(i)[0] == snapshots[i]);
}

/// The greatest element of a non-empty version list, or nothing.
pub fn max_version(versions: &Vec<u32>) -> (r: Option<u32>)
    ensures
        match r {
            Some(m) => versions@.len() > 0 && m == spec_max_version(versions@),
            None => versions@.len() == 0,
        },
{
    if versions.len() == 0 {
        return None;
    }
    let mut m = versions[0];
    let n = versions.len();
    for i in 1..n
        invariant
            n == versions@.len(),
            0 < i <= n,
            m == spec_max_version(versions@.take(i as int)),
    {
        proof {
            assert(versions@.take(i + 1).drop_last() =~= versions@.take(i as int));
            assert(versions@.take(i + 1).last() == versions@[i as int]);
        }
        if versions[i] > m {
            m = versions[i];
        }
    }
    proof {
        assert(versions@.take(n as int) =~= versions@);
    }
    Some(m)
}

/// The big-endian byte rendering of a 128-bit user id, as a UUID writes it.
pub open spec fn spec_u128_to_be_bytes(x: u128) -> Seq<u8> {
    spec_u128_to_le_bytes(x).reverse()
}

/// The shared prefix of the two store keys of one session:
/// `<prefix>session:<user id as 32 hex digits>:<hex of SHA-256(session key)>:`.
pub open spec fn spec_store_key_prefix(prefix: Seq<char>, user_id: u128, key: Seq<u8>) -> Seq<char> {
    prefix + "session:"@ + hex_of(spec_u128_to_be_bytes(user_id)) + ":"@ + hex_of(sha256_of(key))
        + ":"@
}

/// The store key of the session's sentinel.
pub open spec fn spec_sentinel_key(prefix: Seq<char>, user_id: u128, key: Seq<u8>) -> Seq<char> {
    spec_store_key_prefix(prefix, user_id, key) + "sentinel"@
}

/// The store key of the session's snapshot table.
pub open spec fn spec_data_key(prefix: Seq<char>, user_id: u128, key: Seq<u8>) -> Seq<char> {
    spec_store_key_prefix(prefix, user_id, key) + "data"@
}

/// Big-endian bytes of a 128-bit id.
fn u128_to_be_bytes(x: u128) -> (r: Vec<u8>)
    ensures
        r@ == spec_u128_to_be_bytes(x),
        r@.len() == 16,
{
    proof {
        lemma_auto_spec_u128_to_from_le_bytes();
    }
    let le = u128_to_le_bytes(x);
    let mut out: Vec<u8> = Vec::new();
    for i in 0..16
        invariant
            le@ == spec_u128_to_le_bytes(x),
            le@.len() == 16,
            out@.len() == i,
            forall|j: int| 0 <= j < i ==> out@[j] == le@[15 - j],
    {
        out.push(le[15 - i]);
    }
    proof {
        assert(out@ =~= spec_u128_to_le_bytes(x).reverse());
    }
    out
}

/// Compute the two namespaced store keys for a session: the session key is
/// hashed, never stored raw as a lookup key. Returns `(sentinel key, data
/// key)`.
pub fn store_keys(key_prefix: &str, user_id: u128, key: &SessionKey) -> (r: (String, String))
    requires
        key@.len() < MAX_HASH_INPUT_LEN,
    ensures
        r.0@ == spec_sentinel_key(key_prefix@, user_id, key@),
        r.1@ == spec_data_key(key_prefix@, user_id, key@),
{
    let uid_bytes = u128_to_be_bytes(user_id);
    let uid_hex = hex_encode(uid_bytes.as_slice());
    let key_hash = sha256(key.as_bytes());
    let key_hex = hex_encode(key_hash.as_slice());

    let mut shared = String::new();
    shared.append(key_prefix);
    shared.append("session:");
    shared.append(uid_hex.as_str());
    shared.append(":");
    shared.append(key_hex.as_str());
    shared.append(":");

    let mut sentinel_key = shared.clone();
    sentinel_key.append("sentinel");
    let mut data_key = shared;
    data_key.append("data");

    proof {
        assert(sentinel_key@ =~= spec_sentinel_key(key_prefix@, user_id, key@));
        assert(data_key@ =~= spec_data_key(key_prefix@, user_id, key@));
    }
    (sentinel_key, data_key)
}

} // verus!
