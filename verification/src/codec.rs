//! Wire format of the identity record.
//!
//! A record is serialized into a compact, self-delimiting byte layout:
//! fixed-width little-endian integers and length-prefixed UTF-8 strings, in
//! a fixed field order. The layout is defined here twice — once as spec
//! functions (`ser_record`, `parse_record_at`) that the contracts speak of,
//! and once as executable code proved against them — and round-trip
//! fidelity is proved, not assumed.

use vstd::prelude::*;
use vstd::bytes::{
    spec_u32_to_le_bytes, spec_u32_from_le_bytes, spec_u64_to_le_bytes, spec_u64_from_le_bytes,
    spec_u128_to_le_bytes, spec_u128_from_le_bytes, lemma_auto_spec_u32_to_from_le_bytes,
    lemma_auto_spec_u64_to_from_le_bytes, lemma_auto_spec_u128_to_from_le_bytes, u32_to_le_bytes,
    u64_to_le_bytes, u128_to_le_bytes, u32_from_le_bytes, u64_from_le_bytes, u128_from_le_bytes,
};
use vstd::slice::{slice_index_get, slice_subrange, slice_to_vec};
use vstd::string::StringSliceAdditionalSpecFns;
use vstd::utf8::{
    encode_utf8, decode_utf8, valid_utf8, encode_utf8_valid_utf8, encode_utf8_decode_utf8,
};

use crate::crypto::{hmac_sha256, hmac_sha256_of, string_from_utf8, MAX_HASH_INPUT_LEN};
use crate::record::{CurrentUser, CurrentUserView};
use crate::session_key::SessionKey;

verus! {

// ------------------------------------------------------------------
// Serialization, as mathematics.
// ------------------------------------------------------------------
pub open spec fn ser_u32(x: u32) -> Seq<u8> {
    spec_u32_to_le_bytes(x)
}

pub open spec fn ser_u64(x: u64) -> Seq<u8> {
    spec_u64_to_le_bytes(x)
}

pub open spec fn ser_u128(x: u128) -> Seq<u8> {
    spec_u128_to_le_bytes(x)
}

/// A length-prefixed byte string.
pub open spec fn ser_blob(b: Seq<u8>) -> Seq<u8> {
    ser_u64(b.len() as u64) + b
}

/// A length-prefixed UTF-8 rendering of a string.
pub open spec fn ser_string(s: Seq<char>) -> Seq<u8> {
    ser_blob(encode_utf8(s))
}

/// The role list, one length-prefixed string after the other.
pub open spec fn ser_roles(roles: Seq<Seq<char>>) -> Seq<u8>
    decreases roles.len(),
{
    if roles.len() == 0 {
        Seq::empty()
    } else {
        ser_string(roles[0]) + ser_roles(roles.drop_first())
    }
}

/// The full record payload: user id, session start, version, session key,
/// fingerprint, name, role count, roles.
pub open spec fn ser_record(r: CurrentUserView) -> Seq<u8> {
    ser_u128(r.user_id) + ser_u64(r.session_start) + ser_u32(r.version) + ser_blob(r.key)
        + ser_string(r.fingerprint) + ser_string(r.name) + ser_u64(r.roles.len() as u64)
        + ser_roles(r.roles)
}

/// A record small enough to sign: its payload stays below what the hash
/// primitives accept. Anything a machine can hold satisfies this, and it
/// keeps every length prefix within its 64 bits.
pub open spec fn encodable(r: CurrentUserView) -> bool {
    ser_record(r).len() < MAX_HASH_INPUT_LEN
}

// ------------------------------------------------------------------
// Parsing, as mathematics: each function reads one field at a byte
// offset and yields the value and the offset past it.
// ------------------------------------------------------------------
pub open spec fn take_u32_at(b: Seq<u8>, pos: int) -> Option<(u32, int)> {
    if 0 <= pos && pos + 4 <= b.len() {
        Some((spec_u32_from_le_bytes(b.subrange(pos, pos + 4)), pos + 4))
    } else {
        None
    }
}

pub open spec fn take_u64_at(b: Seq<u8>, pos: int) -> Option<(u64, int)> {
    if 0 <= pos && pos + 8 <= b.len() {
        Some((spec_u64_from_le_bytes(b.subrange(pos, pos + 8)), pos + 8))
    } else {
        None
    }
}

pub open spec fn take_u128_at(b: Seq<u8>, pos: int) -> Option<(u128, int)> {
    if 0 <= pos && pos + 16 <= b.len() {
        Some((spec_u128_from_le_bytes(b.subrange(pos, pos + 16)), pos + 16))
    } else {
        None
    }
}

pub open spec fn take_blob_at(b: Seq<u8>, pos: int) -> Option<(Seq<u8>, int)> {
    match take_u64_at(b, pos) {
        None => None,
        Some((n, p)) => if p + n <= b.len() {
            Some((b.subrange(p, p + n), p + n))
        } else {
            None
        },
    }
}

pub open spec fn take_string_at(b: Seq<u8>, pos: int) -> Option<(Seq<char>, int)> {
    match take_blob_at(b, pos) {
        None => None,
        Some((bytes, p)) => if valid_utf8(bytes) {
            Some((decode_utf8(bytes), p))
        } else {
            None
        },
    }
}

pub open spec fn take_roles_at(b: Seq<u8>, pos: int, count: nat) -> Option<(Seq<Seq<char>>, int)>
    decreases count,
{
    if count == 0 {
        Some((Seq::empty(), pos))
    } else {
        match take_string_at(b, pos) {
            None => None,
            Some((s, p)) => match take_roles_at(b, p, (count - 1) as nat) {
                None => None,
                Some((ss, q)) => Some((seq![s] + ss, q)),
            },
        }
    }
}

/// Read one whole record starting at `pos`; anything after it is left
/// untouched, so a signature may follow the payload.
pub open spec fn parse_record_at(b: Seq<u8>, pos: int) -> Option<(CurrentUserView, int)> {
    match take_u128_at(b, pos) {
        None => None,
        Some((user_id, p1)) => match take_u64_at(b, p1) {
            None => None,
            Some((session_start, p2)) => match take_u32_at(b, p2) {
                None => None,
                Some((version, p3)) => match take_blob_at(b, p3) {
                    None => None,
                    Some((key, p4)) => match take_string_at(b, p4) {
                        None => None,
                        Some((fingerprint, p5)) => match take_string_at(b, p5) {
                            None => None,
                            Some((name, p6)) => match take_u64_at(b, p6) {
                                None => None,
                                Some((count, p7)) => match take_roles_at(b, p7, count as nat) {
                                    None => None,
                                    Some((roles, p8)) => Some(
                                        (
                                            CurrentUserView {
                                                user_id,
                                                key,
                                                session_start,
                                                name,
                                                roles,
                                                fingerprint,
                                                version,
                                            },
                                            p8,
                                        ),
                                    ),
                                },
                            },
                        },
                    },
                },
            },
        },
    }
}

// ------------------------------------------------------------------
// Round-trip: parsing reads back exactly what serialization wrote,
// wherever the encoding sits and whatever follows it.
// ------------------------------------------------------------------
proof fn lemma_take_u32_at(b: Seq<u8>, pos: int, x: u32)
    requires
        0 <= pos,
        pos + 4 <= b.len(),
        b.subrange(pos, pos + 4) == ser_u32(x),
    ensures
        take_u32_at(b, pos) == Some((x, pos + 4)),
{
    lemma_auto_spec_u32_to_from_le_bytes();
    assert(spec_u32_to_le_bytes(x).len() == 4);
}

proof fn lemma_take_u64_at(b: Seq<u8>, pos: int, x: u64)
    requires
        0 <= pos,
        pos + 8 <= b.len(),
        b.subrange(pos, pos + 8) == ser_u64(x),
    ensures
        take_u64_at(b, pos) == Some((x, pos + 8)),
{
    lemma_auto_spec_u64_to_from_le_bytes();
}

proof fn lemma_take_u128_at(b: Seq<u8>, pos: int, x: u128)
    requires
        0 <= pos,
        pos + 16 <= b.len(),
        b.subrange(pos, pos + 16) == ser_u128(x),
    ensures
        take_u128_at(b, pos) == Some((x, pos + 16)),
{
    lemma_auto_spec_u128_to_from_le_bytes();
    assert(spec_u128_to_le_bytes(x).len() == 16);
}

proof fn lemma_take_blob_at(b: Seq<u8>, pos: int, s: Seq<u8>)
    requires
        s.len() <= u64::MAX,
        0 <= pos,
        pos + 8 + s.len() <= b.len(),
        b.subrange(pos, pos + 8 + s.len()) == ser_blob(s),
    ensures
        take_blob_at(b, pos) == Some((s, pos + 8 + s.len())),
{
    lemma_auto_spec_u64_to_from_le_bytes();
    let n = s.len() as u64;
    assert(b.subrange(pos, pos + 8) =~= ser_u64(n)) by {
        assert forall|k: int| 0 <= k < 8 implies b.subrange(pos, pos + 8)[k] == ser_u64(n)[k] by {
            assert(b.subrange(pos, pos + 8 + s.len())[k] == ser_blob(s)[k]);
        }
    }
    lemma_take_u64_at(b, pos, n);
    assert(b.subrange(pos + 8, pos + 8 + s.len()) =~= s) by {
        assert forall|k: int| 0 <= k < s.len() implies b.subrange(pos + 8, pos + 8 + s.len())[k]
            == s[k] by {
            assert(b.subrange(pos, pos + 8 + s.len())[8 + k] == ser_blob(s)[8 + k]);
        }
    }
}

proof fn lemma_take_string_at(b: Seq<u8>, pos: int, s: Seq<char>)
    requires
        encode_utf8(s).len() <= u64::MAX,
        0 <= pos,
        pos + 8 + encode_utf8(s).len() <= b.len(),
        b.subrange(pos, pos + 8 + encode_utf8(s).len()) == ser_string(s),
    ensures
        take_string_at(b, pos) == Some((s, pos + 8 + encode_utf8(s).len())),
{
    lemma_take_blob_at(b, pos, encode_utf8(s));
    encode_utf8_valid_utf8(s);
    encode_utf8_decode_utf8(s);
}

proof fn lemma_take_roles_at(b: Seq<u8>, pos: int, roles: Seq<Seq<char>>)
    requires
        forall|i: int| 0 <= i < roles.len() ==> encode_utf8(#[trigger] roles[i]).len() <= u64::MAX,
        0 <= pos,
        pos + ser_roles(roles).len() <= b.len(),
        b.subrange(pos, pos + ser_roles(roles).len()) == ser_roles(roles),
    ensures
        take_roles_at(b, pos, roles.len()) == Some((roles, pos + ser_roles(roles).len())),
    decreases roles.len(),
{
    lemma_auto_spec_u64_to_from_le_bytes();
    if roles.len() == 0 {
        assert(roles =~= Seq::<Seq<char>>::empty());
    } else {
        let head = roles[0];
        let tail = roles.drop_first();
        let l0 = 8 + encode_utf8(head).len();
        let l = ser_roles(roles).len();
        assert(ser_roles(roles) == ser_string(head) + ser_roles(tail));
        assert(b.subrange(pos, pos + l0) =~= ser_string(head)) by {
            assert forall|k: int| 0 <= k < l0 implies b.subrange(pos, pos + l0)[k] == ser_string(
                head,
            )[k] by {
                assert(b.subrange(pos, pos + l)[k] == ser_roles(roles)[k]);
            }
        }
        lemma_take_string_at(b, pos, head);
        assert(b.subrange(pos + l0, pos + l) =~= ser_roles(tail)) by {
            assert forall|k: int| 0 <= k < l - l0 implies b.subrange(pos + l0, pos + l)[k]
                == ser_roles(tail)[k] by {
                assert(b.subrange(pos, pos + l)[l0 + k] == ser_roles(roles)[l0 + k]);
            }
        }
        lemma_take_roles_at(b, pos + l0, tail);
        assert(seq![head] + tail =~= roles);
    }
}

/// A subrange holding a concatenation splits into subranges holding the
/// parts.
proof fn lemma_concat_split(b: Seq<u8>, pos: int, x: Seq<u8>, y: Seq<u8>)
    requires
        0 <= pos,
        pos + x.len() + y.len() <= b.len(),
        b.subrange(pos, pos + x.len() + y.len()) == x + y,
    ensures
        b.subrange(pos, pos + x.len()) == x,
        b.subrange(pos + x.len(), pos + x.len() + y.len()) == y,
{
    let l = x.len() + y.len();
    assert(b.subrange(pos, pos + x.len()) =~= x) by {
        assert forall|k: int| 0 <= k < x.len() implies b.subrange(pos, pos + x.len())[k]
            == x[k] by {
            assert(b.subrange(pos, pos + l)[k] == (x + y)[k]);
        }
    }
    assert(b.subrange(pos + x.len(), pos + l) =~= y) by {
        assert forall|k: int| 0 <= k < y.len() implies b.subrange(pos + x.len(), pos + l)[k]
            == y[k] by {
            assert(b.subrange(pos, pos + l)[x.len() + k] == (x + y)[x.len() + k]);
        }
    }
}

/// Every role's bytes sit inside the serialized role list, which spends at
/// least a length prefix on each role.
proof fn lemma_roles_bytes_bounds(roles: Seq<Seq<char>>)
    ensures
        ser_roles(roles).len() >= 8 * roles.len(),
        forall|i: int| 0 <= i < roles.len() ==> encode_utf8(#[trigger] roles[i]).len()
            <= ser_roles(roles).len(),
    decreases roles.len(),
{
    lemma_auto_spec_u64_to_from_le_bytes();
    if roles.len() > 0 {
        let tail = roles.drop_first();
        lemma_roles_bytes_bounds(tail);
        assert forall|i: int| 0 <= i < roles.len() implies encode_utf8(#[trigger] roles[i]).len()
            <= ser_roles(roles).len() by {
            if i > 0 {
                assert(roles[i] == tail[i - 1]);
                assert(encode_utf8(tail[i - 1]).len() <= ser_roles(tail).len());
            }
        }
    }
}

/// Whatever bytes surround it, a serialized record parses back to itself.
pub proof fn lemma_parse_ser_record(b: Seq<u8>, pos: int, r: CurrentUserView)
    requires
        encodable(r),
        0 <= pos,
        pos + ser_record(r).len() <= b.len(),
        b.subrange(pos, pos + ser_record(r).len()) == ser_record(r),
    ensures
        parse_record_at(b, pos) == Some((r, pos + ser_record(r).len())),
{
    let w = ser_record(r);
    let a1 = ser_u128(r.user_id);
    let a2 = ser_u64(r.session_start);
    let a3 = ser_u32(r.version);
    let a4 = ser_blob(r.key);
    let a5 = ser_string(r.fingerprint);
    let a6 = ser_string(r.name);
    let a7 = ser_u64(r.roles.len() as u64);
    let a8 = ser_roles(r.roles);
    lemma_auto_spec_u32_to_from_le_bytes();
    lemma_auto_spec_u64_to_from_le_bytes();
    lemma_auto_spec_u128_to_from_le_bytes();
    assert(spec_u128_to_le_bytes(r.user_id).len() == 16);
    assert(spec_u32_to_le_bytes(r.version).len() == 4);
    // each field's bytes are part of the payload, so the size bound keeps
    // every length prefix within its 64 bits
    lemma_roles_bytes_bounds(r.roles);
    assert(r.key.len() <= w.len());
    assert(encode_utf8(r.fingerprint).len() <= w.len());
    assert(encode_utf8(r.name).len() <= w.len());
    assert(8 * r.roles.len() <= w.len());
    let o1 = pos + a1.len();
    let o2 = o1 + a2.len();
    let o3 = o2 + a3.len();
    let o4 = o3 + a4.len();
    let o5 = o4 + a5.len();
    let o6 = o5 + a6.len();
    let o7 = o6 + a7.len();
    let o8 = o7 + a8.len();
    // Peel the concatenation from the right, one field at a time.
    lemma_concat_split(b, pos, a1 + a2 + a3 + a4 + a5 + a6 + a7, a8);
    lemma_concat_split(b, pos, a1 + a2 + a3 + a4 + a5 + a6, a7);
    lemma_concat_split(b, pos, a1 + a2 + a3 + a4 + a5, a6);
    lemma_concat_split(b, pos, a1 + a2 + a3 + a4, a5);
    lemma_concat_split(b, pos, a1 + a2 + a3, a4);
    lemma_concat_split(b, pos, a1 + a2, a3);
    lemma_concat_split(b, pos, a1, a2);
    lemma_take_u128_at(b, pos, r.user_id);
    lemma_take_u64_at(b, o1, r.session_start);
    lemma_take_u32_at(b, o2, r.version);
    lemma_take_blob_at(b, o3, r.key);
    lemma_take_string_at(b, o4, r.fingerprint);
    lemma_take_string_at(b, o5, r.name);
    lemma_take_u64_at(b, o6, r.roles.len() as u64);
    lemma_take_roles_at(b, o7, r.roles);
    assert((r.roles.len() as u64) as nat == r.roles.len());
}

/// The role list serializes one string at a time, so it can also be built
/// one string at a time.
proof fn lemma_ser_roles_snoc(roles: Seq<Seq<char>>)
    requires
        roles.len() > 0,
    ensures
        ser_roles(roles) == ser_roles(roles.drop_last()) + ser_string(roles.last()),
    decreases roles.len(),
{
    if roles.len() == 1 {
        assert(roles.drop_last() =~= Seq::<Seq<char>>::empty());
        assert(ser_roles(roles.drop_first()) =~= Seq::<u8>::empty());
        assert(ser_roles(roles) =~= ser_string(roles[0]));
        assert(Seq::<u8>::empty() + ser_string(roles.last()) =~= ser_string(roles.last()));
    } else {
        let tail = roles.drop_first();
        lemma_ser_roles_snoc(tail);
        assert(tail.drop_last() =~= roles.drop_last().drop_first());
        assert(tail.last() == roles.last());
        assert(ser_string(roles[0]) + (ser_roles(tail.drop_last()) + ser_string(tail.last()))
            =~= (ser_string(roles.drop_last()[0]) + ser_roles(roles.drop_last().drop_first()))
            + ser_string(roles.last()));
    }
}

// ------------------------------------------------------------------
// Executable serialization, proved against the spec above.
// ------------------------------------------------------------------
fn push_u32(out: &mut Vec<u8>, x: u32)
    ensures
        final(out)@ == old(out)@ + ser_u32(x),
{
    let mut b = u32_to_le_bytes(x);
    out.append(&mut b);
}

fn push_u64(out: &mut Vec<u8>, x: u64)
    ensures
        final(out)@ == old(out)@ + ser_u64(x),
{
    let mut b = u64_to_le_bytes(x);
    out.append(&mut b);
}

fn push_u128(out: &mut Vec<u8>, x: u128)
    ensures
        final(out)@ == old(out)@ + ser_u128(x),
{
    let mut b = u128_to_le_bytes(x);
    out.append(&mut b);
}

fn push_blob(out: &mut Vec<u8>, data: &[u8])
    ensures
        final(out)@ == old(out)@ + ser_blob(data@),
{
    let n = data.len();
    push_u64(out, n as u64);
    let mut v = slice_to_vec(data);
    out.append(&mut v);
    proof {
        assert((n as u64) as nat == data@.len());
        assert(old(out)@ + ser_u64(n as u64) + data@ =~= old(out)@ + ser_blob(data@));
    }
}

fn push_string(out: &mut Vec<u8>, s: &str)
    ensures
        final(out)@ == old(out)@ + ser_string(s@),
{
    push_blob(out, s.as_bytes());
}

/// Serialize a record into its payload bytes.
pub fn record_to_bytes(user: &CurrentUser) -> (out: Vec<u8>)
    ensures
        out@ == ser_record(user@),
{
    let mut out: Vec<u8> = Vec::new();
    push_u128(&mut out, user.user_id);
    push_u64(&mut out, user.session_start);
    push_u32(&mut out, user.version);
    push_blob(&mut out, user.key.as_bytes());
    push_string(&mut out, user.fingerprint.as_str());
    push_string(&mut out, user.name.as_str());
    let n = user.roles.len();
    push_u64(&mut out, n as u64);
    let ghost head = out@;
    proof {
        assert(user@.roles.take(0) =~= Seq::<Seq<char>>::empty());
        assert(head + ser_roles(user@.roles.take(0)) =~= head);
    }
    for i in 0..n
        invariant
            n == user.roles.len(),
            user@.roles.len() == n,
            out@ == head + ser_roles(user@.roles.take(i as int)),
    {
        push_string(&mut out, user.roles[i].as_str());
        proof {
            let taken = user@.roles.take(i + 1);
            lemma_ser_roles_snoc(taken);
            assert(taken.drop_last() =~= user@.roles.take(i as int));
            assert(taken.last() == user@.roles[i as int]);
            assert(user@.roles[i as int] == user.roles@[i as int]@);
            assert(head + ser_roles(user@.roles.take(i as int)) + ser_string(user.roles@[i as int]@)
                =~= head + ser_roles(taken));
        }
    }
    proof {
        assert(user@.roles.take(n as int) =~= user@.roles);
        assert(head + ser_roles(user@.roles) =~= ser_record(user@));
    }
    out
}

// ------------------------------------------------------------------
// Executable parsing, proved against the spec above.
// ------------------------------------------------------------------
fn read_u32_at(b: &[u8], pos: usize) -> (r: Option<(u32, usize)>)
    ensures
        match r {
            Some((x, p)) => take_u32_at(b@, pos as int) == Some((x, p as int)) && p <= b@.len(),
            None => take_u32_at(b@, pos as int) is None,
        },
{
    if pos <= b.len() && b.len() - pos >= 4 {
        let s = slice_subrange(b, pos, pos + 4);
        Some((u32_from_le_bytes(s), pos + 4))
    } else {
        None
    }
}

fn read_u64_at(b: &[u8], pos: usize) -> (r: Option<(u64, usize)>)
    ensures
        match r {
            Some((x, p)) => take_u64_at(b@, pos as int) == Some((x, p as int)) && p <= b@.len(),
            None => take_u64_at(b@, pos as int) is None,
        },
{
    if pos <= b.len() && b.len() - pos >= 8 {
        let s = slice_subrange(b, pos, pos + 8);
        Some((u64_from_le_bytes(s), pos + 8))
    } else {
        None
    }
}

fn read_u128_at(b: &[u8], pos: usize) -> (r: Option<(u128, usize)>)
    ensures
        match r {
            Some((x, p)) => take_u128_at(b@, pos as int) == Some((x, p as int)) && p <= b@.len(),
            None => take_u128_at(b@, pos as int) is None,
        },
{
    if pos <= b.len() && b.len() - pos >= 16 {
        let s = slice_subrange(b, pos, pos + 16);
        Some((u128_from_le_bytes(s), pos + 16))
    } else {
        None
    }
}

fn read_blob_at(b: &[u8], pos: usize) -> (r: Option<(Vec<u8>, usize)>)
    ensures
        match r {
            Some((v, p)) => take_blob_at(b@, pos as int) == Some((v@, p as int)) && p <= b@.len(),
            None => take_blob_at(b@, pos as int) is None,
        },
{
    match read_u64_at(b, pos) {
        None => None,
        Some((n, p)) => {
            if n <= (b.len() - p) as u64 {
                let n2 = n as usize;
                let s = slice_subrange(b, p, p + n2);
                Some((slice_to_vec(s), p + n2))
            } else {
                None
            }
        },
    }
}

fn read_string_at(b: &[u8], pos: usize) -> (r: Option<(String, usize)>)
    ensures
        match r {
            Some((s, p)) => take_string_at(b@, pos as int) == Some((s@, p as int)) && p
                <= b@.len(),
            None => take_string_at(b@, pos as int) is None,
        },
{
    match read_blob_at(b, pos) {
        None => None,
        Some((v, p)) => {
            match string_from_utf8(v) {
                None => None,
                Some(s) => Some((s, p)),
            }
        },
    }
}

fn read_roles_at(b: &[u8], pos: usize, count: u64) -> (r: Option<(Vec<String>, usize)>)
    requires
        pos <= b@.len(),
    ensures
        match r {
            Some((v, p)) => take_roles_at(b@, pos as int, count as nat) == Some(
                (v.deep_view(), p as int),
            ) && p <= b@.len(),
            None => take_roles_at(b@, pos as int, count as nat) is None,
        },
{
    let mut acc: Vec<String> = Vec::new();
    let mut p = pos;
    let mut i: u64 = 0;
    proof {
        assert(acc.deep_view() =~= Seq::<Seq<char>>::empty());
    }
    while i < count
        invariant
            i <= count,
            i == acc@.len(),
            take_roles_at(b@, pos as int, count as nat) == (match take_roles_at(
                b@,
                p as int,
                (count - i) as nat,
            ) {
                None => None::<(Seq<Seq<char>>, int)>,
                Some((ss, q)) => Some((acc.deep_view() + ss, q)),
            }),
            p <= b@.len(),
        decreases count - i,
    {
        match read_string_at(b, p) {
            None => {
                proof {
                    assert(take_roles_at(b@, p as int, (count - i) as nat) is None);
                }
                return None;
            },
            Some((s, p2)) => {
                let ghost acc0 = acc.deep_view();
                acc.push(s);
                proof {
                    assert(acc.deep_view() =~= acc0.push(s@));
                }
                p = p2;
                i = i + 1;
                proof {
                    assert forall|ss: Seq<Seq<char>>| true implies acc0 + (seq![s@] + ss)
                        =~= acc0.push(s@) + ss by {}
                }
            },
        }
    }
    proof {
        assert((count - i) as nat == 0);
        assert(take_roles_at(b@, p as int, (count - i) as nat) == Some(
            (Seq::<Seq<char>>::empty(), p as int),
        ));
        assert(acc.deep_view() + Seq::<Seq<char>>::empty() =~= acc.deep_view());
    }
    Some((acc, p))
}

/// Parse one record from the front of `b`; the bytes past the returned
/// offset are whatever followed the payload.
pub fn record_from_bytes_prefix(b: &[u8]) -> (r: Option<(CurrentUser, usize)>)
    ensures
        match r {
            Some((u, n)) => parse_record_at(b@, 0) == Some((u@, n as int)) && n <= b@.len(),
            None => parse_record_at(b@, 0) is None,
        },
{
    let (user_id, p1) = match read_u128_at(b, 0) {
        Some(x) => x,
        None => {
            return None;
        },
    };
    let (session_start, p2) = match read_u64_at(b, p1) {
        Some(x) => x,
        None => {
            return None;
        },
    };
    let (version, p3) = match read_u32_at(b, p2) {
        Some(x) => x,
        None => {
            return None;
        },
    };
    let (key_bytes, p4) = match read_blob_at(b, p3) {
        Some(x) => x,
        None => {
            return None;
        },
    };
    let (fingerprint, p5) = match read_string_at(b, p4) {
        Some(x) => x,
        None => {
            return None;
        },
    };
    let (name, p6) = match read_string_at(b, p5) {
        Some(x) => x,
        None => {
            return None;
        },
    };
    let (count, p7) = match read_u64_at(b, p6) {
        Some(x) => x,
        None => {
            return None;
        },
    };
    let (roles, p8) = match read_roles_at(b, p7, count) {
        Some(x) => x,
        None => {
            return None;
        },
    };
    let user = CurrentUser {
        user_id,
        key: SessionKey::new(key_bytes),
        session_start,
        name,
        roles,
        fingerprint,
        version,
    };
    Some((user, p8))
}

// ------------------------------------------------------------------
// Sealing: payload followed by an HMAC-SHA256 tag over it.
// ------------------------------------------------------------------
/// The signed cookie value of a record under a key: the payload bytes, then
/// the HMAC-SHA256 tag computed over them.
pub open spec fn sealed_value(key: Seq<u8>, r: CurrentUserView) -> Seq<u8> {
    ser_record(r) + hmac_sha256_of(key, ser_record(r))
}

/// What opening a sealed value yields: the record, provided the payload
/// parses and everything after it equals the tag recomputed over the
/// payload. Payloads too large to sign are rejected outright.
pub open spec fn unseal_spec(key: Seq<u8>, v: Seq<u8>) -> Option<CurrentUserView> {
    match parse_record_at(v, 0) {
        Some((r, n)) => if n < MAX_HASH_INPUT_LEN as int && v.skip(n) == hmac_sha256_of(
            key,
            v.take(n),
        ) {
            Some(r)
        } else {
            None
        },
        None => None,
    }
}

/// Byte-string equality.
fn bytes_eq(a: &[u8], b: &[u8]) -> (r: bool)
    ensures
        r == (a@ == b@),
{
    if a.len() != b.len() {
        return false;
    }
    let n = a.len();
    for i in 0..n
        invariant
            n == a@.len(),
            n == b@.len(),
            forall|j: int| 0 <= j < i ==> a@[j] == b@[j],
    {
        if *slice_index_get(a, i) != *slice_index_get(b, i) {
            return false;
        }
    }
    proof {
        assert(a@ =~= b@);
    }
    true
}

/// String equality, stated over the character views.
pub fn str_eq(a: &str, b: &str) -> (r: bool)
    ensures
        r == (a@ == b@),
{
    let r = bytes_eq(a.as_bytes(), b.as_bytes());
    proof {
        if a.spec_bytes() == b.spec_bytes() {
            encode_utf8_decode_utf8(a@);
            encode_utf8_decode_utf8(b@);
        }
    }
    r
}

/// Serialize and sign a record into a cookie value.
pub fn seal(key: &[u8], user: &CurrentUser) -> (out: Vec<u8>)
    requires
        key@.len() < MAX_HASH_INPUT_LEN,
        encodable(user@),
    ensures
        out@ == sealed_value(key@, user@),
{
    let mut payload = record_to_bytes(user);
    let mut sig = hmac_sha256(key, payload.as_slice());
    payload.append(&mut sig);
    payload
}

/// Verify and parse a cookie value. Yields the record exactly when the
/// signature over the payload checks out and the payload parses.
pub fn unseal(key: &[u8], value: &[u8]) -> (r: Option<CurrentUser>)
    requires
        key@.len() < MAX_HASH_INPUT_LEN,
    ensures
        match r {
            Some(u) => unseal_spec(key@, value@) == Some(u@),
            None => unseal_spec(key@, value@) is None,
        },
{
    match record_from_bytes_prefix(value) {
        None => None,
        Some((u, n)) => {
            if (n as u64) < MAX_HASH_INPUT_LEN {
                let payload = slice_subrange(value, 0, n);
                let expected = hmac_sha256(key, payload);
                let sig = slice_subrange(value, n, value.len());
                proof {
                    assert(value@.take(n as int) =~= value@.subrange(0, n as int));
                    assert(value@.skip(n as int) =~= value@.subrange(n as int, value@.len() as int));
                }
                if bytes_eq(expected.as_slice(), sig) {
                    Some(u)
                } else {
                    None
                }
            } else {
                None
            }
        },
    }
}

// ------------------------------------------------------------------
// The two laws of the sealed format.
// ------------------------------------------------------------------
/// Round trip: a sealed record opens back to itself, under the same key,
/// for every encodable record.
pub proof fn lemma_seal_unseal_round_trip(key: Seq<u8>, r: CurrentUserView)
    requires
        encodable(r),
    ensures
        unseal_spec(key, sealed_value(key, r)) == Some(r),
{
    let p = ser_record(r);
    let s = hmac_sha256_of(key, p);
    let v = p + s;
    assert(v.subrange(0, p.len() as int) =~= p);
    lemma_parse_ser_record(v, 0, r);
    assert(v.take(p.len() as int) =~= p);
    assert(v.skip(p.len() as int) =~= s);
}

/// Tamper detection: change any byte of the signature segment of a sealed
/// record and opening fails, whatever the payload.
pub proof fn lemma_tampered_signature_rejected(
    key: Seq<u8>,
    r: CurrentUserView,
    sig: Seq<u8>,
    i: int,
)
    requires
        encodable(r),
        sig.len() == hmac_sha256_of(key, ser_record(r)).len(),
        0 <= i < sig.len(),
        sig[i] != hmac_sha256_of(key, ser_record(r))[i],
    ensures
        unseal_spec(key, ser_record(r) + sig) is None,
{
    let p = ser_record(r);
    let v = p + sig;
    assert(v.subrange(0, p.len() as int) =~= p);
    lemma_parse_ser_record(v, 0, r);
    assert(v.take(p.len() as int) =~= p);
    assert(v.skip(p.len() as int) =~= sig);
    assert(v.skip(p.len() as int) != hmac_sha256_of(key, v.take(p.len() as int))) by {
        assert(hmac_sha256_of(key, v.take(p.len() as int)) == hmac_sha256_of(key, p));
        assert(sig[i] != hmac_sha256_of(key, p)[i]);
    }
}

} // verus!
