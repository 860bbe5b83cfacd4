//! End-to-end tests of the session trust engine: the signed codec, the
//! fingerprint binding, and the store-backed revalidation protocol.

use base64::Engine;

use shine_service::error::UserSessionError;
use shine_service::fingerprint::ClientFingerprint;
use shine_service::record::CurrentUser;
use shine_service::session::{CookieExpiration, SessionMeta};
use shine_service::session_key::SessionKey;
use shine_service::store::{SessionData, SessionSentinel, SessionStoreEntry};
use shine_service::validator::UserSessionValidator;

const START: u64 = 1_700_000_000;

fn std_b64_secret() -> String {
    base64::engine::general_purpose::STANDARD.encode(vec![7u8; 64])
}

fn url_b64_secret() -> String {
    base64::engine::general_purpose::URL_SAFE_NO_PAD.encode(vec![9u8; 64])
}

fn agent_fingerprint(agent: &str) -> ClientFingerprint {
    ClientFingerprint::from_agent(agent.to_string())
}

fn sample_record(fingerprint: &ClientFingerprint, version: u32) -> CurrentUser {
    CurrentUser {
        user_id: 0x1234_5678_9abc_def0_1122_3344_5566_7788u128,
        key: SessionKey::new(vec![1, 2, 3, 4, 5, 6, 7, 8]),
        session_start: START,
        name: "stale-name".to_string(),
        roles: vec!["user".to_string()],
        fingerprint: fingerprint.to_string(),
        version,
    }
}

fn sample_store(start: u64, fingerprint: &ClientFingerprint) -> SessionStoreEntry {
    SessionStoreEntry {
        sentinel: Some(SessionSentinel {
            start_date: start,
            fingerprint: fingerprint.to_string(),
        }),
        snapshots: vec![
            (
                1,
                SessionData {
                    name: "Alice-v1".to_string(),
                    is_email_confirmed: false,
                    roles: vec![],
                },
            ),
            (
                2,
                SessionData {
                    name: "Alice-v2".to_string(),
                    is_email_confirmed: true,
                    roles: vec!["user".to_string()],
                },
            ),
            (
                3,
                SessionData {
                    name: "Alice".to_string(),
                    is_email_confirmed: true,
                    roles: vec!["user".to_string()],
                },
            ),
        ],
    }
}

fn validator() -> UserSessionValidator {
    UserSessionValidator::new(None, &url_b64_secret(), "test:").expect("valid secret")
}

#[test]
fn cookie_round_trip() {
    let meta = SessionMeta::new(&std_b64_secret()).expect("valid secret");
    let fp = agent_fingerprint("Mozilla/5.0");
    let record = sample_record(&fp, 3);
    let cookie = meta.encode(&record);
    let decoded = meta.decode(&cookie.value).expect("round trip");
    assert_eq!(decoded.user_id, record.user_id);
    assert_eq!(decoded.key.as_bytes(), record.key.as_bytes());
    assert_eq!(decoded.session_start, record.session_start);
    assert_eq!(decoded.name, record.name);
    assert_eq!(decoded.roles, record.roles);
    assert_eq!(decoded.fingerprint, record.fingerprint);
    assert_eq!(decoded.version, record.version);
}

#[test]
fn cookie_round_trip_empty_fields() {
    let meta = SessionMeta::new(&std_b64_secret()).expect("valid secret");
    let record = CurrentUser {
        user_id: 0,
        key: SessionKey::new(vec![]),
        session_start: 0,
        name: String::new(),
        roles: vec![],
        fingerprint: String::new(),
        version: 0,
    };
    let cookie = meta.encode(&record);
    let decoded = meta.decode(&cookie.value).expect("round trip");
    assert_eq!(decoded.user_id, 0);
    assert_eq!(decoded.key.as_bytes(), &[] as &[u8]);
    assert_eq!(decoded.name, "");
    assert!(decoded.roles.is_empty());
    assert_eq!(decoded.version, 0);
}

#[test]
fn cookie_round_trip_non_ascii() {
    let meta = SessionMeta::new(&std_b64_secret()).expect("valid secret");
    let fp = agent_fingerprint("agent");
    let mut record = sample_record(&fp, 1);
    record.name = "Ałice 憂".to_string();
    record.roles = vec!["rôle".to_string(), "δ".to_string()];
    let cookie = meta.encode(&record);
    let decoded = meta.decode(&cookie.value).expect("round trip");
    assert_eq!(decoded.name, "Ałice 憂");
    assert_eq!(decoded.roles, vec!["rôle".to_string(), "δ".to_string()]);
}

#[test]
fn tampered_signature_fails_for_every_byte() {
    let meta = SessionMeta::new(&std_b64_secret()).expect("valid secret");
    let fp = agent_fingerprint("Mozilla/5.0");
    let record = sample_record(&fp, 3);
    let cookie = meta.encode(&record);
    let sig_start = cookie.value.len() - 32;
    for i in sig_start..cookie.value.len() {
        let mut tampered = cookie.value.clone();
        tampered[i] ^= 0x01;
        let r = meta.decode(&tampered);
        assert!(
            matches!(r, Err(UserSessionError::Unauthenticated)),
            "flip at {i} must fail"
        );
    }
}

#[test]
fn tampered_payload_fails() {
    let meta = SessionMeta::new(&std_b64_secret()).expect("valid secret");
    let fp = agent_fingerprint("Mozilla/5.0");
    let record = sample_record(&fp, 3);
    let cookie = meta.encode(&record);
    // flip a byte of the version field, leaving the signature untouched
    let mut tampered = cookie.value.clone();
    tampered[24] ^= 0x01;
    assert!(matches!(
        meta.decode(&tampered),
        Err(UserSessionError::Unauthenticated)
    ));
}

#[test]
fn decode_under_wrong_key_fails() {
    let meta = SessionMeta::new(&std_b64_secret()).expect("valid secret");
    let other = SessionMeta::new(&base64::engine::general_purpose::STANDARD.encode(vec![8u8; 64]))
        .expect("valid secret");
    let fp = agent_fingerprint("Mozilla/5.0");
    let cookie = meta.encode(&sample_record(&fp, 3));
    assert!(matches!(
        other.decode(&cookie.value),
        Err(UserSessionError::Unauthenticated)
    ));
}

#[test]
fn cookie_attributes_are_fixed_policy() {
    let meta = SessionMeta::new(&std_b64_secret())
        .expect("valid secret")
        .with_cookie_name("sid-test")
        .with_domain("example.com");
    let fp = agent_fingerprint("agent");
    let cookie = meta.encode(&sample_record(&fp, 1));
    assert_eq!(cookie.name, "sid-test");
    assert!(cookie.secure);
    assert!(cookie.http_only);
    assert!(cookie.same_site_lax);
    assert_eq!(cookie.path, "/");
    assert_eq!(cookie.domain.as_deref(), Some("example.com"));
    assert!(matches!(cookie.expiration, CookieExpiration::SessionScoped));
}

#[test]
fn try_encode_seals_ordinary_records() {
    let meta = SessionMeta::new(&std_b64_secret()).expect("valid secret");
    let fp = agent_fingerprint("agent");
    let record = sample_record(&fp, 1);
    let sealed = meta.encode(&record);
    let tried = meta.try_encode(&record).expect("any real record fits");
    assert_eq!(sealed.value, tried.value);
    assert_eq!(sealed.name, tried.name);
}

#[test]
fn clear_cookie_expires_in_the_past() {
    let meta = SessionMeta::new(&std_b64_secret()).expect("valid secret");
    let cookie = meta.clear();
    assert!(cookie.value.is_empty());
    assert_eq!(cookie.name, "sid");
    assert!(matches!(cookie.expiration, CookieExpiration::Past));
}

#[test]
fn invalid_secret_is_fatal() {
    assert!(matches!(
        SessionMeta::new("!!! not base64 !!!"),
        Err(shine_service::error::SessionError::InvalidSecret(_))
    ));
    // undersized key material
    let short = base64::engine::general_purpose::STANDARD.encode(vec![7u8; 32]);
    assert!(matches!(
        SessionMeta::new(&short),
        Err(shine_service::error::SessionError::InvalidSecret(_))
    ));
    assert!(matches!(
        UserSessionValidator::new(None, "not*base64url", "p:"),
        Err(UserSessionError::InvalidSecret(_))
    ));
    let short_url = base64::engine::general_purpose::URL_SAFE_NO_PAD.encode(vec![7u8; 63]);
    assert!(matches!(
        UserSessionValidator::new(None, &short_url, "p:"),
        Err(UserSessionError::InvalidSecret(_))
    ));
}

#[test]
fn validator_cookie_name_takes_suffix() {
    let v = UserSessionValidator::new(Some("-dev"), &url_b64_secret(), "p:").expect("secret");
    assert_eq!(v.cookie_name(), "sid-dev");
    let v2 = UserSessionValidator::new(None, &url_b64_secret(), "p:").expect("secret");
    assert_eq!(v2.cookie_name(), "sid");
}

#[test]
fn missing_cookie_is_unauthenticated() {
    let v = validator();
    let fp = agent_fingerprint("agent");
    assert!(matches!(
        v.extract_unchecked(None, &fp),
        Err(UserSessionError::Unauthenticated)
    ));
}

#[test]
fn garbage_cookie_is_unauthenticated() {
    let v = validator();
    let fp = agent_fingerprint("agent");
    let garbage = vec![0u8; 10];
    assert!(matches!(
        v.extract_unchecked(Some(&garbage), &fp),
        Err(UserSessionError::Unauthenticated)
    ));
}

#[test]
fn fingerprint_binding_rejects_other_client() {
    let v = validator();
    let issued_under = agent_fingerprint("Mozilla/5.0 (X11; Linux)");
    let record = sample_record(&issued_under, 3);
    let cookie_value = v.seal_cookie_value(&record);
    let other_client = agent_fingerprint("curl/8.0");
    assert!(matches!(
        v.extract_unchecked(Some(&cookie_value), &other_client),
        Err(UserSessionError::SessionCompromised)
    ));
    // and never valid through the checked path, whatever the store holds
    let store = sample_store(START, &issued_under);
    assert!(matches!(
        v.extract_checked(Some(&cookie_value), &other_client, &store),
        Err(UserSessionError::SessionCompromised)
    ));
}

#[test]
fn version_ahead_of_store_is_compromised() {
    let v = validator();
    let fp = agent_fingerprint("Mozilla/5.0");
    let record = sample_record(&fp, 4);
    let cookie_value = v.seal_cookie_value(&record);
    let store = sample_store(START, &fp);
    assert!(matches!(
        v.extract_checked(Some(&cookie_value), &fp, &store),
        Err(UserSessionError::SessionCompromised)
    ));
}

#[test]
fn stale_version_is_refreshed_to_newest() {
    let v = validator();
    let fp = agent_fingerprint("Mozilla/5.0");
    let record = sample_record(&fp, 1);
    let cookie_value = v.seal_cookie_value(&record);
    let store = sample_store(START, &fp);
    let user = v
        .extract_checked(Some(&cookie_value), &fp, &store)
        .expect("valid")
        .into_user();
    assert_eq!(user.version, 3);
    assert_eq!(user.name, "Alice");
    assert_eq!(user.roles, vec!["user".to_string()]);
    // the immutable fields stay as carried
    assert_eq!(user.session_start, START);
    assert_eq!(user.fingerprint, fp.to_string());
}

#[test]
fn changed_lineage_is_compromised() {
    let v = validator();
    let fp = agent_fingerprint("Mozilla/5.0");
    let record = sample_record(&fp, 3);
    let cookie_value = v.seal_cookie_value(&record);
    // the sentinel was replaced: same fingerprint, later start time
    let store = sample_store(START + 50, &fp);
    assert!(matches!(
        v.extract_checked(Some(&cookie_value), &fp, &store),
        Err(UserSessionError::SessionCompromised)
    ));
}

#[test]
fn happy_path_returns_refreshed_identity() {
    let v = validator();
    let fp = agent_fingerprint("Mozilla/5.0 (X11; Linux)");
    let record = sample_record(&fp, 3);
    let cookie_value = v.seal_cookie_value(&record);
    let store = sample_store(START, &fp);
    let user = v
        .extract_checked(Some(&cookie_value), &fp, &store)
        .expect("valid")
        .into_user();
    assert_eq!(user.name, "Alice");
    assert_eq!(user.roles, vec!["user".to_string()]);
    assert_eq!(user.version, 3);
}

#[test]
fn replay_after_logout_is_expired() {
    let v = validator();
    let fp = agent_fingerprint("Mozilla/5.0 (X11; Linux)");
    let record = sample_record(&fp, 3);
    let cookie_value = v.seal_cookie_value(&record);
    let mut store = sample_store(START, &fp);
    store.sentinel = None;
    assert!(matches!(
        v.extract_checked(Some(&cookie_value), &fp, &store),
        Err(UserSessionError::SessionExpired)
    ));
}

#[test]
fn stolen_cookie_with_other_agent_is_compromised() {
    let v = validator();
    let issued_under = agent_fingerprint("Mozilla/5.0 (X11; Linux)");
    let record = sample_record(&issued_under, 3);
    let cookie_value = v.seal_cookie_value(&record);
    let thief = agent_fingerprint("Mozilla/5.0 (Windows NT 10.0)");
    // compromised regardless of store state: sentinel present...
    let store = sample_store(START, &issued_under);
    assert!(matches!(
        v.extract_checked(Some(&cookie_value), &thief, &store),
        Err(UserSessionError::SessionCompromised)
    ));
    // ...or deleted
    let mut gone = sample_store(START, &issued_under);
    gone.sentinel = None;
    assert!(matches!(
        v.extract_checked(Some(&cookie_value), &thief, &gone),
        Err(UserSessionError::SessionCompromised)
    ));
}

#[test]
fn no_versions_is_expired() {
    let v = validator();
    let fp = agent_fingerprint("agent");
    let record = sample_record(&fp, 1);
    let cookie_value = v.seal_cookie_value(&record);
    let store = SessionStoreEntry {
        sentinel: Some(SessionSentinel {
            start_date: START,
            fingerprint: fp.to_string(),
        }),
        snapshots: vec![],
    };
    assert!(matches!(
        v.extract_checked(Some(&cookie_value), &fp, &store),
        Err(UserSessionError::SessionExpired)
    ));
}

#[test]
fn snapshot_deleted_in_flight_is_expired() {
    let fp = agent_fingerprint("agent");
    let mut user = sample_record(&fp, 1);
    let sentinel = SessionSentinel {
        start_date: START,
        fingerprint: fp.to_string(),
    };
    let r = UserSessionValidator::apply_snapshot(&mut user, &sentinel, 3, None);
    assert!(matches!(r, Err(UserSessionError::SessionExpired)));
    // the record is left untouched
    assert_eq!(user.version, 1);
    assert_eq!(user.name, "stale-name");
}

#[test]
fn select_version_picks_the_newest() {
    let fp = agent_fingerprint("agent");
    let sentinel = Some(SessionSentinel {
        start_date: START,
        fingerprint: fp.to_string(),
    });
    let r = UserSessionValidator::select_version(&sentinel, &vec![2, 7, 3]);
    assert_eq!(r.unwrap(), 7);
    assert!(matches!(
        UserSessionValidator::select_version(&sentinel, &vec![]),
        Err(UserSessionError::SessionExpired)
    ));
    assert!(matches!(
        UserSessionValidator::select_version(&None, &vec![1, 2]),
        Err(UserSessionError::SessionExpired)
    ));
}

#[test]
fn unchecked_extraction_trusts_stale_attributes() {
    let v = validator();
    let fp = agent_fingerprint("agent");
    let record = sample_record(&fp, 2);
    let cookie_value = v.seal_cookie_value(&record);
    let user = v
        .extract_unchecked(Some(&cookie_value), &fp)
        .expect("fingerprint matches")
        .into_user();
    // attributes come from the cookie, not the store
    assert_eq!(user.name, "stale-name");
    assert_eq!(user.version, 2);
}

#[test]
fn store_keys_hash_the_session_key() {
    let v = UserSessionValidator::new(None, &url_b64_secret(), "prefix:").expect("secret");
    let fp = agent_fingerprint("agent");
    let record = sample_record(&fp, 1);
    let (sentinel_key, data_key) = v.session_store_keys(&record);
    let uid_hex = hex::encode(record.user_id.to_be_bytes());
    let key_hash = hex::encode(ring::digest::digest(
        &ring::digest::SHA256,
        record.key.as_bytes(),
    ));
    let expected = format!("prefix:session:{uid_hex}:{key_hash}");
    assert_eq!(sentinel_key, format!("{expected}:sentinel"));
    assert_eq!(data_key, format!("{expected}:data"));
    // the hex of the big-endian bytes is exactly the uuid's simple form
    assert_eq!(
        uid_hex,
        uuid::Uuid::from_u128(record.user_id).as_simple().to_string()
    );
}

#[test]
fn sealed_value_carries_a_real_hmac_tag() {
    let v = validator();
    let fp = agent_fingerprint("agent");
    let record = sample_record(&fp, 2);
    let value = v.seal_cookie_value(&record);
    let payload = &value[..value.len() - 32];
    let key = ring::hmac::Key::new(ring::hmac::HMAC_SHA256, &vec![9u8; 64]);
    let expected_tag = ring::hmac::sign(&key, payload);
    assert_eq!(&value[value.len() - 32..], expected_tag.as_ref());
}

#[test]
fn fingerprint_is_a_digest_of_the_agent() {
    let a = agent_fingerprint("Mozilla/5.0");
    let b = agent_fingerprint("Mozilla/5.0");
    let c = agent_fingerprint("curl/8.0");
    assert_eq!(a.as_str(), b.as_str());
    assert_ne!(a.as_str(), c.as_str());
    // not the agent string itself: a fixed-length base64url digest
    assert_ne!(a.as_str(), "Mozilla/5.0");
    assert_eq!(a.as_str().len(), 43);
    let expected = base64::engine::general_purpose::URL_SAFE_NO_PAD
        .encode(ring::digest::digest(&ring::digest::SHA256, b"Mozilla/5.0"));
    assert_eq!(a.as_str(), expected);
    // empty agents are fingerprint-equal to each other, by design
    assert_eq!(
        agent_fingerprint("").into_string(),
        agent_fingerprint("").to_string()
    );
}

#[test]
fn sealed_values_survive_a_suffix_check() {
    // the payload is self-delimiting: parsing stops at the record's end
    let fp = agent_fingerprint("agent");
    let record = sample_record(&fp, 5);
    let bytes = shine_service::codec::record_to_bytes(&record);
    let mut with_suffix = bytes.clone();
    with_suffix.extend_from_slice(&[0xAA, 0xBB, 0xCC]);
    let (parsed, consumed) =
        shine_service::codec::record_from_bytes_prefix(&with_suffix).expect("parses");
    assert_eq!(consumed, bytes.len());
    assert_eq!(parsed.version, 5);
    assert_eq!(parsed.name, record.name);
}

#[test]
fn truncated_record_fails_to_parse() {
    let fp = agent_fingerprint("agent");
    let record = sample_record(&fp, 5);
    let bytes = shine_service::codec::record_to_bytes(&record);
    for cut in [0, 1, 8, 16, 24, bytes.len() - 1] {
        assert!(shine_service::codec::record_from_bytes_prefix(&bytes[..cut]).is_none());
    }
}
