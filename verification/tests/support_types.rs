//! Tests of the supporting vocabulary: HTTP observation values, database
//! column tags, configuration helpers and the error taxonomy.

use shine_service::core_config::stage_config_file;
use shine_service::db::{BinaryBlob, DBKind, EntityId, Now, RawSql};
use shine_service::error::UserSessionError;
use shine_service::openapi::ApiMethod;
use shine_service::otel_http::{
    http_flavor, http_host, http_method, update_span_from_error, update_span_from_response,
    update_span_from_response_or_error, url_scheme, user_agent, ErrorInfo, HttpMethod,
    HttpRequest, HttpResponseInfo, HttpVersion, RequestUri, SpanRecord,
};
use shine_service::postgres::PGStatementId;
use shine_service::store::{max_version, SessionStoreEntry};

fn sample_request() -> HttpRequest {
    HttpRequest {
        method: HttpMethod::Get,
        version: HttpVersion::Http11,
        uri: RequestUri {
            scheme: Some("https".to_string()),
            host: Some("uri-host".to_string()),
            path: "/a/b".to_string(),
            query: Some("q=1".to_string()),
        },
        agent: Some("Mozilla/5.0".to_string()),
        host_header: Some("header-host".to_string()),
    }
}

#[test]
fn http_method_names() {
    assert_eq!(http_method(&HttpMethod::Get), "GET");
    assert_eq!(http_method(&HttpMethod::Put), "PUT");
    assert_eq!(http_method(&HttpMethod::Connect), "CONNECT");
    assert_eq!(
        http_method(&HttpMethod::Other("PROPFIND".to_string())),
        "PROPFIND"
    );
}

#[test]
fn http_flavor_names() {
    assert_eq!(http_flavor(HttpVersion::Http09), "0.9");
    assert_eq!(http_flavor(HttpVersion::Http11), "1.1");
    assert_eq!(http_flavor(HttpVersion::Http3), "3.0");
}

#[test]
fn request_accessors_fall_back_to_empty() {
    let req = sample_request();
    assert_eq!(url_scheme(&req.uri), "https");
    assert_eq!(user_agent(&req), "Mozilla/5.0");
    assert_eq!(http_host(&req), "header-host");

    let mut bare = sample_request();
    bare.uri.scheme = None;
    bare.agent = None;
    bare.host_header = None;
    assert_eq!(url_scheme(&bare.uri), "");
    assert_eq!(user_agent(&bare), "");
    assert_eq!(http_host(&bare), "uri-host");
    bare.uri.host = None;
    assert_eq!(http_host(&bare), "");
}

#[test]
fn span_records_status_and_errors() {
    let mut span = SpanRecord::new();
    update_span_from_response(&mut span, &HttpResponseInfo { status: 200 });
    assert_eq!(span.status_code, Some(200));
    assert!(!span.status_is_error);

    update_span_from_response(&mut span, &HttpResponseInfo { status: 503 });
    assert_eq!(span.status_code, Some(503));
    assert!(span.status_is_error);

    let mut span2 = SpanRecord::new();
    update_span_from_error(
        &mut span2,
        &ErrorInfo {
            message: "outer".to_string(),
            source_message: Some("inner".to_string()),
        },
    );
    assert!(span2.status_is_error);
    assert_eq!(span2.exception_message.as_deref(), Some("inner"));

    let mut span3 = SpanRecord::new();
    update_span_from_response_or_error(&mut span3, &Ok(HttpResponseInfo { status: 404 }));
    assert_eq!(span3.status_code, Some(404));
    assert!(!span3.status_is_error);
    update_span_from_response_or_error(
        &mut span3,
        &Err(ErrorInfo {
            message: "boom".to_string(),
            source_message: None,
        }),
    );
    assert!(span3.status_is_error);
    assert_eq!(span3.exception_message.as_deref(), Some("boom"));
}

#[test]
fn column_tags_write_dialect_sql() {
    assert_eq!(EntityId::sql_text(DBKind::Postgres), "SERIAL PRIMARY KEY");
    assert_eq!(
        EntityId::sql_text(DBKind::Sqlite),
        "INTEGER PRIMARY KEY AUTOINCREMENT"
    );
    assert_eq!(BinaryBlob::sql_text(DBKind::Postgres), "BYTEA");
    assert_eq!(BinaryBlob::sql_text(DBKind::Sqlite), "BLOB");
    assert_eq!(Now::sql_text(DBKind::Postgres), "now()");
    assert_eq!(Now::sql_text(DBKind::Sqlite), "datetime('now')");
    assert_eq!(RawSql::new("SELECT 1").0, "SELECT 1");
}

#[test]
fn api_methods_are_ordered() {
    assert!(ApiMethod::Get < ApiMethod::Post);
    assert_eq!(ApiMethod::Delete, ApiMethod::Delete);
}

#[test]
fn stage_config_file_names() {
    assert_eq!(stage_config_file("prod"), "server_config.prod.json");
    assert_eq!(stage_config_file("dev"), "server_config.dev.json");
}

#[test]
fn statement_ids_round_trip() {
    let id = PGStatementId::new(17);
    assert_eq!(id.value(), 17);
    assert_eq!(id, PGStatementId::new(17));
    assert!(PGStatementId::new(1) < PGStatementId::new(2));
}

#[test]
fn error_kinds_are_distinct() {
    assert_eq!(UserSessionError::Unauthenticated.kind(), "unauthenticated");
    assert_eq!(UserSessionError::SessionExpired.kind(), "session-expired");
    assert_eq!(
        UserSessionError::SessionCompromised.kind(),
        "session-compromised"
    );
    assert_eq!(
        UserSessionError::StoreUnavailable.kind(),
        "store-unavailable"
    );
    assert_eq!(
        UserSessionError::InvalidSecret("x".to_string()).kind(),
        "invalid-secret"
    );
}

#[test]
fn store_entry_lookup_and_versions() {
    let entry = SessionStoreEntry {
        sentinel: None,
        snapshots: vec![
            (
                4,
                shine_service::store::SessionData {
                    name: "a".to_string(),
                    is_email_confirmed: false,
                    roles: vec![],
                },
            ),
            (
                9,
                shine_service::store::SessionData {
                    name: "b".to_string(),
                    is_email_confirmed: true,
                    roles: vec!["r".to_string()],
                },
            ),
        ],
    };
    assert_eq!(entry.versions(), vec![4, 9]);
    assert_eq!(entry.get(9).map(|d| d.name.as_str()), Some("b"));
    assert!(entry.get(5).is_none());
    assert_eq!(max_version(&entry.versions()), Some(9));
    assert_eq!(max_version(&vec![]), None);
}
