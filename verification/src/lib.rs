//! Session trust engine for HTTP services.
//!
//! The crate turns a signed, client-held cookie into an authenticated
//! identity, detects cookie theft and replay through client fingerprinting,
//! and keeps the identity's authorization-relevant attributes fresh against
//! a shared revalidation store.

pub mod codec;
pub mod core_config;
pub mod crypto;
pub mod db;
pub mod error;
pub mod fingerprint;
pub mod id_encoder;
pub mod openapi;
pub mod otel_http;
pub mod postgres;
pub mod problem;
pub mod record;
pub mod session;
pub mod session_key;
pub mod store;
pub mod telemetry;
pub mod validator;
