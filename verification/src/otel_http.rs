//! HTTP observation values for request tracing.
//!
//! The host's request and span types are opaque to this crate, so the data
//! the tracing rules read is modeled as plain values: the method, protocol
//! version and URI of a request, and the few span fields the rules write.
//! The caller converts between its framework's types and these.

use vstd::prelude::*;
use vstd::string::StringExecFns;

verus! {

/// An HTTP request method.
#[derive(Clone, Debug)]
pub enum HttpMethod {
    Connect,
    Delete,
    Get,
    Head,
    Options,
    Patch,
    Post,
    Put,
    Trace,
    /// An extension method, carried verbatim.
    Other(String),
}

/// An HTTP protocol version.
#[derive(Clone, Copy, Debug, PartialEq, Eq, Structural)]
pub enum HttpVersion {
    Http09,
    Http10,
    Http11,
    Http2,
    Http3,
}

/// The parts of a request URI that the tracing rules read.
#[derive(Clone, Debug)]
pub struct RequestUri {
    pub scheme: Option<String>,
    pub host: Option<String>,
    pub path: String,
    pub query: Option<String>,
}

/// The parts of an inbound request that the tracing rules read.
#[derive(Clone, Debug)]
pub struct HttpRequest {
    pub method: HttpMethod,
    pub version: HttpVersion,
    pub uri: RequestUri,
    /// The `User-Agent` header, when present and readable.
    pub agent: Option<String>,
    /// The `Host` header, when present and readable.
    pub host_header: Option<String>,
}

/// The status of a completed response.
#[derive(Clone, Copy, Debug, PartialEq, Eq, Structural)]
pub struct HttpResponseInfo {
    pub status: u16,
}

/// A failure, flattened to the message of the error and of its source.
#[derive(Clone, Debug)]
pub struct ErrorInfo {
    pub message: String,
    pub source_message: Option<String>,
}

/// The span fields that the rules below record.
#[derive(Clone, Debug)]
pub struct SpanRecord {
    /// `http.response.status_code`, once a response was seen.
    pub status_code: Option<u16>,
    /// Whether `otel.status_code` was set to its error value.
    pub status_is_error: bool,
    /// `exception.message`, once an error was seen.
    pub exception_message: Option<String>,
}

impl SpanRecord {
    /// A span with nothing recorded yet.
    pub fn new() -> (r: SpanRecord)
        ensures
            r.status_code is None,
            !r.status_is_error,
            r.exception_message is None,
    {
        SpanRecord { status_code: None, status_is_error: false, exception_message: None }
    }
}

/// The method name recorded on a span.
pub open spec fn spec_http_method(m: HttpMethod) -> Seq<char> {
    match m {
        HttpMethod::Connect => "CONNECT"@,
        HttpMethod::Delete => "DELETE"@,
        HttpMethod::Get => "GET"@,
        HttpMethod::Head => "HEAD"@,
        HttpMethod::Options => "OPTIONS"@,
        HttpMethod::Patch => "PATCH"@,
        HttpMethod::Post => "POST"@,
        HttpMethod::Put => "PUT"@,
        HttpMethod::Trace => "TRACE"@,
        HttpMethod::Other(s) => s@,
    }
}

/// The canonical name of a request method.
pub fn http_method(method: &HttpMethod) -> (r: String)
    ensures
        r@ == spec_http_method(*method),
{
    match method {
        HttpMethod::Connect => String::from_str("CONNECT"),
        HttpMethod::Delete => String::from_str("DELETE"),
        HttpMethod::Get => String::from_str("GET"),
        HttpMethod::Head => String::from_str("HEAD"),
        HttpMethod::Options => String::from_str("OPTIONS"),
        HttpMethod::Patch => String::from_str("PATCH"),
        HttpMethod::Post => String::from_str("POST"),
        HttpMethod::Put => String::from_str("PUT"),
        HttpMethod::Trace => String::from_str("TRACE"),
        HttpMethod::Other(s) => s.clone(),
    }
}

/// The protocol version recorded on a span.
pub open spec fn spec_http_flavor(v: HttpVersion) -> Seq<char> {
    match v {
        HttpVersion::Http09 => "0.9"@,
        HttpVersion::Http10 => "1.0"@,
        HttpVersion::Http11 => "1.1"@,
        HttpVersion::Http2 => "2.0"@,
        HttpVersion::Http3 => "3.0"@,
    }
}

/// The protocol version, in the form tracing conventions want.
pub fn http_flavor(version: HttpVersion) -> (r: String)
    ensures
        r@ == spec_http_flavor(version),
{
    match version {
        HttpVersion::Http09 => String::from_str("0.9"),
        HttpVersion::Http10 => String::from_str("1.0"),
        HttpVersion::Http11 => String::from_str("1.1"),
        HttpVersion::Http2 => String::from_str("2.0"),
        HttpVersion::Http3 => String::from_str("3.0"),
    }
}

/// The URI scheme, or the empty string when the URI carries none.
pub fn url_scheme(uri: &RequestUri) -> (r: &str)
    ensures
        r@ == (match uri.scheme {
            Some(s) => s@,
            None => Seq::<char>::empty(),
        }),
{
    match &uri.scheme {
        Some(s) => s.as_str(),
        None => {
            let e = "";
            proof {
                reveal_strlit("");
            }
            e
        },
    }
}

/// The user-agent header, or the empty string when absent.
pub fn user_agent(req: &HttpRequest) -> (r: &str)
    ensures
        r@ == (match req.agent {
            Some(a) => a@,
            None => Seq::<char>::empty(),
        }),
{
    match &req.agent {
        Some(a) => a.as_str(),
        None => {
            let e = "";
            proof {
                reveal_strlit("");
            }
            e
        },
    }
}

/// The host: the `Host` header when present, else the URI's host, else the
/// empty string.
pub fn http_host(req: &HttpRequest) -> (r: &str)
    ensures
        r@ == (match req.host_header {
            Some(h) => h@,
            None => match req.uri.host {
                Some(h) => h@,
                None => Seq::<char>::empty(),
            },
        }),
{
    match &req.host_header {
        Some(h) => h.as_str(),
        None => match &req.uri.host {
            Some(h) => h.as_str(),
            None => {
                let e = "";
                proof {
                    reveal_strlit("");
                }
                e
            },
        },
    }
}

/// Record a response on its span: always the status code, and the error
/// status exactly for server errors. Statuses below 500 never mark the span
/// as failed.
pub fn update_span_from_response(span: &mut SpanRecord, response: &HttpResponseInfo)
    ensures
        final(span).status_code == Some(response.status),
        final(span).status_is_error == (old(span).status_is_error || 500 <= response.status < 600),
        final(span).exception_message == old(span).exception_message,
{
    span.status_code = Some(response.status);
    if response.status >= 500 && response.status < 600 {
        span.status_is_error = true;
    }
}

/// Record an error on its span: the span is failed, and the exception
/// message is the source's when one exists, else the error's own.
pub fn update_span_from_error(span: &mut SpanRecord, error: &ErrorInfo)
    ensures
        final(span).status_is_error,
        final(span).exception_message == Some(
            match error.source_message {
                Some(s) => s,
                None => error.message,
            },
        ),
        final(span).status_code == old(span).status_code,
{
    span.status_is_error = true;
    match &error.source_message {
        Some(s) => {
            span.exception_message = Some(s.clone());
            proof {
                assert(final(span).exception_message matches Some(m) && m@ == error.source_message
                    ->Some_0@);
            }
        },
        None => {
            span.exception_message = Some(error.message.clone());
        },
    }
}

/// Record whichever of a response or an error the handler produced.
pub fn update_span_from_response_or_error(
    span: &mut SpanRecord,
    response: &Result<HttpResponseInfo, ErrorInfo>,
)
    ensures
        match response {
            Ok(resp) => {
                &&& final(span).status_code == Some(resp.status)
                &&& final(span).status_is_error == (old(span).status_is_error || 500 <= resp.status
                    < 600)
                &&& final(span).exception_message == old(span).exception_message
            },
            Err(e) => {
                &&& final(span).status_is_error
                &&& final(span).exception_message == Some(
                    match e.source_message {
                        Some(s) => s,
                        None => e.message,
                    },
                )
                &&& final(span).status_code == old(span).status_code
            },
        },
{
    match response {
        Ok(resp) => update_span_from_response(span, resp),
        Err(e) => update_span_from_error(span, e),
    }
}

} // verus!
