//! Configuration values of the telemetry and tracing pipelines.
//!
//! Installing the pipelines — exporters, subscribers, meters — is host
//! plumbing and stays with the caller; these are the validated configuration
//! values it consumes.

use vstd::prelude::*;

verus! {

/// Where trace data goes.
#[derive(Clone, Debug)]
pub enum Tracing {
    /// Tracing is switched off.
    Disabled,
    /// Traces go to the standard output.
    StdOut,
    /// Traces go to an OpenTelemetry-protocol collector.
    OpenTelemetryProtocol { endpoint: String },
    /// Traces go to a Zipkin collector.
    Zipkin,
    /// Traces go to Application Insights.
    AppInsight { instrumentation_key: String },
}

/// Configuration of the telemetry pipeline.
#[derive(Clone, Debug)]
pub struct TelemetryConfig {
    pub allow_reconfigure: bool,
    pub enable_console_log: bool,
    pub metrics: bool,
    pub tracing: Tracing,
    pub default_level: Option<String>,
}

/// A tracing filter could not be applied.
#[derive(Clone, Debug)]
pub struct TraceReconfigureError(pub String);

/// Which telemetry backend the tracing service exports to.
#[derive(Clone, Debug)]
pub enum Telemetry {
    /// Telemetry is switched off.
    Disabled,
    /// Spans go to the standard output.
    StdOut,
    /// Spans go to a Jaeger agent.
    Jaeger,
    /// Spans go to a Zipkin collector.
    Zipkin,
    /// Spans go to Application Insights.
    AppInsight { instrumentation_key: String },
}

/// Configuration of the tracing service.
#[derive(Clone, Debug)]
pub struct TracingConfig {
    pub allow_reconfigure: bool,
    pub enable_console_log: bool,
    pub telemetry: Telemetry,
}

/// A request to change the active tracing filter at runtime.
#[derive(Clone, Debug)]
pub struct TraceConfigRequest {
    pub filter: String,
}

} // verus!
