//! Assembly of the trace-export pipeline configuration.

use crate::auth::basic_auth_header;
use crate::auth::basic_header;
use crate::settings::Settings;
use vstd::prelude::*;

verus! {

/// Seconds allowed for each span-batch export request.
pub const EXPORT_TIMEOUT_SECS: u64 = 3;

/// Most events a single span may carry.
pub const MAX_EVENTS_PER_SPAN: u32 = 64;

/// Most attributes a single span may carry.
pub const MAX_ATTRIBUTES_PER_SPAN: u32 = 16;

/// Sampling policy of the pipeline: every span is recorded and exported.
#[derive(Clone, Copy, Debug, PartialEq, Eq, Structural)]
pub enum SamplerPolicy {
    AlwaysOn,
}

/// How trace and span identifiers are generated: cryptographically random.
#[derive(Clone, Copy, Debug, PartialEq, Eq, Structural)]
pub enum IdGeneration {
    Random,
}

/// Everything the exporter and trace pipeline are configured with, fixed for
/// the process lifetime. The header map of the exporter is the single entry
/// `header_name -> header_value`.
#[derive(Debug)]
pub struct TelemetryConfig {
    pub header_name: String,
    pub header_value: String,
    pub endpoint: String,
    pub timeout_secs: u64,
    pub sampler: SamplerPolicy,
    pub id_generation: IdGeneration,
    pub max_events_per_span: u32,
    pub max_attributes_per_span: u32,
    pub service_name: String,
    pub environment: String,
}

/// What a well-built configuration holds for the given settings: the
/// authenticated header, the collector endpoint, and the fixed sampling,
/// limit and resource metadata.
pub open spec fn config_for(c: TelemetryConfig, s: Settings) -> bool {
    &&& c.header_name@ == "Authorization"@
    &&& c.header_value@ == basic_header(s.otel_username@, s.otel_password@)
    &&& c.endpoint@ == s.otel_endpoint@
    &&& c.timeout_secs == EXPORT_TIMEOUT_SECS
    &&& c.sampler is AlwaysOn
    &&& c.id_generation is Random
    &&& c.max_events_per_span == MAX_EVENTS_PER_SPAN
    &&& c.max_attributes_per_span == MAX_ATTRIBUTES_PER_SPAN
    &&& c.service_name@ == "axum-otel-test"@
    &&& c.environment@ == "dev"@
}

/// Assembles the pipeline configuration from validated settings. The
/// credentials are consumed into the encoded header value; construction is
/// pure configuration with no side effect.
pub fn build_telemetry_config(settings: Settings) -> (r: TelemetryConfig)
    ensures
        config_for(r, settings),
{
    let Settings { otel_username, otel_password, otel_endpoint } = settings;
    let header_value = basic_auth_header(otel_username.as_str(), otel_password.as_str());
    TelemetryConfig {
        header_name: "Authorization".to_owned(),
        header_value,
        endpoint: otel_endpoint,
        timeout_secs: EXPORT_TIMEOUT_SECS,
        sampler: SamplerPolicy::AlwaysOn,
        id_generation: IdGeneration::Random,
        max_events_per_span: MAX_EVENTS_PER_SPAN,
        max_attributes_per_span: MAX_ATTRIBUTES_PER_SPAN,
        service_name: "axum-otel-test".to_owned(),
        environment: "dev".to_owned(),
    }
}

} // verus!
