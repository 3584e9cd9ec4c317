//! The canonical startup sequence: validate the environment values, then
//! assemble the telemetry configuration.

use crate::settings::Settings;
use crate::settings::SettingsError;
use crate::telemetry::config_for;
use crate::telemetry::build_telemetry_config;
use crate::telemetry::TelemetryConfig;
use vstd::prelude::*;

verus! {

/// Validates the raw environment values and assembles the whole telemetry
/// configuration. A missing required variable is reported instead, so
/// startup fails before the trace pipeline is installed or the listener
/// binds.
pub fn init(
    username: Option<String>,
    password: Option<String>,
    endpoint: Option<String>,
) -> (r: Result<TelemetryConfig, SettingsError>)
    ensures
        r is Ok <==> (username is Some && password is Some && endpoint is Some),
        r is Ok ==> config_for(
            r->Ok_0,
            (Settings {
                otel_username: username->Some_0,
                otel_password: password->Some_0,
                otel_endpoint: endpoint->Some_0,
            }),
        ),
        username is None ==> r == Err::<TelemetryConfig, SettingsError>(
            SettingsError::MissingUsername,
        ),
        username is Some && password is None ==> r == Err::<TelemetryConfig, SettingsError>(
            SettingsError::MissingPassword,
        ),
        username is Some && password is Some && endpoint is None ==> r == Err::<
            TelemetryConfig,
            SettingsError,
        >(SettingsError::MissingEndpoint),
{
    match Settings::from_env_values(username, password, endpoint) {
        Ok(settings) => Ok(build_telemetry_config(settings)),
        Err(e) => Err(e),
    }
}

} // verus!
