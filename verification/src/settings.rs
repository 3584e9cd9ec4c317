//! Validation of the collector settings read from the environment.

use vstd::prelude::*;

verus! {

/// The collector settings the bootstrap needs: credentials and endpoint,
/// loaded once at startup.
#[derive(Debug)]
pub struct Settings {
    pub otel_username: String,
    pub otel_password: String,
    pub otel_endpoint: String,
}

/// The first required environment variable found absent.
#[derive(Clone, Copy, Debug, PartialEq, Eq, Structural)]
pub enum SettingsError {
    MissingUsername,
    MissingPassword,
    MissingEndpoint,
}

impl Settings {
    /// Validates the raw environment values. Every required variable must be
    /// present; otherwise the first absent one, checked in the order
    /// username, password, endpoint, is reported and startup must abort
    /// before the listener binds.
    pub fn from_env_values(
        username: Option<String>,
        password: Option<String>,
        endpoint: Option<String>,
    ) -> (r: Result<Settings, SettingsError>)
        ensures
            r is Ok <==> (username is Some && password is Some && endpoint is Some),
            r is Ok ==> r->Ok_0.otel_username@ == username->Some_0@,
            r is Ok ==> r->Ok_0.otel_password@ == password->Some_0@,
            r is Ok ==> r->Ok_0.otel_endpoint@ == endpoint->Some_0@,
            username is None ==> r == Err::<Settings, SettingsError>(
                SettingsError::MissingUsername,
            ),
            username is Some && password is None ==> r == Err::<Settings, SettingsError>(
                SettingsError::MissingPassword,
            ),
            username is Some && password is Some && endpoint is None ==> r == Err::<
                Settings,
                SettingsError,
            >(SettingsError::MissingEndpoint),
    {
        match (username, password, endpoint) {
            (Some(u), Some(p), Some(e)) => Ok(
                Settings { otel_username: u, otel_password: p, otel_endpoint: e },
            ),
            (None, _, _) => Err(SettingsError::MissingUsername),
            (_, None, _) => Err(SettingsError::MissingPassword),
            (_, _, None) => Err(SettingsError::MissingEndpoint),
        }
    }
}

} // verus!
