use axum_otel_tempo::settings::{Settings, SettingsError};
use axum_otel_tempo::startup::init;
use axum_otel_tempo::telemetry::{build_telemetry_config, IdGeneration, SamplerPolicy};

fn s(v: &str) -> Option<String> {
    Some(v.to_string())
}

#[test]
fn settings_load_when_all_variables_are_present() {
    let r = Settings::from_env_values(s("u"), s("p"), s("http://collector:4318"));
    let settings = r.expect("all present");
    assert_eq!(settings.otel_username, "u");
    assert_eq!(settings.otel_password, "p");
    assert_eq!(settings.otel_endpoint, "http://collector:4318");
}

#[test]
fn missing_username_is_fatal() {
    let r = Settings::from_env_values(None, s("p"), s("e"));
    assert_eq!(r.unwrap_err(), SettingsError::MissingUsername);
}

#[test]
fn missing_password_is_fatal() {
    let r = Settings::from_env_values(s("u"), None, s("e"));
    assert_eq!(r.unwrap_err(), SettingsError::MissingPassword);
}

#[test]
fn missing_endpoint_is_fatal() {
    let r = Settings::from_env_values(s("u"), s("p"), None);
    assert_eq!(r.unwrap_err(), SettingsError::MissingEndpoint);
}

#[test]
fn built_config_holds_the_documented_constants() {
    let settings = Settings::from_env_values(s("user"), s("password"), s("http://t:4318"))
        .expect("all present");
    let config = build_telemetry_config(settings);
    assert_eq!(config.header_name, "Authorization");
    assert_eq!(config.header_value, "Basic dXNlcjpwYXNzd29yZA==");
    assert_eq!(config.endpoint, "http://t:4318");
    assert_eq!(config.timeout_secs, 3);
    assert_eq!(config.sampler, SamplerPolicy::AlwaysOn);
    assert_eq!(config.id_generation, IdGeneration::Random);
    assert_eq!(config.max_events_per_span, 64);
    assert_eq!(config.max_attributes_per_span, 16);
    assert_eq!(config.service_name, "axum-otel-test");
    assert_eq!(config.environment, "dev");
}

#[test]
fn init_builds_the_full_configuration() {
    let config = init(s("user"), s("password"), s("http://t:4318")).expect("complete env");
    assert_eq!(config.header_value, "Basic dXNlcjpwYXNzd29yZA==");
    assert_eq!(config.endpoint, "http://t:4318");
    assert_eq!(config.timeout_secs, 3);
}

#[test]
fn init_fails_before_anything_binds_when_a_variable_is_absent() {
    assert_eq!(
        init(None, s("p"), s("e")).unwrap_err(),
        SettingsError::MissingUsername
    );
    assert_eq!(
        init(s("u"), None, s("e")).unwrap_err(),
        SettingsError::MissingPassword
    );
    assert_eq!(
        init(s("u"), s("p"), None).unwrap_err(),
        SettingsError::MissingEndpoint
    );
}
