use axum_otel_tempo::subscriber::{default_filter, effective_filter, InstallError, SubscriberGuard};

#[test]
fn default_filter_matches_the_documented_string() {
    assert_eq!(
        default_filter(),
        "axum_otel_tempo=info,tower_http=debug,axum::rejection=trace"
    );
}

#[test]
fn environment_directive_wins_when_present() {
    assert_eq!(
        effective_filter(Some("warn".to_string())),
        "warn"
    );
}

#[test]
fn absent_directive_falls_back_to_the_default() {
    assert_eq!(
        effective_filter(None),
        "axum_otel_tempo=info,tower_http=debug,axum::rejection=trace"
    );
}

#[test]
fn first_install_succeeds() {
    let mut guard = SubscriberGuard::new();
    assert!(guard.install().is_ok());
}

#[test]
fn second_install_fails_instead_of_silently_succeeding() {
    let mut guard = SubscriberGuard::new();
    guard.install().expect("first install");
    assert_eq!(guard.install(), Err(InstallError::AlreadyInstalled));
    // And it keeps failing.
    assert_eq!(guard.install(), Err(InstallError::AlreadyInstalled));
}
