use axum_otel_tempo::handler::{handler_body, HANDLER_DELAY_MS};

#[test]
fn the_root_route_body_is_the_documented_page() {
    assert_eq!(handler_body(), "<h1>Hi again world</h1>");
}

#[test]
fn the_simulated_delay_is_one_hundred_milliseconds() {
    assert_eq!(HANDLER_DELAY_MS, 100);
}
