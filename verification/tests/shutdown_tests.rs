use axum_otel_tempo::shutdown::{
    Phase, ShutdownAction, ShutdownCoordinator, ShutdownEvent, ShutdownSignal,
};

#[test]
fn a_new_coordinator_accepts_connections() {
    let c = ShutdownCoordinator::new();
    assert_eq!(c.phase, Phase::Running);
    assert!(!c.flush_done);
}

#[test]
fn interrupt_requests_shutdown_and_warns() {
    let mut c = ShutdownCoordinator::new();
    let a = c.step(ShutdownEvent::SignalReceived(ShutdownSignal::Interrupt));
    assert_eq!(a, ShutdownAction::RecordWarningAndDrain);
    assert_eq!(c.phase, Phase::ShutdownRequested);
}

#[test]
fn terminate_requests_shutdown_too() {
    let mut c = ShutdownCoordinator::new();
    let a = c.step(ShutdownEvent::SignalReceived(ShutdownSignal::Terminate));
    assert_eq!(a, ShutdownAction::RecordWarningAndDrain);
    assert_eq!(c.phase, Phase::ShutdownRequested);
}

#[test]
fn the_second_signal_is_a_no_op() {
    let mut c = ShutdownCoordinator::new();
    c.step(ShutdownEvent::SignalReceived(ShutdownSignal::Interrupt));
    let before = c;
    let a = c.step(ShutdownEvent::SignalReceived(ShutdownSignal::Terminate));
    assert_eq!(a, ShutdownAction::Ignore);
    assert_eq!(c, before);
}

#[test]
fn the_full_shutdown_sequence_flushes_before_exit() {
    let mut c = ShutdownCoordinator::new();
    assert_eq!(
        c.step(ShutdownEvent::SignalReceived(ShutdownSignal::Interrupt)),
        ShutdownAction::RecordWarningAndDrain
    );
    assert_eq!(c.step(ShutdownEvent::DrainStarted), ShutdownAction::Ignore);
    assert_eq!(c.phase, Phase::Draining);
    assert_eq!(c.step(ShutdownEvent::DrainFinished), ShutdownAction::FlushPipeline);
    assert_eq!(c.phase, Phase::Draining);
    assert!(!c.flush_done);
    assert_eq!(c.step(ShutdownEvent::FlushFinished), ShutdownAction::AllowExit);
    assert_eq!(c.phase, Phase::Terminated);
    assert!(c.flush_done);
}

#[test]
fn out_of_order_events_are_ignored() {
    let mut c = ShutdownCoordinator::new();
    assert_eq!(c.step(ShutdownEvent::DrainFinished), ShutdownAction::Ignore);
    assert_eq!(c.step(ShutdownEvent::FlushFinished), ShutdownAction::Ignore);
    assert_eq!(c.phase, Phase::Running);
}
