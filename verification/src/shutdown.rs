//! The graceful-shutdown coordinator.
//!
//! State machine `Running -> ShutdownRequested -> Draining -> Terminated`:
//! the first of two possible signals wins and triggers a warning, the server
//! then drains in-flight requests, the trace pipeline is flushed, and only
//! then may the process exit.

use vstd::prelude::*;

verus! {

/// Lifecycle phase of the process.
#[derive(Clone, Copy, Debug, PartialEq, Eq, Structural)]
pub enum Phase {
    /// Accepting connections; two signal listeners wait concurrently.
    Running,
    /// A signal arrived; the warning is recorded before draining begins.
    ShutdownRequested,
    /// No new connections; in-flight requests run to completion.
    Draining,
    /// The pipeline flush attempt is done; the process may exit.
    Terminated,
}

/// The two shutdown triggers. Whichever arrives first wins; on platforms
/// without a termination signal that listener simply never fires.
#[derive(Clone, Copy, Debug, PartialEq, Eq, Structural)]
pub enum ShutdownSignal {
    Interrupt,
    Terminate,
}

/// What the surrounding runtime reports to the coordinator.
#[derive(Clone, Copy, Debug, PartialEq, Eq, Structural)]
pub enum ShutdownEvent {
    SignalReceived(ShutdownSignal),
    DrainStarted,
    DrainFinished,
    FlushFinished,
}

/// What the runtime must do after a step.
#[derive(Clone, Copy, Debug, PartialEq, Eq, Structural)]
pub enum ShutdownAction {
    /// Record the warning event and stop accepting new connections.
    RecordWarningAndDrain,
    /// Flush and shut down the trace pipeline, exporting buffered spans.
    FlushPipeline,
    /// Draining is over and the flush attempt completed: exit is allowed.
    AllowExit,
    /// The event does not apply in the current phase.
    Ignore,
}

/// Coordinates graceful shutdown of the server and the trace pipeline.
#[derive(Clone, Copy, Debug, PartialEq, Eq, Structural)]
pub struct ShutdownCoordinator {
    pub phase: Phase,
    /// Whether the pipeline flush attempt has completed.
    pub flush_done: bool,
}

impl ShutdownCoordinator {
    /// Whether the server still accepts new connections in this state.
    pub open spec fn accepting(self) -> bool {
        self.phase is Running
    }

    /// Termination is only ever reached after the flush attempt.
    pub open spec fn wf(self) -> bool {
        self.phase is Terminated ==> self.flush_done
    }

    /// The transition function of the shutdown state machine.
    pub open spec fn step_state(self, ev: ShutdownEvent) -> ShutdownCoordinator {
        match (self.phase, ev) {
            (Phase::Running, ShutdownEvent::SignalReceived(_)) => ShutdownCoordinator {
                phase: Phase::ShutdownRequested,
                ..self
            },
            (Phase::ShutdownRequested, ShutdownEvent::DrainStarted) => ShutdownCoordinator {
                phase: Phase::Draining,
                ..self
            },
            (Phase::Draining, ShutdownEvent::FlushFinished) => ShutdownCoordinator {
                phase: Phase::Terminated,
                flush_done: true,
            },
            _ => self,
        }
    }

    /// The action commanded by a step.
    pub open spec fn step_action(self, ev: ShutdownEvent) -> ShutdownAction {
        match (self.phase, ev) {
            (Phase::Running, ShutdownEvent::SignalReceived(_)) =>
                ShutdownAction::RecordWarningAndDrain,
            (Phase::Draining, ShutdownEvent::DrainFinished) => ShutdownAction::FlushPipeline,
            (Phase::Draining, ShutdownEvent::FlushFinished) => ShutdownAction::AllowExit,
            _ => ShutdownAction::Ignore,
        }
    }

    /// A process starts running: accepting connections, nothing flushed.
    pub fn new() -> (r: ShutdownCoordinator)
        ensures
            r.phase is Running,
            !r.flush_done,
            r.accepting(),
            r.wf(),
    {
        ShutdownCoordinator { phase: Phase::Running, flush_done: false }
    }

    /// Feeds one event to the coordinator and returns the action the runtime
    /// must perform.
    pub fn step(&mut self, ev: ShutdownEvent) -> (a: ShutdownAction)
        ensures
            *final(self) == old(self).step_state(ev),
            a == old(self).step_action(ev),
    {
        match (self.phase, ev) {
            (Phase::Running, ShutdownEvent::SignalReceived(_)) => {
                self.phase = Phase::ShutdownRequested;
                ShutdownAction::RecordWarningAndDrain
            },
            (Phase::ShutdownRequested, ShutdownEvent::DrainStarted) => {
                self.phase = Phase::Draining;
                ShutdownAction::Ignore
            },
            (Phase::Draining, ShutdownEvent::DrainFinished) => ShutdownAction::FlushPipeline,
            (Phase::Draining, ShutdownEvent::FlushFinished) => {
                self.phase = Phase::Terminated;
                self.flush_done = true;
                ShutdownAction::AllowExit
            },
            _ => ShutdownAction::Ignore,
        }
    }

    /// The state after a whole sequence of events.
    pub open spec fn run_events(self, evs: Seq<ShutdownEvent>) -> ShutdownCoordinator
        decreases evs.len(),
    {
        if evs.len() == 0 {
            self
        } else {
            self.step_state(evs[0]).run_events(evs.skip(1))
        }
    }
}

/// The race between the two shutdown triggers has exactly one winner: the
/// first signal stops the accepting phase and commands the warning, and any
/// later signal changes nothing.
pub proof fn lemma_first_signal_wins(
    c: ShutdownCoordinator,
    s1: ShutdownSignal,
    s2: ShutdownSignal,
)
    requires
        c.accepting(),
    ensures
        !c.step_state(ShutdownEvent::SignalReceived(s1)).accepting(),
        c.step_action(ShutdownEvent::SignalReceived(s1)) is RecordWarningAndDrain,
        c.step_state(ShutdownEvent::SignalReceived(s1)).step_state(
            ShutdownEvent::SignalReceived(s2),
        ) == c.step_state(ShutdownEvent::SignalReceived(s1)),
        c.step_state(ShutdownEvent::SignalReceived(s1)).step_action(
            ShutdownEvent::SignalReceived(s2),
        ) is Ignore,
{
}

/// Once the coordinator stops accepting connections, no event makes it
/// accept again.
pub proof fn lemma_rejecting_is_stable(c: ShutdownCoordinator, ev: ShutdownEvent)
    requires
        !c.accepting(),
    ensures
        !c.step_state(ev).accepting(),
{
}

/// Every step preserves well-formedness: a terminated coordinator performed
/// its flush attempt first.
pub proof fn lemma_step_preserves_wf(c: ShutdownCoordinator, ev: ShutdownEvent)
    requires
        c.wf(),
    ensures
        c.step_state(ev).wf(),
{
}

/// Exit is allowed only when draining ended and the flush attempt completed.
pub proof fn lemma_exit_only_after_flush(c: ShutdownCoordinator, ev: ShutdownEvent)
    requires
        c.step_action(ev) is AllowExit,
    ensures
        c.step_state(ev).phase is Terminated,
        c.step_state(ev).flush_done,
{
}

/// Over any whole run of events: well-formedness is kept, and once shutdown
/// was requested the server never accepts a connection again.
pub proof fn lemma_run_events_safe(c: ShutdownCoordinator, evs: Seq<ShutdownEvent>)
    requires
        c.wf(),
    ensures
        c.run_events(evs).wf(),
        !c.accepting() ==> !c.run_events(evs).accepting(),
    decreases evs.len(),
{
    if evs.len() > 0 {
        lemma_step_preserves_wf(c, evs[0]);
        if !c.accepting() {
            lemma_rejecting_is_stable(c, evs[0]);
        }
        lemma_run_events_safe(c.step_state(evs[0]), evs.skip(1));
    }
}

} // verus!
