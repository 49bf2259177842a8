//! The order of the one-time initialisation of a process: settle the service
//! name, set up the export pipeline, and fall back to local logging if that
//! fails. The work itself is the caller's; what to do next is decided here.

use vstd::prelude::*;

verus! {

/// Name of the environment variable that identifies the service.
pub const OTEL_SERVICE_NAME: &'static str = "OTEL_SERVICE_NAME";

/// How far the initialisation has come.
#[derive(Clone, Copy, Debug, PartialEq, Eq, Structural)]
pub enum InitState {
    /// Nothing is done yet: the service name is being looked up.
    Start,
    /// The export pipeline is being set up.
    Exporter,
    /// The export pipeline failed: local logging is being installed.
    Fallback,
    /// Nothing is left to do.
    Done,
}

/// What the caller found or brought about.
#[derive(Clone, Copy, Debug, PartialEq, Eq, Structural)]
pub enum InitEvent {
    /// The service name was looked up: `present` if it is set already.
    ServiceName { present: bool },
    /// The export pipeline was set up, or could not be.
    Exporter { ready: bool },
    /// Local logging was installed, or could not be.
    LocalLogging { ready: bool },
}

/// How the initialisation ended.
#[derive(Clone, Copy, Debug, PartialEq, Eq, Structural)]
pub enum InitOutcome {
    /// Spans are exported; the caller holds the pipeline's guard.
    Exporting,
    /// Diagnostics go to the local log only.
    LocalOnly,
    /// Neither could be installed.
    Failed,
}

/// What the caller is to do next.
#[derive(Clone, Copy, Debug, PartialEq, Eq, Structural)]
pub enum InitAction {
    /// Set up the export pipeline; before that, store the caller's name as
    /// the service name if `set_service_name` says so.
    SetUpExporter { set_service_name: bool },
    /// Install local logging and warn that tracing is not exported.
    InstallLocalLogging,
    /// Stop with this outcome.
    Finish(InitOutcome),
}

/// The next state and the next action for an event in a state. A service
/// name that is set already is respected. An event that the state does not
/// wait for ends the initialisation as failed.
pub open spec fn spec_init(state: InitState, event: InitEvent) -> (InitState, InitAction) {
    match (state, event) {
        (InitState::Start, InitEvent::ServiceName { present }) => (
            InitState::Exporter,
            InitAction::SetUpExporter { set_service_name: !present },
        ),
        (InitState::Exporter, InitEvent::Exporter { ready: true }) => (
            InitState::Done,
            InitAction::Finish(InitOutcome::Exporting),
        ),
        (InitState::Exporter, InitEvent::Exporter { ready: false }) => (
            InitState::Fallback,
            InitAction::InstallLocalLogging,
        ),
        (InitState::Fallback, InitEvent::LocalLogging { ready: true }) => (
            InitState::Done,
            InitAction::Finish(InitOutcome::LocalOnly),
        ),
        _ => (InitState::Done, InitAction::Finish(InitOutcome::Failed)),
    }
}

/// One step of the initialisation: what to do after `event` came in
/// `state`, and the state to go on from.
pub fn init(state: InitState, event: InitEvent) -> (next: (InitState, InitAction))
    ensures
        next == spec_init(state, event),
{
    match state {
        InitState::Start => match event {
            InitEvent::ServiceName { present } => (
                InitState::Exporter,
                InitAction::SetUpExporter { set_service_name: !present },
            ),
            _ => (InitState::Done, InitAction::Finish(InitOutcome::Failed)),
        },
        InitState::Exporter => match event {
            InitEvent::Exporter { ready } => if ready {
                (InitState::Done, InitAction::Finish(InitOutcome::Exporting))
            } else {
                (InitState::Fallback, InitAction::InstallLocalLogging)
            },
            _ => (InitState::Done, InitAction::Finish(InitOutcome::Failed)),
        },
        InitState::Fallback => match event {
            InitEvent::LocalLogging { ready } => if ready {
                (InitState::Done, InitAction::Finish(InitOutcome::LocalOnly))
            } else {
                (InitState::Done, InitAction::Finish(InitOutcome::Failed))
            },
            _ => (InitState::Done, InitAction::Finish(InitOutcome::Failed)),
        },
        InitState::Done => (InitState::Done, InitAction::Finish(InitOutcome::Failed)),
    }
}

/// The initialisation stops exactly when it reaches `Done`, local logging
/// is installed only after the export pipeline failed, and it ends as
/// exporting only on the pipeline's success.
pub proof fn law_init_order(state: InitState, event: InitEvent)
    ensures
        spec_init(state, event).1 is Finish <==> spec_init(state, event).0 == InitState::Done,
        spec_init(state, event).1 == InitAction::InstallLocalLogging <==> state
            == InitState::Exporter && event == (InitEvent::Exporter { ready: false }),
        spec_init(state, event).1 == InitAction::Finish(InitOutcome::Exporting) <==> state
            == InitState::Exporter && event == (InitEvent::Exporter { ready: true }),
{
}

} // verus!
