use equinix_otel_tools::init;
use equinix_otel_tools::startup::{
    InitAction, InitEvent, InitOutcome, InitState, OTEL_SERVICE_NAME,
};

#[test]
fn the_service_name_slot_is_named() {
    assert_eq!(OTEL_SERVICE_NAME, "OTEL_SERVICE_NAME");
}

#[test]
fn init_respects_a_service_name_that_is_set() {
    assert_eq!(
        init(InitState::Start, InitEvent::ServiceName { present: true }),
        (InitState::Exporter, InitAction::SetUpExporter { set_service_name: false })
    );
}

#[test]
fn init_sets_a_missing_service_name() {
    assert_eq!(
        init(InitState::Start, InitEvent::ServiceName { present: false }),
        (InitState::Exporter, InitAction::SetUpExporter { set_service_name: true })
    );
}

#[test]
fn init_ends_as_exporting_when_the_pipeline_is_ready() {
    assert_eq!(
        init(InitState::Exporter, InitEvent::Exporter { ready: true }),
        (InitState::Done, InitAction::Finish(InitOutcome::Exporting))
    );
}

#[test]
fn init_falls_back_to_local_logging() {
    assert_eq!(
        init(InitState::Exporter, InitEvent::Exporter { ready: false }),
        (InitState::Fallback, InitAction::InstallLocalLogging)
    );
    assert_eq!(
        init(InitState::Fallback, InitEvent::LocalLogging { ready: true }),
        (InitState::Done, InitAction::Finish(InitOutcome::LocalOnly))
    );
}

#[test]
fn init_fails_when_the_fallback_fails() {
    assert_eq!(
        init(InitState::Fallback, InitEvent::LocalLogging { ready: false }),
        (InitState::Done, InitAction::Finish(InitOutcome::Failed))
    );
}

#[test]
fn init_fails_on_an_event_out_of_order() {
    let failed = (InitState::Done, InitAction::Finish(InitOutcome::Failed));
    assert_eq!(init(InitState::Start, InitEvent::Exporter { ready: true }), failed);
    assert_eq!(init(InitState::Start, InitEvent::LocalLogging { ready: true }), failed);
    assert_eq!(init(InitState::Exporter, InitEvent::ServiceName { present: true }), failed);
    assert_eq!(init(InitState::Exporter, InitEvent::LocalLogging { ready: true }), failed);
    assert_eq!(init(InitState::Fallback, InitEvent::Exporter { ready: true }), failed);
    assert_eq!(init(InitState::Fallback, InitEvent::ServiceName { present: false }), failed);
    assert_eq!(init(InitState::Done, InitEvent::Exporter { ready: true }), failed);
    assert_eq!(init(InitState::Done, InitEvent::ServiceName { present: true }), failed);
}

#[test]
fn init_runs_to_the_end_in_three_steps_at_most() {
    let (state, action) = init(InitState::Start, InitEvent::ServiceName { present: false });
    assert_eq!(action, InitAction::SetUpExporter { set_service_name: true });
    let (state, action) = init(state, InitEvent::Exporter { ready: false });
    assert_eq!(action, InitAction::InstallLocalLogging);
    let (state, action) = init(state, InitEvent::LocalLogging { ready: true });
    assert_eq!(action, InitAction::Finish(InitOutcome::LocalOnly));
    assert_eq!(state, InitState::Done);
}
