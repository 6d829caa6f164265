use skuffen_application::command::{
    Command, CommandEnvelope, OpprettSakCommand, Tilgjengelighet,
};
use skuffen_application::status::{
    feil_til_outcome, utfores_ok_event, validert_blocked_event, validert_error_event,
    validert_retrying_event, CommandLifecycleContext, CommandStage, CommandStageStatus,
    ExecutionOutcome, StatusErrorCode,
};
use skuffen_application::execution_detail::EksekveringFeil;

fn make_test_envelope() -> CommandEnvelope<Command> {
    CommandEnvelope {
        command_id: uuid::Uuid::new_v4().as_u128(),
        correlation_id: Some(uuid::Uuid::new_v4().as_u128()),
        payload: Command::OpprettSak(OpprettSakCommand {
            client_reference: uuid::Uuid::new_v4().as_u128(),
            sakstittel: "Test sak".to_string(),
            arkivdel: "Tilsynsdivisjonene".to_string(),
            saksbehandler_id: "Z12345".to_string(),
            saksbehandler_enhet: "42".to_string(),
            ordningsverdi: "123".to_string(),
            tilgjengelighet: Tilgjengelighet::Offentlig,
        }),
    }
}

#[test]
fn validert_blocked_event_retains_detail_with_static_outward_message() {
    let envelope = make_test_envelope();
    let dynamic_detail = "Internal prerequisite details here".to_string();
    let event = validert_blocked_event(
        &envelope,
        dynamic_detail.clone(),
        None,
        CommandLifecycleContext::empty(),
    );

    assert_eq!(event.detail, Some(dynamic_detail));
    assert_eq!(
        event.outward_message,
        Some("Request validation is waiting for prerequisites.".to_string())
    );
    assert_ne!(event.detail, event.outward_message);
}

#[test]
fn validert_retrying_event_retains_detail_with_static_outward_message() {
    let envelope = make_test_envelope();
    let dynamic_detail = "Validation service temporarily down".to_string();
    let event = validert_retrying_event(
        &envelope,
        dynamic_detail.clone(),
        None,
        CommandLifecycleContext::empty(),
    );

    assert_eq!(event.detail, Some(dynamic_detail));
    assert_eq!(
        event.outward_message,
        Some("Request validation is temporarily unavailable and will be retried.".to_string())
    );
    assert_ne!(event.detail, event.outward_message);
}

#[test]
fn validert_error_event_retains_detail_with_static_outward_message() {
    let envelope = make_test_envelope();
    let dynamic_detail = "Invalid field: email format".to_string();
    let event = validert_error_event(
        &envelope,
        dynamic_detail.clone(),
        None,
        CommandLifecycleContext::empty(),
    );

    assert_eq!(event.detail, Some(dynamic_detail));
    assert_eq!(
        event.outward_message,
        Some("Request validation failed.".to_string())
    );
    assert_ne!(event.detail, event.outward_message);
}

#[test]
fn utfores_ok_event_keeps_detail_internal_with_static_outward_message() {
    let envelope = make_test_envelope();
    let dynamic_detail = Some("Detailed execution result".to_string());
    let event = utfores_ok_event(
        &envelope,
        dynamic_detail.clone(),
        CommandLifecycleContext::empty(),
        None,
    );

    assert_eq!(event.detail, dynamic_detail);
    assert_eq!(
        event.outward_message,
        Some("Command executed successfully.".to_string())
    );
    assert_ne!(event.detail, event.outward_message);
}

#[test]
fn validert_blocked_event_defaults_to_prerequisite_pending() {
    let envelope = make_test_envelope();
    let event = validert_blocked_event(
        &envelope,
        "venter".to_string(),
        None,
        CommandLifecycleContext::empty(),
    );
    assert_eq!(event.error_code, Some(StatusErrorCode::PrerequisitePending));
    assert_eq!(event.stage, CommandStage::Validert);
    assert_eq!(event.stage_status, CommandStageStatus::Blocked);
    assert_eq!(event.command_id, envelope.command_id);
    assert_eq!(event.correlation_id, envelope.correlation_id);
}

#[test]
fn recoverable_error_becomes_retrying_with_safe_detail() {
    let envelope = make_test_envelope();
    let err = EksekveringFeil::recoverable("database unavailable".to_string());
    let (event, outcome) = feil_til_outcome(&envelope, &err, CommandLifecycleContext::empty(), 3);
    assert_eq!(event.stage_status, CommandStageStatus::Retrying);
    assert_eq!(event.error_code, Some(StatusErrorCode::TemporaryUnavailable));
    assert_eq!(event.attempt, Some(3));
    match outcome {
        ExecutionOutcome::Retrying { last_error } => {
            assert_eq!(last_error, Some("execution_error".to_string()))
        }
        other => panic!("unexpected outcome {:?}", other),
    }
}

#[test]
fn irrecoverable_error_becomes_terminal_failure() {
    let envelope = make_test_envelope();
    let err = EksekveringFeil::irrecoverable(
        "Sikri error sikri_missing_document_content sikri_recoverability=irrecoverable".to_string(),
    );
    let (event, outcome) = feil_til_outcome(&envelope, &err, CommandLifecycleContext::empty(), 1);
    assert_eq!(event.stage_status, CommandStageStatus::Error);
    assert_eq!(event.error_code, Some(StatusErrorCode::ProcessingFailed));
    match outcome {
        ExecutionOutcome::Feil { last_error } => {
            assert_eq!(last_error, Some("sikri_missing_document_content".to_string()))
        }
        other => panic!("unexpected outcome {:?}", other),
    }
}

#[test]
fn blocked_error_waits_for_prerequisite() {
    let envelope = make_test_envelope();
    let err = EksekveringFeil::blocked("blocked_reason=entity_missing".to_string());
    let (event, outcome) = feil_til_outcome(&envelope, &err, CommandLifecycleContext::empty(), 2);
    assert_eq!(event.stage_status, CommandStageStatus::Blocked);
    assert_eq!(event.error_code, Some(StatusErrorCode::PrerequisitePending));
    match outcome {
        ExecutionOutcome::BlokkertVenter { last_error } => {
            assert_eq!(last_error, Some("blocked_reason=entity_missing".to_string()))
        }
        other => panic!("unexpected outcome {:?}", other),
    }
}

#[test]
fn sikri_feil_publiserer_kun_stabil_safe_detail() {
    let envelope = make_test_envelope();
    let err = skuffen_application::execution_detail::map_arkiv_feil(
        "sikri_recoverability=irrecoverable sikri_unknown_user (method=POST, url=https://example.invalid/api, user=Z12345)",
    );
    let (event, outcome) = feil_til_outcome(&envelope, &err, CommandLifecycleContext::empty(), 1);
    match outcome {
        ExecutionOutcome::Feil { last_error } => {
            assert_eq!(last_error, Some("sikri_unknown_user".to_string()))
        }
        other => panic!("unexpected outcome {:?}", other),
    }
    assert_eq!(event.detail.as_deref(), Some("sikri_unknown_user"));
}

#[test]
fn ukjent_sikri_feil_publiserer_generisk_upstream_safe_detail() {
    let envelope = make_test_envelope();
    let err = skuffen_application::execution_detail::map_arkiv_feil(
        "connection failed for https://example.invalid/api?user=Z12345",
    );
    let (event, outcome) = feil_til_outcome(&envelope, &err, CommandLifecycleContext::empty(), 1);
    match outcome {
        ExecutionOutcome::Retrying { last_error } => {
            assert_eq!(last_error, Some("execution_error".to_string()))
        }
        other => panic!("unexpected outcome {:?}", other),
    }
    assert_eq!(event.detail.as_deref(), Some("execution_error"));
}
