//! Lifecycle status events of a command, and how execution results become
//! events and outcomes.
//!
//! Every event carries a fixed outward message chosen by its stage and stage
//! status; a dynamic detail is kept for internal use and never becomes the
//! outward message.
use vstd::prelude::*;

use crate::command::{command_type, type_of, Command, CommandEnvelope, CommandTypeCode};
use crate::execution_detail::{safe_detail, safe_execution_detail, EksekveringFeil, EksekveringFeiltype};

verus! {

#[derive(PartialEq, Eq, Structural, Clone, Copy, Debug)]
pub enum CommandStatus {
    Pending,
    Completed,
    Blocked,
    Retrying,
    Error,
}

#[derive(PartialEq, Eq, Structural, Clone, Copy, Debug)]
pub enum CommandStage {
    Mottatt,
    Validert,
    Utfores,
}

#[derive(PartialEq, Eq, Structural, Clone, Copy, Debug)]
pub enum CommandStageStatus {
    Completed,
    Blocked,
    Retrying,
    Error,
    Venter,
}

/// Client-facing error codes.
#[derive(PartialEq, Eq, Structural, Clone, Copy, Debug)]
pub enum StatusErrorCode {
    PrerequisitePending,
    TemporaryUnavailable,
    InvalidRequest,
    ProcessingFailed,
    NotFound,
    Conflict,
}

/// The references a lifecycle event reports.
#[derive(Debug)]
pub struct CommandLifecycleContext {
    pub sak_client_reference: Option<String>,
    pub saksnummer: Option<String>,
    pub journalpost_client_reference: Option<String>,
    pub journalpost_id: Option<String>,
    pub dokument_client_references: Vec<String>,
    pub dokument_ids: Vec<String>,
}

impl CommandLifecycleContext {
    pub fn empty() -> (r: Self)
        ensures
            r.sak_client_reference is None,
            r.saksnummer is None,
            r.journalpost_client_reference is None,
            r.journalpost_id is None,
            r.dokument_client_references@.len() == 0,
            r.dokument_ids@.len() == 0,
    {
        CommandLifecycleContext {
            sak_client_reference: None,
            saksnummer: None,
            journalpost_client_reference: None,
            journalpost_id: None,
            dokument_client_references: Vec::new(),
            dokument_ids: Vec::new(),
        }
    }
}

/// A lifecycle event of a command.
#[derive(Debug)]
pub struct CommandLifecycleEvent {
    pub command_id: u128,
    pub command_type: CommandTypeCode,
    pub correlation_id: Option<u128>,
    pub status: CommandStatus,
    pub stage: CommandStage,
    pub stage_status: CommandStageStatus,
    pub error_code: Option<StatusErrorCode>,
    pub detail: Option<String>,
    pub context: CommandLifecycleContext,
    pub attempt: Option<u32>,
    pub outward_message: Option<String>,
}

/// The stage and stage status pairs that have a fixed outward message.
pub open spec fn has_outward_message(stage: CommandStage, status: CommandStageStatus) -> bool {
    match (stage, status) {
        (CommandStage::Mottatt, CommandStageStatus::Completed) => true,
        (CommandStage::Validert, CommandStageStatus::Venter) => false,
        (CommandStage::Validert, _) => true,
        (CommandStage::Utfores, CommandStageStatus::Completed) => false,
        (CommandStage::Utfores, _) => true,
        _ => false,
    }
}

/// The fixed outward message of a stage and stage status.
pub open spec fn outward_text(stage: CommandStage, status: CommandStageStatus) -> Seq<char> {
    match (stage, status) {
        (CommandStage::Mottatt, CommandStageStatus::Completed) => "Request accepted for processing."@,
        (CommandStage::Validert, CommandStageStatus::Completed) => "Request validated successfully."@,
        (CommandStage::Validert, CommandStageStatus::Blocked) => {
            "Request validation is waiting for prerequisites."@
        },
        (CommandStage::Validert, CommandStageStatus::Retrying) => {
            "Request validation is temporarily unavailable and will be retried."@
        },
        (CommandStage::Validert, CommandStageStatus::Error) => "Request validation failed."@,
        (CommandStage::Utfores, CommandStageStatus::Venter) => "Command is queued for execution."@,
        (CommandStage::Utfores, CommandStageStatus::Retrying) => {
            "Command execution is temporarily unavailable and will be retried."@
        },
        (CommandStage::Utfores, CommandStageStatus::Blocked) => {
            "Command execution is waiting for prerequisites."@
        },
        (CommandStage::Utfores, CommandStageStatus::Error) => "Command execution failed."@,
        (CommandStage::Utfores, CommandStageStatus::Completed) => "Command executed successfully."@,
        _ => Seq::empty(),
    }
}

pub fn outward_message(stage: CommandStage, status: CommandStageStatus) -> (r: &'static str)
    requires
        has_outward_message(stage, status),
    ensures
        r@ == outward_text(stage, status),
{
    match (stage, status) {
        (CommandStage::Mottatt, CommandStageStatus::Completed) => "Request accepted for processing.",
        (CommandStage::Validert, CommandStageStatus::Completed) => "Request validated successfully.",
        (CommandStage::Validert, CommandStageStatus::Blocked) => {
            "Request validation is waiting for prerequisites."
        },
        (CommandStage::Validert, CommandStageStatus::Retrying) => {
            "Request validation is temporarily unavailable and will be retried."
        },
        (CommandStage::Validert, CommandStageStatus::Error) => "Request validation failed.",
        (CommandStage::Utfores, CommandStageStatus::Venter) => "Command is queued for execution.",
        (CommandStage::Utfores, CommandStageStatus::Retrying) => {
            "Command execution is temporarily unavailable and will be retried."
        },
        (CommandStage::Utfores, CommandStageStatus::Blocked) => {
            "Command execution is waiting for prerequisites."
        },
        _ => "Command execution failed.",
    }
}

/// What every event says of the envelope it reports on.
pub open spec fn reports_on(e: CommandLifecycleEvent, envelope: &CommandEnvelope<Command>) -> bool {
    &&& e.command_id == envelope.command_id
    &&& e.correlation_id == envelope.correlation_id
    &&& e.command_type == type_of(&envelope.payload)
}

/// An event with the given stage fields, a detail and the fixed outward
/// message of its stage.
pub open spec fn is_event(
    e: CommandLifecycleEvent,
    envelope: &CommandEnvelope<Command>,
    status: CommandStatus,
    stage: CommandStage,
    stage_status: CommandStageStatus,
    error_code: Option<StatusErrorCode>,
    detail: Option<Seq<char>>,
    attempt: Option<u32>,
) -> bool {
    &&& reports_on(e, envelope)
    &&& e.status == status
    &&& e.stage == stage
    &&& e.stage_status == stage_status
    &&& e.error_code == error_code
    &&& match (e.detail, detail) {
        (Some(a), Some(b)) => a@ == b,
        (None, None) => true,
        _ => false,
    }
    &&& e.attempt == attempt
    &&& e.outward_message matches Some(m) && m@ == outward_text(stage, stage_status)
}

#[allow(clippy::too_many_arguments)]
fn status_event(
    envelope: &CommandEnvelope<Command>,
    status: CommandStatus,
    stage: CommandStage,
    stage_status: CommandStageStatus,
    error_code: Option<StatusErrorCode>,
    detail: Option<String>,
    context: CommandLifecycleContext,
    attempt: Option<u32>,
    outward: &str,
) -> (e: CommandLifecycleEvent)
    ensures
        reports_on(e, envelope),
        e.status == status,
        e.stage == stage,
        e.stage_status == stage_status,
        e.error_code == error_code,
        e.detail == detail,
        e.context == context,
        e.attempt == attempt,
        e.outward_message matches Some(m) && m@ == outward@,
{
    CommandLifecycleEvent {
        command_id: envelope.command_id,
        command_type: command_type(&envelope.payload),
        correlation_id: envelope.correlation_id,
        status,
        stage,
        stage_status,
        error_code,
        detail,
        context,
        attempt,
        outward_message: Some(outward.to_owned()),
    }
}

/// The command was received.
pub fn mottatt_event(envelope: &CommandEnvelope<Command>, context: CommandLifecycleContext) -> (e:
    CommandLifecycleEvent)
    ensures
        is_event(
            e,
            envelope,
            CommandStatus::Pending,
            CommandStage::Mottatt,
            CommandStageStatus::Completed,
            None,
            None,
            None,
        ),
        e.context == context,
{
    status_event(
        envelope,
        CommandStatus::Pending,
        CommandStage::Mottatt,
        CommandStageStatus::Completed,
        None,
        None,
        context,
        None,
        outward_message(CommandStage::Mottatt, CommandStageStatus::Completed),
    )
}

/// The command passed validation.
pub fn validert_ok_event(envelope: &CommandEnvelope<Command>, context: CommandLifecycleContext) -> (e:
    CommandLifecycleEvent)
    ensures
        is_event(
            e,
            envelope,
            CommandStatus::Completed,
            CommandStage::Validert,
            CommandStageStatus::Completed,
            None,
            None,
            None,
        ),
        e.context == context,
{
    status_event(
        envelope,
        CommandStatus::Completed,
        CommandStage::Validert,
        CommandStageStatus::Completed,
        None,
        None,
        context,
        None,
        outward_message(CommandStage::Validert, CommandStageStatus::Completed),
    )
}

/// Validation waits for a prerequisite; the error code defaults to
/// `PrerequisitePending`.
pub fn validert_blocked_event(
    envelope: &CommandEnvelope<Command>,
    detail: String,
    error_code: Option<StatusErrorCode>,
    context: CommandLifecycleContext,
) -> (e: CommandLifecycleEvent)
    ensures
        is_event(
            e,
            envelope,
            CommandStatus::Blocked,
            CommandStage::Validert,
            CommandStageStatus::Blocked,
            Some(error_code.unwrap_or(StatusErrorCode::PrerequisitePending)),
            Some(detail@),
            None,
        ),
        e.context == context,
{
    status_event(
        envelope,
        CommandStatus::Blocked,
        CommandStage::Validert,
        CommandStageStatus::Blocked,
        Some(error_code.unwrap_or(StatusErrorCode::PrerequisitePending)),
        Some(detail),
        context,
        None,
        outward_message(CommandStage::Validert, CommandStageStatus::Blocked),
    )
}

/// Validation failed for a passing reason; the error code defaults to
/// `TemporaryUnavailable`.
pub fn validert_retrying_event(
    envelope: &CommandEnvelope<Command>,
    detail: String,
    error_code: Option<StatusErrorCode>,
    context: CommandLifecycleContext,
) -> (e: CommandLifecycleEvent)
    ensures
        is_event(
            e,
            envelope,
            CommandStatus::Retrying,
            CommandStage::Validert,
            CommandStageStatus::Retrying,
            Some(error_code.unwrap_or(StatusErrorCode::TemporaryUnavailable)),
            Some(detail@),
            None,
        ),
        e.context == context,
{
    status_event(
        envelope,
        CommandStatus::Retrying,
        CommandStage::Validert,
        CommandStageStatus::Retrying,
        Some(error_code.unwrap_or(StatusErrorCode::TemporaryUnavailable)),
        Some(detail),
        context,
        None,
        outward_message(CommandStage::Validert, CommandStageStatus::Retrying),
    )
}

/// The command was rejected by validation; the error code defaults to
/// `InvalidRequest`.
pub fn validert_error_event(
    envelope: &CommandEnvelope<Command>,
    detail: String,
    error_code: Option<StatusErrorCode>,
    context: CommandLifecycleContext,
) -> (e: CommandLifecycleEvent)
    ensures
        is_event(
            e,
            envelope,
            CommandStatus::Error,
            CommandStage::Validert,
            CommandStageStatus::Error,
            Some(error_code.unwrap_or(StatusErrorCode::InvalidRequest)),
            Some(detail@),
            None,
        ),
        e.context == context,
{
    status_event(
        envelope,
        CommandStatus::Error,
        CommandStage::Validert,
        CommandStageStatus::Error,
        Some(error_code.unwrap_or(StatusErrorCode::InvalidRequest)),
        Some(detail),
        context,
        None,
        outward_message(CommandStage::Validert, CommandStageStatus::Error),
    )
}

/// The command is queued for execution.
pub fn utfores_venter_event(
    envelope: &CommandEnvelope<Command>,
    context: CommandLifecycleContext,
    attempt: Option<u32>,
) -> (e: CommandLifecycleEvent)
    ensures
        is_event(
            e,
            envelope,
            CommandStatus::Pending,
            CommandStage::Utfores,
            CommandStageStatus::Venter,
            None,
            None,
            attempt,
        ),
        e.context == context,
{
    status_event(
        envelope,
        CommandStatus::Pending,
        CommandStage::Utfores,
        CommandStageStatus::Venter,
        None,
        None,
        context,
        attempt,
        outward_message(CommandStage::Utfores, CommandStageStatus::Venter),
    )
}

/// The command was executed.
pub fn utfores_ok_event(
    envelope: &CommandEnvelope<Command>,
    detail: Option<String>,
    context: CommandLifecycleContext,
    attempt: Option<u32>,
) -> (e: CommandLifecycleEvent)
    ensures
        reports_on(e, envelope),
        e.status == CommandStatus::Completed,
        e.stage == CommandStage::Utfores,
        e.stage_status == CommandStageStatus::Completed,
        e.error_code is None,
        e.detail == detail,
        e.attempt == attempt,
        e.outward_message matches Some(m) && m@ == outward_text(
            CommandStage::Utfores,
            CommandStageStatus::Completed,
        ),
        e.context == context,
{
    status_event(
        envelope,
        CommandStatus::Completed,
        CommandStage::Utfores,
        CommandStageStatus::Completed,
        None,
        detail,
        context,
        attempt,
        "Command executed successfully.",
    )
}

/// Execution failed for a passing reason; the error code defaults to
/// `TemporaryUnavailable`.
pub fn utfores_retrying_event(
    envelope: &CommandEnvelope<Command>,
    detail: String,
    error_code: Option<StatusErrorCode>,
    context: CommandLifecycleContext,
    attempt: Option<u32>,
) -> (e: CommandLifecycleEvent)
    ensures
        is_event(
            e,
            envelope,
            CommandStatus::Retrying,
            CommandStage::Utfores,
            CommandStageStatus::Retrying,
            Some(error_code.unwrap_or(StatusErrorCode::TemporaryUnavailable)),
            Some(detail@),
            attempt,
        ),
        e.context == context,
{
    status_event(
        envelope,
        CommandStatus::Retrying,
        CommandStage::Utfores,
        CommandStageStatus::Retrying,
        Some(error_code.unwrap_or(StatusErrorCode::TemporaryUnavailable)),
        Some(detail),
        context,
        attempt,
        outward_message(CommandStage::Utfores, CommandStageStatus::Retrying),
    )
}

/// Execution waits for a prerequisite; the error code defaults to
/// `PrerequisitePending`.
pub fn utfores_blocked_event(
    envelope: &CommandEnvelope<Command>,
    detail: String,
    error_code: Option<StatusErrorCode>,
    context: CommandLifecycleContext,
    attempt: Option<u32>,
) -> (e: CommandLifecycleEvent)
    ensures
        is_event(
            e,
            envelope,
            CommandStatus::Blocked,
            CommandStage::Utfores,
            CommandStageStatus::Blocked,
            Some(error_code.unwrap_or(StatusErrorCode::PrerequisitePending)),
            Some(detail@),
            attempt,
        ),
        e.context == context,
{
    status_event(
        envelope,
        CommandStatus::Blocked,
        CommandStage::Utfores,
        CommandStageStatus::Blocked,
        Some(error_code.unwrap_or(StatusErrorCode::PrerequisitePending)),
        Some(detail),
        context,
        attempt,
        outward_message(CommandStage::Utfores, CommandStageStatus::Blocked),
    )
}

/// Execution failed for good; the error code defaults to `ProcessingFailed`.
pub fn utfores_error_event(
    envelope: &CommandEnvelope<Command>,
    detail: String,
    error_code: Option<StatusErrorCode>,
    context: CommandLifecycleContext,
    attempt: Option<u32>,
) -> (e: CommandLifecycleEvent)
    ensures
        is_event(
            e,
            envelope,
            CommandStatus::Error,
            CommandStage::Utfores,
            CommandStageStatus::Error,
            Some(error_code.unwrap_or(StatusErrorCode::ProcessingFailed)),
            Some(detail@),
            attempt,
        ),
        e.context == context,
{
    status_event(
        envelope,
        CommandStatus::Error,
        CommandStage::Utfores,
        CommandStageStatus::Error,
        Some(error_code.unwrap_or(StatusErrorCode::ProcessingFailed)),
        Some(detail),
        context,
        attempt,
        outward_message(CommandStage::Utfores, CommandStageStatus::Error),
    )
}

// ---------------------------------------------------------------------------
// Execution outcomes
// ---------------------------------------------------------------------------

/// An event that settles the command: it completed or failed for good, so
/// the command's receipt goes out after it.
pub open spec fn settles(status: CommandStatus) -> bool {
    status == CommandStatus::Completed || status == CommandStatus::Error
}

pub fn avslutter_kommandoen(event: &CommandLifecycleEvent) -> (r: bool)
    ensures
        r == settles(event.status),
{
    match event.status {
        CommandStatus::Completed | CommandStatus::Error => true,
        _ => false,
    }
}

/// What one execution pass of a command came to.
#[derive(Debug)]
pub enum ExecutionOutcome {
    Klar,
    Fullfort,
    BlokkertVenter { last_error: Option<String> },
    Retrying { last_error: Option<String> },
    Feil { last_error: Option<String> },
}

/// The outcome carries exactly `detail` as its last error.
pub open spec fn carries(o: ExecutionOutcome, detail: Seq<char>) -> bool {
    match o {
        ExecutionOutcome::BlokkertVenter { last_error } => last_error matches Some(d) && d@ == detail,
        ExecutionOutcome::Retrying { last_error } => last_error matches Some(d) && d@ == detail,
        ExecutionOutcome::Feil { last_error } => last_error matches Some(d) && d@ == detail,
        _ => false,
    }
}

/// The event and outcome for a failed execution step: the published detail
/// is the safe detail of the error's message; a recoverable error retries, an
/// irrecoverable one fails, a blocked one waits.
pub fn feil_til_outcome(
    envelope: &CommandEnvelope<Command>,
    err: &EksekveringFeil,
    context: CommandLifecycleContext,
    attempt: u32,
) -> (r: (CommandLifecycleEvent, ExecutionOutcome))
    ensures
        r.0.context == context,
        carries(r.1, safe_detail(err.melding@)),
        err.feiltype == EksekveringFeiltype::Recoverable ==> r.1 is Retrying && is_event(
            r.0,
            envelope,
            CommandStatus::Retrying,
            CommandStage::Utfores,
            CommandStageStatus::Retrying,
            Some(StatusErrorCode::TemporaryUnavailable),
            Some(safe_detail(err.melding@)),
            Some(attempt),
        ),
        err.feiltype == EksekveringFeiltype::Irrecoverable ==> r.1 is Feil && is_event(
            r.0,
            envelope,
            CommandStatus::Error,
            CommandStage::Utfores,
            CommandStageStatus::Error,
            Some(StatusErrorCode::ProcessingFailed),
            Some(safe_detail(err.melding@)),
            Some(attempt),
        ),
        err.feiltype == EksekveringFeiltype::Blocked ==> r.1 is BlokkertVenter && is_event(
            r.0,
            envelope,
            CommandStatus::Blocked,
            CommandStage::Utfores,
            CommandStageStatus::Blocked,
            Some(StatusErrorCode::PrerequisitePending),
            Some(safe_detail(err.melding@)),
            Some(attempt),
        ),
{
    let safe = safe_execution_detail(err.melding.as_str());
    match err.feiltype {
        EksekveringFeiltype::Recoverable => {
            let event = utfores_retrying_event(
                envelope,
                safe.clone(),
                Some(StatusErrorCode::TemporaryUnavailable),
                context,
                Some(attempt),
            );
            (event, ExecutionOutcome::Retrying { last_error: Some(safe) })
        },
        EksekveringFeiltype::Irrecoverable => {
            let event = utfores_error_event(
                envelope,
                safe.clone(),
                Some(StatusErrorCode::ProcessingFailed),
                context,
                Some(attempt),
            );
            (event, ExecutionOutcome::Feil { last_error: Some(safe) })
        },
        EksekveringFeiltype::Blocked => {
            let event = utfores_blocked_event(
                envelope,
                safe.clone(),
                Some(StatusErrorCode::PrerequisitePending),
                context,
                Some(attempt),
            );
            (event, ExecutionOutcome::BlokkertVenter { last_error: Some(safe) })
        },
    }
}

/// The event and outcome for a command that is waiting: the published detail
/// is the safe detail of the blocking reason.
pub fn blocked_outcome(
    envelope: &CommandEnvelope<Command>,
    detail: &str,
    context: CommandLifecycleContext,
    attempt: u32,
) -> (r: (CommandLifecycleEvent, ExecutionOutcome))
    ensures
        r.0.context == context,
        r.1 is BlokkertVenter,
        carries(r.1, safe_detail(detail@)),
        is_event(
            r.0,
            envelope,
            CommandStatus::Blocked,
            CommandStage::Utfores,
            CommandStageStatus::Blocked,
            Some(StatusErrorCode::PrerequisitePending),
            Some(safe_detail(detail@)),
            Some(attempt),
        ),
{
    let safe = safe_execution_detail(detail);
    let event = utfores_blocked_event(
        envelope,
        safe.clone(),
        Some(StatusErrorCode::PrerequisitePending),
        context,
        Some(attempt),
    );
    (event, ExecutionOutcome::BlokkertVenter { last_error: Some(safe) })
}

/// The event and outcome for a command that is done.
pub fn success_outcome(
    envelope: &CommandEnvelope<Command>,
    context: CommandLifecycleContext,
    attempt: u32,
) -> (r: (CommandLifecycleEvent, ExecutionOutcome))
    ensures
        r.0.context == context,
        r.1 is Fullfort,
        reports_on(r.0, envelope),
        r.0.status == CommandStatus::Completed,
        r.0.stage == CommandStage::Utfores,
        r.0.stage_status == CommandStageStatus::Completed,
        r.0.detail is None,
        r.0.attempt == Some(attempt),
{
    let event = utfores_ok_event(envelope, None, context, Some(attempt));
    (event, ExecutionOutcome::Fullfort)
}

// ---------------------------------------------------------------------------
// Laws
// ---------------------------------------------------------------------------

/// Each stage and stage status that has an outward message has one that
/// depends on nothing else: whatever detail an event carries, what goes out
/// is one of ten fixed sentences.
pub proof fn law_outward_message_is_fixed(
    e1: CommandLifecycleEvent,
    e2: CommandLifecycleEvent,
    env1: &CommandEnvelope<Command>,
    env2: &CommandEnvelope<Command>,
    status: CommandStatus,
    stage: CommandStage,
    stage_status: CommandStageStatus,
    code1: Option<StatusErrorCode>,
    code2: Option<StatusErrorCode>,
    detail1: Option<Seq<char>>,
    detail2: Option<Seq<char>>,
    attempt1: Option<u32>,
    attempt2: Option<u32>,
)
    requires
        is_event(e1, env1, status, stage, stage_status, code1, detail1, attempt1),
        is_event(e2, env2, status, stage, stage_status, code2, detail2, attempt2),
    ensures
        e1.outward_message matches Some(m1) && e2.outward_message matches Some(m2) && m1@ == m2@,
{
}

} // verus!
