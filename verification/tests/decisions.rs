use skuffen_application::command::{
    AvsluttSakCommand, Command, CommandTypeCode, Dokumentform, JournalpostCommon,
    OpprettJournalpostCommand, SakKey, Tilgjengelighet,
};
use skuffen_application::decomposition::{Dokumentkilde, EntitetId};
use skuffen_application::execution::{
    dokument_initial_tilstand, entity_missing, etter_malhenting, etter_vellykket_operasjon, felter_krever_saksnummer,
    initial_status, materialiser_beslutning, reevaluer, registrer_utfall, render_start,
    renderer_feil, terminal_attempt, vekking_etter_steg, wakeup_after_operation, ArkivOperasjon,
    BlockedReason, CommandStateDecision, DokumentMedTilstand, DokumentTilstand, EksekveringStatus,
    Malhenting, Materialisering, Reevaluering, Registrering, Renderstart, SakMedBarn,
    Stegomraade, Vekking, Wakeup,
};
use skuffen_application::execution_detail::EksekveringFeiltype;
use skuffen_application::execution_report::{ExecutionReport, StepOutcome};
use skuffen_application::operasjon::Operasjonstype;
use skuffen_application::operation_steps::{
    arkivkall, avvent_journalfort_utfall, dokument_rendret, journalpost_opprettet, krev_arkiv_id,
    krev_dokument, krev_journalpost, vedlegg_arkivert, Arkivkall, Faktaoppdatering, Journalstatus,
    Journalposttilstand, ObservertJournalstatus, Utfall,
};
use skuffen_application::readiness::{
    EksekveringsklarhetVurderer, JournalpostState, JournalpostType, Kjorbarhet, SakState, SakStatus,
    Ventegrunn,
};
use skuffen_application::redaction::{redact_tokens, Rules};
use skuffen_application::render_diagnostic::{quote_diagnostic_value, sanitize_render_error};
use skuffen_application::status::{CommandLifecycleContext, ExecutionOutcome, StatusErrorCode};
use skuffen_application::validation::{
    etter_validering, validate_sak_fra_arkivet, validate_sak_ref, ArkivSakTilstandError,
    EntitetOppslag, MarkupSjekk, SakRefSteg, ValidateCommandService, ValidationOutcome,
    Valideringshandling, Valideringsstart,
};

const SAK: u128 = 0x11111111_2222_7333_8444_555555555555;
const JP: u128 = 0x22222222_3333_7444_8555_666666666666;
const DOK: u128 = 0x33333333_4444_7555_8666_777777777777;

fn uuid_str(u: u128) -> String {
    uuid::Uuid::from_u128(u).to_string()
}

fn chars(s: &str) -> Vec<char> {
    s.chars().collect()
}

// ---------------------------------------------------------------------------
// Registration and re-evaluation
// ---------------------------------------------------------------------------

#[test]
fn registration_starts_ready_or_waiting_never_settled() {
    assert_eq!(initial_status(CommandTypeCode::OpprettSak, None), (EksekveringStatus::Klar, None));
    assert_eq!(
        initial_status(CommandTypeCode::AvsluttSak, None),
        (
            EksekveringStatus::BlokkertVenter,
            Some("blocked_reason=entity_missing trigger_category=entity_fakta_endret".to_string())
        )
    );
    assert_eq!(
        initial_status(CommandTypeCode::AvsluttSak, Some(&CommandStateDecision::Done)),
        (EksekveringStatus::Klar, None)
    );
    assert_eq!(
        initial_status(CommandTypeCode::AvsluttSak, Some(&CommandStateDecision::Invalid("x".to_string()))),
        (EksekveringStatus::Klar, None)
    );
    let waiting = CommandStateDecision::Blocked(BlockedReason {
        safe_detail: "blocked_reason=saksnummer_mangler".to_string(),
        trigger_category: "sak_endret".to_string(),
    });
    assert_eq!(
        initial_status(CommandTypeCode::OpprettInngaaendeJournalpost, Some(&waiting)),
        (
            EksekveringStatus::BlokkertVenter,
            Some("blocked_reason=saksnummer_mangler trigger_category=sak_endret".to_string())
        )
    );
    assert_eq!(entity_missing().safe_detail, "blocked_reason=entity_missing");
}

#[test]
fn executor_materialises_decisions() {
    assert!(matches!(materialiser_beslutning(&CommandStateDecision::Ready(ArkivOperasjon::OpprettSak { sak_id: SAK })), Materialisering::Klar));
    assert!(matches!(materialiser_beslutning(&CommandStateDecision::Done), Materialisering::PubliserSuksess));
    match materialiser_beslutning(&CommandStateDecision::Invalid("sak_avsluttet".to_string())) {
        Materialisering::Feil(e) => {
            assert_eq!(e.feiltype, EksekveringFeiltype::Irrecoverable);
            assert_eq!(e.melding, "sak_avsluttet");
        }
        other => panic!("{:?}", other),
    }
    assert!(etter_vellykket_operasjon(&CommandStateDecision::Done));
    assert!(!etter_vellykket_operasjon(&CommandStateDecision::Ready(ArkivOperasjon::Avskriv { journalpost_id: JP })));
}

#[test]
fn reevaluation_moves_done_to_ready_and_fails_invalid() {
    assert!(matches!(
        reevaluer(None, true, Ok(()), &CommandStateDecision::Done),
        Reevaluering::Feil(d) if d == "Mangler sak_id for reevaluering"
    ));
    assert!(matches!(reevaluer(Some(SAK), false, Ok(()), &CommandStateDecision::Done), Reevaluering::Ingen));
    assert!(matches!(reevaluer(Some(SAK), true, Ok(()), &CommandStateDecision::Done), Reevaluering::Klar));
    assert!(matches!(
        reevaluer(Some(SAK), true, Err("Mangler journalpost_id for journalpost-kommando".to_string()), &CommandStateDecision::Done),
        Reevaluering::Feil(d) if d == "Mangler journalpost_id for journalpost-kommando"
    ));
    assert!(matches!(
        reevaluer(Some(SAK), true, Ok(()), &CommandStateDecision::Invalid("brudd".to_string())),
        Reevaluering::Feil(d) if d == "brudd"
    ));
    assert_eq!(terminal_attempt(0), 1);
    assert_eq!(terminal_attempt(4), 4);
}

#[test]
fn worker_records_each_outcome() {
    assert!(matches!(registrer_utfall(&ExecutionOutcome::Klar, 1), Registrering::Ingen));
    assert!(matches!(registrer_utfall(&ExecutionOutcome::Fullfort, 1), Registrering::MarkerOk));
    assert!(matches!(
        registrer_utfall(&ExecutionOutcome::Feil { last_error: None }, 1),
        Registrering::MarkerFeil { detalj } if detalj == "ukjent execution-feil"
    ));
    assert!(matches!(
        registrer_utfall(&ExecutionOutcome::BlokkertVenter { last_error: None }, 1),
        Registrering::MarkerBlokkertVenter { detalj } if detalj == "kommando venter på prerequisite"
    ));
    assert!(matches!(
        registrer_utfall(&ExecutionOutcome::Retrying { last_error: Some("x".to_string()) }, 3),
        Registrering::MarkerRetryVenter { detalj, backoff_attempt: 2 } if detalj == "x"
    ));
    assert!(matches!(
        registrer_utfall(&ExecutionOutcome::Retrying { last_error: None }, 0),
        Registrering::MarkerRetryVenter { detalj, backoff_attempt: 0 } if detalj == "recoverable execution-feil"
    ));
}

#[test]
fn completed_steps_wake_entry_then_case() {
    assert_eq!(wakeup_after_operation(SAK, ArkivOperasjon::Journalfoer { journalpost_id: JP }), Wakeup::Journalpost(JP));
    assert_eq!(
        wakeup_after_operation(SAK, ArkivOperasjon::RenderDokument { journalpost_id: JP, dokument_id: DOK }),
        Wakeup::Dokument(DOK)
    );
    assert_eq!(wakeup_after_operation(SAK, ArkivOperasjon::AvsluttSak { sak_id: SAK }), Wakeup::Sak(SAK));
    assert_eq!(
        vekking_etter_steg(Stegomraade::OpprettJournalpost { journalpost_id: JP, sak_id: SAK }, &StepOutcome::Completed),
        vec![Vekking::Journalpost(JP), Vekking::Sak(SAK)]
    );
    assert_eq!(
        vekking_etter_steg(Stegomraade::Journalpost { journalpost_id: JP }, &StepOutcome::AlreadyCompleted),
        vec![Vekking::Journalpost(JP), Vekking::KommandoensSak]
    );
    assert!(vekking_etter_steg(Stegomraade::Sak { sak_id: SAK }, &StepOutcome::blocked(None, "x".to_string())).is_empty());
}

// ---------------------------------------------------------------------------
// Rendering
// ---------------------------------------------------------------------------

fn mal(tilstand: DokumentTilstand, rendered: Option<u128>) -> DokumentMedTilstand {
    DokumentMedTilstand {
        dokument_id: DOK,
        tilstand,
        kilde: Dokumentkilde::HtmlTemplate { mal_referanse: 9, felter: vec![], rendered_dokument_referanse: rendered },
    }
}

fn mal_med_felter(felter: Vec<String>) -> DokumentMedTilstand {
    DokumentMedTilstand {
        dokument_id: DOK,
        tilstand: DokumentTilstand::AvventerRendring,
        kilde: Dokumentkilde::HtmlTemplate { mal_referanse: 9, felter, rendered_dokument_referanse: None },
    }
}

fn sak(saksnummer: Option<&str>) -> SakMedBarn {
    SakMedBarn { sak_id: SAK, saksnummer: saksnummer.map(|s| s.to_string()), sikri_id: None, journalposter: vec![] }
}

#[test]
fn rendering_starts_from_the_document_state() {
    assert!(matches!(render_start(&sak(None), &mal(DokumentTilstand::Ferdig, None), JP), Ok(Renderstart::AlleredeOk)));
    assert!(matches!(render_start(&sak(None), &mal(DokumentTilstand::AvventerRendring, Some(5)), JP), Ok(Renderstart::MarkerOk)));
    let err = render_start(&sak(None), &mal_med_felter(vec!["saksnummer".to_string()]), JP).unwrap_err();
    assert_eq!(err.feiltype, EksekveringFeiltype::Blocked);
    assert_eq!(err.melding, "render_saksnummer_mangler");
    match render_start(&sak(Some("2024/3")), &mal(DokumentTilstand::AvventerRendring, None), JP) {
        Ok(Renderstart::HentMal { mal_referanse, felter, saksnummer }) => {
            assert_eq!(mal_referanse, 9);
            assert!(felter.is_empty());
            assert_eq!(saksnummer.as_deref(), Some("2024/3"));
        }
        other => panic!("{:?}", other),
    }
    let bytes = DokumentMedTilstand {
        dokument_id: DOK,
        tilstand: DokumentTilstand::IkkeRealisert,
        kilde: Dokumentkilde::Bytes { dokument_referanse: 1, filtype: "pdf".to_string() },
    };
    let err = render_start(&sak(Some("1")), &bytes, JP).unwrap_err();
    assert_eq!(err.feiltype, EksekveringFeiltype::Irrecoverable);
    assert_eq!(
        err.melding,
        format!("render_ikke_html_template dokument_id={} journalpost_id={}", uuid_str(DOK), uuid_str(JP))
    );
}

#[test]
fn template_fetch_failures_are_retried() {
    assert!(etter_malhenting(9, &Malhenting::Funnet).is_ok());
    let err = etter_malhenting(9, &Malhenting::Mangler).unwrap_err();
    assert_eq!(err.feiltype, EksekveringFeiltype::Recoverable);
    assert_eq!(err.melding, format!("render_html_mal_mangler mal_referanse={}", uuid_str(9)));
    let err = etter_malhenting(9, &Malhenting::Feil("object store \"down\" token=abc".to_string())).unwrap_err();
    assert_eq!(
        err.melding,
        format!("render_html_mal_lager_unavailable mal_referanse={} error=\"object store \\\"down\\\" token=redacted\"", uuid_str(9))
    );
    let e = renderer_feil(false, "html2pdf_client_error status=400");
    assert_eq!(e.feiltype, EksekveringFeiltype::Irrecoverable);
    assert_eq!(e.melding, "html2pdf_client_error status=400");
    assert_eq!(renderer_feil(true, "x").feiltype, EksekveringFeiltype::Recoverable);
}

#[test]
fn registered_documents_start_by_their_form() {
    let (t, m, f) = dokument_initial_tilstand(&Dokumentform::Bytes { dokument_referanse: 1, filtype: "pdf".to_string() });
    assert_eq!((t, m), (DokumentTilstand::IkkeRealisert, None));
    assert!(f.is_empty());
    let (t, m, f) = dokument_initial_tilstand(&Dokumentform::HtmlTemplate { mal_referanse: 4, felter: vec!["a".to_string(), "b".to_string()] });
    assert_eq!((t, m), (DokumentTilstand::AvventerRendring, Some(4)));
    assert_eq!(f, vec!["a".to_string(), "b".to_string()]);
}

#[test]
fn render_diagnostics_are_sanitised_bounded_and_quoted() {
    assert_eq!(sanitize_render_error("a\n\tb   c"), "a b c");
    assert_eq!(sanitize_render_error("Authorization: Bearer abc def"), "Authorization:redacted redacted redacted def");
    let long = "x".repeat(300);
    let s = sanitize_render_error(&long);
    assert_eq!(s.chars().count(), 241);
    assert!(s.ends_with('…'));
    assert_eq!(quote_diagnostic_value("a\\b\"c"), "a\\\\b\\\"c");
}

#[test]
fn redaction_hides_secrets_and_the_values_after_them() {
    let r: String = redact_tokens(Rules::Execution, &chars("password: hunter2 next")).into_iter().collect();
    assert_eq!(r, "password:redacted redacted next");
    let r: String = redact_tokens(Rules::Execution, &chars("Authorization: Bearer abc rest")).into_iter().collect();
    assert_eq!(r, "Authorization:redacted redacted redacted rest");
    let r: String = redact_tokens(Rules::Diagnostic, &chars("api_key=123 ok")).into_iter().collect();
    assert_eq!(r, "api_key=redacted ok");
}

// ---------------------------------------------------------------------------
// Operation executor
// ---------------------------------------------------------------------------

#[test]
fn operations_map_to_their_archive_calls() {
    assert_eq!(
        arkivkall(Operasjonstype::SettEkspedert),
        Arkivkall::Statusovergang(Journalstatus::Ekspedert, Journalposttilstand::Ekspedert)
    );
    assert_eq!(arkivkall(Operasjonstype::Avskriv), Arkivkall::Avskriv);
    assert_eq!(krev_journalpost(EntitetId::Journalpost(JP)), Ok(JP));
    assert_eq!(krev_journalpost(EntitetId::Sak(SAK)), Err("intern_forventet_journalpost_entitet"));
    assert_eq!(krev_dokument(EntitetId::Journalpost(JP)), Err("intern_forventet_dokument_entitet"));
    assert_eq!(krev_arkiv_id(None, "intern_sak_arkiv_id_mangler"), Err("intern_sak_arkiv_id_mangler"));
    assert_eq!(krev_arkiv_id(Some("2024/1"), "x"), Ok("2024/1"));
}

#[test]
fn operation_facts_record_archive_ids_in_decimal() {
    match journalpost_opprettet(JP, 123, DOK) {
        Faktaoppdatering::JournalpostOpprettet { journalpost_id, arkiv_id, hoveddokument_id } => {
            assert_eq!((journalpost_id, arkiv_id.as_str(), hoveddokument_id), (JP, "123", DOK));
        }
        other => panic!("{:?}", other),
    }
    assert!(matches!(vedlegg_arkivert(DOK, Some(-9)), Faktaoppdatering::VedleggArkivert { arkiv_id: Some(a), .. } if a == "-9"));
    assert!(matches!(vedlegg_arkivert(DOK, None), Faktaoppdatering::VedleggArkivert { arkiv_id: None, .. }));
    assert!(matches!(dokument_rendret(DOK, Some(3), 4), Faktaoppdatering::DokumentRendret { rendered_dokument_referanse: 3, .. }));
    assert!(matches!(dokument_rendret(DOK, None, 4), Faktaoppdatering::DokumentRendret { rendered_dokument_referanse: 4, .. }));
}

#[test]
fn waiting_for_filing_polls_until_filed() {
    assert!(matches!(
        avvent_journalfort_utfall(JP, ObservertJournalstatus::Journalfoert, 60_000),
        Utfall::Ferdig(Faktaoppdatering::JournalpostStatus { tilstand: Journalposttilstand::Journalfoert, .. })
    ));
    assert!(matches!(
        avvent_journalfort_utfall(JP, ObservertJournalstatus::Ekspedert, 60_000),
        Utfall::PollIgjen { oppdatering: Faktaoppdatering::JournalpostStatus { tilstand: Journalposttilstand::Ekspedert, .. }, om_ms: 60_000 }
    ));
    assert!(matches!(
        avvent_journalfort_utfall(JP, ObservertJournalstatus::Annen, 5),
        Utfall::PollIgjen { oppdatering: Faktaoppdatering::Ingen, om_ms: 5 }
    ));
}

// ---------------------------------------------------------------------------
// Readiness and validation
// ---------------------------------------------------------------------------

fn sak_state(status: SakStatus, opprettet: bool, saksnummer: Option<&str>) -> SakState {
    SakState { status, opprettet, saksnummer: saksnummer.map(|s| s.to_string()) }
}

fn jp_state(journalposttype: JournalpostType, journalfoert: bool, avskrevet: bool, feilet: bool) -> JournalpostState {
    JournalpostState {
        journalposttype,
        journalfoert,
        avskrevet,
        ekspedert: false,
        har_feilede_dokumenter: feilet,
        med_utsending: false,
        journalpostnummer: None,
    }
}

#[test]
fn journal_entry_commands_wait_for_their_case() {
    let v = EksekveringsklarhetVurderer::new();
    assert!(matches!(v.vurder_journalpost_kommando(Some(SAK), None), Kjorbarhet::Venter { grunn: Ventegrunn::SakOpprettet { .. }, .. }));
    assert!(matches!(
        v.vurder_journalpost_kommando(Some(SAK), Some(sak_state(SakStatus::UnderBehandling, true, None))),
        Kjorbarhet::Venter { grunn: Ventegrunn::SaksnummerTildelt { .. }, detalj } if detalj == "Saksnummer mangler"
    ));
    assert!(matches!(
        v.vurder_journalpost_kommando(Some(SAK), Some(sak_state(SakStatus::Avsluttet, true, Some("1")))),
        Kjorbarhet::Feil { detalj } if detalj == "Kan ikke opprette journalpost pa avsluttet sak"
    ));
    assert!(matches!(v.vurder_journalpost_kommando(Some(SAK), Some(sak_state(SakStatus::UnderBehandling, true, Some("1")))), Kjorbarhet::Klar));
    assert!(matches!(v.vurder_journalpost_kommando(None, None), Kjorbarhet::Feil { .. }));
}

#[test]
fn a_case_closes_only_when_every_entry_is_finished() {
    let v = EksekveringsklarhetVurderer::new();
    let sak = || Some(sak_state(SakStatus::UnderBehandling, true, Some("1")));
    assert!(matches!(
        v.vurder_avslutt_sak(Some(SAK), sak(), &vec![jp_state(JournalpostType::Inngaende, true, false, false)]),
        Kjorbarhet::Venter { grunn: Ventegrunn::SakHarUferdigeJournalposter { .. }, .. }
    ));
    assert!(matches!(
        v.vurder_avslutt_sak(Some(SAK), sak(), &vec![jp_state(JournalpostType::Utgaaende, true, false, true)]),
        Kjorbarhet::Feil { .. }
    ));
    assert!(matches!(
        v.vurder_avslutt_sak(Some(SAK), sak(), &vec![
            jp_state(JournalpostType::Inngaende, true, true, false),
            jp_state(JournalpostType::InterntNotat, true, false, false),
        ]),
        Kjorbarhet::Klar
    ));
    let avslutt = Command::AvsluttSak(AvsluttSakCommand { sak_key: SakKey::ClientReference(SAK) });
    assert!(matches!(v.vurder(&avslutt, Some(SAK), sak(), &vec![]), Kjorbarhet::Klar));
}

#[test]
fn validation_starts_locally_then_checks_the_case() {
    let service = ValidateCommandService::new((), (), (), ());
    let note = Command::OpprettInterntNotatJournalpost(OpprettJournalpostCommand::InterntNotat {
        felles: JournalpostCommon {
            client_reference: JP,
            tittel: "Notat".to_string(),
            dokument_dato: "2024-01-01".to_string(),
            saksbehandler: "Z1".to_string(),
            saksbehandler_enhet: "1".to_string(),
            tilgjengelighet: Tilgjengelighet::Offentlig,
            dokumenter: vec![],
            sak_key: SakKey::ArkivId("2024/9".to_string()),
            kildesystem: None,
        },
    });
    match service.start(&note, MarkupSjekk::Gyldig, true) {
        Valideringsstart::SjekkSak(SakKey::ArkivId(s)) => assert_eq!(s, "2024/9"),
        other => panic!("{:?}", other),
    }
    match service.start(&note, MarkupSjekk::Gyldig, false) {
        Valideringsstart::Ferdig(ValidationOutcome::Irrecoverable { message, error_code }) => {
            assert_eq!(message, "Korrespondansepart-navn skal ikke inneholde markup");
            assert_eq!(error_code, StatusErrorCode::InvalidRequest);
        }
        other => panic!("{:?}", other),
    }
    match service.start(&note, MarkupSjekk::UbalansertKlamme, true) {
        Valideringsstart::Ferdig(ValidationOutcome::Irrecoverable { message, .. }) => {
            assert_eq!(message, "Journalposttittel har ubalansert skjermings-markup")
        }
        other => panic!("{:?}", other),
    }
}

#[test]
fn case_references_are_checked_in_the_registry_and_the_archive() {
    assert!(matches!(
        validate_sak_ref(&SakKey::ClientReference(SAK), EntitetOppslag::IkkeFunnet),
        SakRefSteg::Ferdig(ValidationOutcome::Irrecoverable { message, error_code: StatusErrorCode::NotFound }) if message == "Sak finnes ikke i Skuffen"
    ));
    assert!(matches!(
        validate_sak_ref(&SakKey::ClientReference(SAK), EntitetOppslag::Funnet { arkiv_id: None }),
        SakRefSteg::Ferdig(ValidationOutcome::Valid)
    ));
    assert!(matches!(
        validate_sak_ref(&SakKey::ClientReference(SAK), EntitetOppslag::Feil("db".to_string())),
        SakRefSteg::Ferdig(ValidationOutcome::Recoverable { error_code: StatusErrorCode::TemporaryUnavailable, .. })
    ));
    assert!(matches!(
        validate_sak_ref(&SakKey::ClientReference(SAK), EntitetOppslag::Funnet { arkiv_id: Some("7".to_string()) }),
        SakRefSteg::SjekkArkivet(s) if s == "7"
    ));
    assert!(matches!(
        validate_sak_fra_arkivet(Ok(true)),
        ValidationOutcome::Irrecoverable { error_code: StatusErrorCode::Conflict, .. }
    ));
    assert!(matches!(validate_sak_fra_arkivet(Ok(false)), ValidationOutcome::Valid));
    let err = ArkivSakTilstandError { irrecoverable: false, message: "timeout".to_string(), error_code: StatusErrorCode::TemporaryUnavailable };
    let outcome = validate_sak_fra_arkivet(Err(err));
    assert!(outcome.is_retryable());
    assert!(matches!(etter_validering(&outcome), Valideringshandling::Ingen));
    assert!(matches!(
        etter_validering(&ValidationOutcome::Valid),
        Valideringshandling::DispatchOgMeldValidert { melding } if melding == "Forespørselen er validert."
    ));
}

#[test]
fn learned_references_are_laid_over_the_context() {
    let mut report = ExecutionReport::new();
    report.set_saksnummer("2024/5".to_string());
    report.add_dokument_id("b".to_string());
    report.add_dokument_id("c".to_string());
    let mut context = CommandLifecycleContext::empty();
    context.saksnummer = Some("gammel".to_string());
    context.journalpost_id = Some("j".to_string());
    context.dokument_ids = vec!["a".to_string(), "b".to_string()];
    let merged = report.merge_context_over(context);
    assert_eq!(merged.saksnummer.as_deref(), Some("2024/5"));
    assert_eq!(merged.journalpost_id.as_deref(), Some("j"));
    assert_eq!(merged.dokument_ids, vec!["a".to_string(), "b".to_string(), "c".to_string()]);
}

#[test]
fn statisk_html_template_rendres_uten_saksnummer_og_utsetter_journalpost() {
    match render_start(&sak(None), &mal(DokumentTilstand::AvventerRendring, None), JP) {
        Ok(Renderstart::HentMal { mal_referanse, felter, saksnummer }) => {
            assert_eq!(mal_referanse, 9);
            assert!(felter.is_empty());
            assert_eq!(saksnummer, None);
        }
        other => panic!("{:?}", other),
    }
}

#[test]
fn html_template_med_saksnummer_felt_rendres_med_saksnummer() {
    match render_start(&sak(Some("2026/1")), &mal_med_felter(vec!["saksnummer".to_string()]), JP) {
        Ok(Renderstart::HentMal { felter, saksnummer, .. }) => {
            assert_eq!(felter, vec!["saksnummer".to_string()]);
            assert_eq!(saksnummer.as_deref(), Some("2026/1"));
        }
        other => panic!("{:?}", other),
    }
    assert!(felter_krever_saksnummer(&vec!["tittel".to_string(), "saksnummer".to_string()]));
    assert!(!felter_krever_saksnummer(&vec!["tittel".to_string()]));
}

#[test]
fn a_new_assessor_is_the_default_one() {
    let sak = || Some(sak_state(SakStatus::UnderBehandling, true, Some("1")));
    let avslutt = Command::AvsluttSak(AvsluttSakCommand { sak_key: SakKey::ClientReference(SAK) });
    let js = vec![jp_state(JournalpostType::Utgaaende, true, false, true)];
    let a = EksekveringsklarhetVurderer::new().vurder(&avslutt, Some(SAK), sak(), &js);
    let b = EksekveringsklarhetVurderer::default().vurder(&avslutt, Some(SAK), sak(), &js);
    assert!(matches!(a, Kjorbarhet::Feil { .. }));
    assert!(matches!(b, Kjorbarhet::Feil { .. }));
    let a = EksekveringsklarhetVurderer::new().vurder(&avslutt, Some(SAK), sak(), &vec![]);
    let b = EksekveringsklarhetVurderer::default().vurder(&avslutt, Some(SAK), sak(), &vec![]);
    assert!(matches!(a, Kjorbarhet::Klar));
    assert!(matches!(b, Kjorbarhet::Klar));
}
