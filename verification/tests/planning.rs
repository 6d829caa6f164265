use skuffen_application::backoff::{
    backoff_delay_ms, neste_backoff, neste_backoff_fra, neste_poll, neste_poll_fra, poll_ventetid_ms, retry_attempt,
};
use skuffen_application::command::{
    AvsluttSakCommand, Command, CommandEnvelope, CommandTypeCode, IntoCommandEnvelope,
    IntoExecutorEnvelope, Dokument, Dokumentform,
    JournalpostCommon, Korrespondansepart, OpprettJournalpostCommand, OpprettSakCommand, SakKey,
    SettSaksansvarligCommand, Tilgjengelighet,
};
use skuffen_application::decomposition::{
    registrert_entitet_id,
    bygg_rader, dokument_rekkefolge, plan, sjekk_entitet_type, Dekomponeringsinput, Dokumentkilde,
    EntitetId, EntitetType, Kildeform, OperasjonSpesifikasjon,
};
use skuffen_application::execution::DokumentTilstand;
use skuffen_application::ids::rendered_dokument_id;
use skuffen_application::ingest::{mottatt_status, ny_entitet, registreringsplan, utfores_status};
use skuffen_application::operasjon::{
    command_outcome_status, forsoksutfall, handling_for, krev_journalpost_arkiv_id,
    uavklart_command_status, varsel_status, ArkivFeil, Arkivresultat, Beslutning, CommandEvent,
    CommandMetadata, CommandOutcome, EvaluerOperasjonerService, Evalueringshandling,
    Forsoksutfall, Handling, Operasjonshendelse, Operasjonstype,
};
use skuffen_application::parse::{decimal_i64, parse_i32_exec};
use skuffen_application::readiness::JournalpostType;
use skuffen_application::registration::{
    domain_command_for_type, entity_tilstander, entitet_id_fra_oppslag, id_eller_mangler,
    resolved_sak_id, sak_id_fra_arkiv_oppslag, DomeneKommando, SakResolutionOrigin, TilstandRad,
};
use skuffen_application::status::StatusErrorCode;
use skuffen_application::execution_detail::EksekveringFeiltype;

const SAK: u128 = 0x11111111_2222_7333_8444_555555555555;
const JP: u128 = 0x22222222_3333_7444_8555_666666666666;
const DOK1: u128 = 0x33333333_4444_7555_8666_777777777777;
const DOK2: u128 = 0x44444444_5555_7666_8777_888888888888;
const CR_SAK: u128 = 0x55555555_6666_4777_8888_999999999999;
const CR_JP: u128 = 0x66666666_7777_4888_9999_aaaaaaaaaaaa;
const CR_D1: u128 = 0x77777777_8888_4999_aaaa_bbbbbbbbbbbb;
const CR_D2: u128 = 0x88888888_9999_4aaa_bbbb_cccccccccccc;

fn uuid_str(u: u128) -> String {
    uuid::Uuid::from_u128(u).to_string()
}

fn felles(sak_key: SakKey) -> JournalpostCommon {
    JournalpostCommon {
        client_reference: CR_JP,
        tittel: "Vedtak".to_string(),
        dokument_dato: "2024-05-01".to_string(),
        saksbehandler: "Z1".to_string(),
        saksbehandler_enhet: "4100".to_string(),
        tilgjengelighet: Tilgjengelighet::Skjermet {
            tilgangskode: "UO".to_string(),
            tilgangshjemmel: "Offl. § 13".to_string(),
        },
        dokumenter: vec![
            Dokument {
                client_reference: CR_D1,
                tittel: "Hoveddokument".to_string(),
                form: Dokumentform::Bytes { dokument_referanse: 5, filtype: "pdf".to_string() },
            },
            Dokument {
                client_reference: CR_D2,
                tittel: "Brev".to_string(),
                form: Dokumentform::HtmlTemplate {
                    mal_referanse: 6,
                    felter: vec!["saksnummer".to_string()],
                },
            },
        ],
        sak_key,
        kildesystem: Some("fagsystem".to_string()),
    }
}

fn utgaaende(sak_key: SakKey) -> Command {
    Command::OpprettUtgaaendeJournalpost(OpprettJournalpostCommand::UtgaaendeMedUtsending {
        felles: felles(sak_key),
        mottakere: vec![Korrespondansepart { navn: "Ola".to_string() }],
    })
}

fn opprett_sak() -> Command {
    Command::OpprettSak(OpprettSakCommand {
        client_reference: CR_SAK,
        sakstittel: "Tilsyn".to_string(),
        arkivdel: "Tilsynsdivisjonene".to_string(),
        saksbehandler_id: "Z1".to_string(),
        saksbehandler_enhet: "4100".to_string(),
        ordningsverdi: "123".to_string(),
        tilgjengelighet: Tilgjengelighet::Offentlig,
    })
}

// ---------------------------------------------------------------------------
// Decimal text and ids
// ---------------------------------------------------------------------------

#[test]
fn decimal_text_matches_to_string() {
    for n in [0i64, 9, 10, 42, -1, -10, 1234567890, i64::MAX, i64::MIN] {
        assert_eq!(decimal_i64(n), n.to_string());
    }
}

#[test]
fn parse_follows_str_parse() {
    for s in ["", "+", "-", "12a", "2147483647", "2147483648", "-2147483648", "-2147483649", "+5", "007", " 1"] {
        assert_eq!(parse_i32_exec(s), s.parse::<i32>().ok(), "input {:?}", s);
    }
}

#[test]
fn decimal_then_parse_gives_the_number_back() {
    for n in [0i32, 1, -1, 99, i32::MAX, i32::MIN] {
        assert_eq!(parse_i32_exec(&decimal_i64(n as i64)), Some(n));
    }
}

#[test]
fn ids_are_written_in_hyphenated_form() {
    let u: u128 = 0x3bc0f83e28df5d9ba7e290a6c8f2fbb4;
    assert_eq!(
        skuffen_application::registration::skuffen_id_mangler(EntitetType::Sak, u),
        "Fant ikke skuffen_id for sak client_reference 3bc0f83e-28df-5d9b-a7e2-90a6c8f2fbb4"
    );
}

#[test]
fn rendered_id_is_version_five_of_the_document() {
    let r = rendered_dokument_id(DOK1);
    assert_ne!(r, DOK1);
    assert_eq!(uuid::Uuid::from_u128(r).get_version_num(), 5);
    assert_eq!(r, rendered_dokument_id(DOK1));
    assert_ne!(r, rendered_dokument_id(DOK2));
}

#[test]
fn new_ids_are_version_seven_and_distinct() {
    let a = ny_entitet(EntitetType::Sak, CR_SAK).skuffen_id;
    let b = ny_entitet(EntitetType::Sak, CR_SAK).skuffen_id;
    assert_ne!(a, b);
    assert_eq!(uuid::Uuid::from_u128(a).get_version_num(), 7);
    assert_ne!(a, CR_SAK);
}

// ---------------------------------------------------------------------------
// Backoff
// ---------------------------------------------------------------------------

#[test]
fn backoff_grows_to_a_day() {
    let expected = [60_000i64, 300_000, 900_000, 3_600_000, 21_600_000, 43_200_000, 86_400_000, 86_400_000];
    for (attempt, ms) in expected.iter().enumerate() {
        assert_eq!(backoff_delay_ms(attempt as u32), *ms);
    }
    assert_eq!(backoff_delay_ms(u32::MAX), 86_400_000);
    assert_eq!(neste_backoff_fra(1_000, 0), Some(61_000));
    assert_eq!(neste_backoff_fra(i64::MAX, 0), None);
    assert_eq!(retry_attempt(0), 0);
    assert_eq!(retry_attempt(1), 0);
    assert_eq!(retry_attempt(4), 3);
    let now = chrono::Utc::now().timestamp_millis();
    let next = neste_backoff(2).unwrap();
    assert!(next >= now + 900_000);
}

// ---------------------------------------------------------------------------
// Decomposition
// ---------------------------------------------------------------------------

#[test]
fn journalpost_plan_keeps_payload_order() {
    let command = utgaaende(SakKey::ArkivId("2024/17".to_string()));
    let (input, rader) = bygg_rader(&command, SAK, JP, &vec![DOK1, DOK2]).unwrap();
    match input {
        Dekomponeringsinput::OpprettJournalpost { sak_id, journalpost_id, journalposttype, med_utsending, dokumenter } => {
            assert_eq!((sak_id, journalpost_id), (SAK, JP));
            assert_eq!(journalposttype, JournalpostType::Utgaaende);
            assert!(med_utsending);
            assert_eq!(dokumenter.len(), 2);
            assert_eq!((dokumenter[0].dokument_id, dokumenter[0].rekkefolge, dokumenter[0].kilde), (DOK1, 0, Kildeform::Bytes));
            assert_eq!((dokumenter[1].dokument_id, dokumenter[1].rekkefolge, dokumenter[1].kilde), (DOK2, 1, Kildeform::HtmlTemplate));
        }
        other => panic!("{:?}", other),
    }
    assert_eq!(rader.sak.sak_id, SAK);
    assert_eq!(rader.sak.arkiv_id.as_deref(), Some("2024/17"));
    assert_eq!(rader.sak.client_reference, None);
    assert!(rader.sak.attributter.is_none());
    let jp = rader.journalpost.unwrap();
    assert_eq!(jp.client_reference, CR_JP);
    assert_eq!(jp.attributter.tittel, "Vedtak");
    assert_eq!(jp.attributter.tilgang.tilgangskode.as_deref(), Some("UO"));
    assert_eq!(jp.attributter.kildesystem.as_deref(), Some("fagsystem"));
    match &jp.attributter.korrespondanseparter {
        skuffen_application::command::Korrespondanseparter::Utsendingsmottakere(m) => assert_eq!(m[0].navn, "Ola"),
        other => panic!("{:?}", other),
    }
    assert_eq!(rader.dokumenter.len(), 2);
    assert_eq!(rader.dokumenter[1].client_reference, CR_D2);
    assert_eq!(rader.dokumenter[1].attributter.rekkefolge, 1);
    match &rader.dokumenter[1].attributter.kilde {
        Dokumentkilde::HtmlTemplate { mal_referanse, felter, rendered_dokument_referanse } => {
            assert_eq!(*mal_referanse, 6);
            assert_eq!(felter, &vec!["saksnummer".to_string()]);
            assert!(rendered_dokument_referanse.is_none());
        }
        other => panic!("{:?}", other),
    }
}

#[test]
fn case_commands_plan_the_case_row() {
    let (input, rader) = bygg_rader(&opprett_sak(), SAK, 0, &vec![]).unwrap();
    assert!(matches!(input, Dekomponeringsinput::OpprettSak { sak_id: SAK }));
    assert_eq!(rader.sak.client_reference, Some(CR_SAK));
    assert_eq!(rader.sak.attributter.as_ref().unwrap().sakstittel, "Tilsyn");
    assert!(rader.sak.attributter.as_ref().unwrap().tilgang.tilgangskode.is_none());

    let sett = Command::SettSaksansvarlig(SettSaksansvarligCommand {
        sak_key: SakKey::ClientReference(CR_SAK),
        saksbehandler_id: "Z9".to_string(),
        saksbehandler_enhet: "4200".to_string(),
    });
    let (input, rader) = bygg_rader(&sett, SAK, 0, &vec![]).unwrap();
    assert!(matches!(input, Dekomponeringsinput::SettSaksansvarlig { sak_id: SAK }));
    assert_eq!(rader.sak.oensket_saksansvarlig, Some(("Z9".to_string(), "4200".to_string())));
    assert_eq!(rader.sak.client_reference, Some(CR_SAK));

    let avslutt = Command::AvsluttSak(AvsluttSakCommand { sak_key: SakKey::ArkivId("2024/1".to_string()) });
    let (input, rader) = bygg_rader(&avslutt, SAK, 0, &vec![]).unwrap();
    assert!(matches!(input, Dekomponeringsinput::AvsluttSak { sak_id: SAK }));
    assert!(rader.journalpost.is_none());
    assert!(rader.sak.oensket_saksansvarlig.is_none());
}

#[test]
fn too_many_documents_is_refused() {
    assert_eq!(dokument_rekkefolge(65535), Ok(65535));
    assert_eq!(dokument_rekkefolge(65536), Err("for mange dokumenter på journalposten".to_string()));
}

#[test]
fn entity_type_mismatch_is_refused() {
    assert_eq!(sjekk_entitet_type(EntitetType::Sak, EntitetType::Sak), Ok(()));
    assert_eq!(
        sjekk_entitet_type(EntitetType::Journalpost, EntitetType::Sak),
        Err("entitet type mismatch for client reference: expected sak, got journalpost".to_string())
    );
}

#[test]
fn plan_gives_each_operation_a_new_id_and_the_case() {
    let (_, rader) = bygg_rader(&opprett_sak(), SAK, 0, &vec![]).unwrap();
    let specs = vec![
        OperasjonSpesifikasjon { operasjonstype: Operasjonstype::OpprettSak, entitet_id: EntitetId::Sak(SAK) },
        OperasjonSpesifikasjon { operasjonstype: Operasjonstype::SettSaksansvarlig, entitet_id: EntitetId::Sak(SAK) },
    ];
    let p = plan(77, rader, &specs);
    assert_eq!(p.command_id, 77);
    assert_eq!(p.operasjoner.len(), 2);
    assert_ne!(p.operasjoner[0].operasjon_id, p.operasjoner[1].operasjon_id);
    assert_eq!(p.operasjoner[1].operasjonstype, Operasjonstype::SettSaksansvarlig);
    assert_eq!(p.operasjoner[1].sak_id, SAK);
}

// ---------------------------------------------------------------------------
// Ingest
// ---------------------------------------------------------------------------

#[test]
fn journal_entry_command_mints_entry_and_documents_and_links_case_number() {
    let command = utgaaende(SakKey::ArkivId("2024/17".to_string()));
    let p = registreringsplan(&command);
    assert_eq!(p.arkiv_id.as_deref(), Some("2024/17"));
    assert_eq!(
        p.nye,
        vec![(EntitetType::Journalpost, CR_JP), (EntitetType::Dokument, CR_D1), (EntitetType::Dokument, CR_D2)]
    );
}

#[test]
fn only_opprett_sak_mints_a_case() {
    let p = registreringsplan(&opprett_sak());
    assert_eq!(p.nye, vec![(EntitetType::Sak, CR_SAK)]);
    assert!(p.arkiv_id.is_none());
    let avslutt = Command::AvsluttSak(AvsluttSakCommand { sak_key: SakKey::ClientReference(CR_SAK) });
    let p = registreringsplan(&avslutt);
    assert!(p.nye.is_empty());
    assert!(p.arkiv_id.is_none());
}

#[test]
fn new_entity_has_version_seven_id() {
    let e = ny_entitet(EntitetType::Dokument, CR_D1);
    assert_eq!(e.client_reference, Some(CR_D1));
    assert_eq!(uuid::Uuid::from_u128(e.skuffen_id).get_version_num(), 7);
}

#[test]
fn received_and_executing_messages_carry_context() {
    let envelope = CommandEnvelope {
        command_id: 1,
        correlation_id: Some(2),
        payload: utgaaende(SakKey::ClientReference(CR_SAK)),
    };
    let m = mottatt_status(&envelope);
    assert_eq!(m.hendelse, CommandEvent::Mottatt);
    assert_eq!(m.melding, "Forespørselen er mottatt.");
    assert_eq!(m.command_type, CommandTypeCode::OpprettUtgaaendeJournalpost);
    assert_eq!(m.kontekst.sak_client_reference, Some(uuid_str(CR_SAK)));
    assert_eq!(m.kontekst.journalpost_client_reference, Some(uuid_str(CR_JP)));
    assert_eq!(m.kontekst.dokument_client_references, vec![uuid_str(CR_D1), uuid_str(CR_D2)]);
    let u = utfores_status(&envelope);
    assert_eq!(u.hendelse, CommandEvent::Utfores);
    assert_eq!(u.melding, "Forespørselen utføres.");
}

// ---------------------------------------------------------------------------
// Registration
// ---------------------------------------------------------------------------

#[test]
fn journal_entry_registration_seeds_archive_case_then_entry_and_documents() {
    let key = SakKey::ArkivId("2024/17".to_string());
    let sak = resolved_sak_id(SAK, &key);
    assert!(matches!(&sak.origin, SakResolutionOrigin::ArkivId { saksnummer } if saksnummer == "2024/17"));
    let command = utgaaende(key);
    let p = entity_tilstander(&command, Some(&sak), Some(JP), &vec![DOK1, DOK2]);
    assert!(p.feil.is_none());
    assert_eq!(p.rader.len(), 4);
    assert!(matches!(&p.rader[0], TilstandRad::SeedArkivId { sak_id: SAK, saksnummer } if saksnummer == "2024/17"));
    assert!(matches!(p.rader[1], TilstandRad::Journalpost { journalpost_id: JP, sak_id: SAK, journalposttype: JournalpostType::Utgaaende, med_utsending: false }));
    match &p.rader[2] {
        TilstandRad::Dokument { dokument_id, tilstand, mal_referanse, felter, .. } => {
            assert_eq!(*dokument_id, DOK1);
            assert_eq!(*tilstand, DokumentTilstand::IkkeRealisert);
            assert_eq!(*mal_referanse, None);
            assert!(felter.is_empty());
        }
        other => panic!("{:?}", other),
    }
    match &p.rader[3] {
        TilstandRad::Dokument { dokument_id, tilstand, mal_referanse, felter, .. } => {
            assert_eq!(*dokument_id, DOK2);
            assert_eq!(*tilstand, DokumentTilstand::AvventerRendring);
            assert_eq!(*mal_referanse, Some(6));
            assert_eq!(felter, &vec!["saksnummer".to_string()]);
        }
        other => panic!("{:?}", other),
    }
}

#[test]
fn registration_stops_at_a_document_without_form() {
    let key = SakKey::ClientReference(CR_SAK);
    let sak = resolved_sak_id(SAK, &key);
    let command = utgaaende(key);
    let extra: u128 = 0x99999999_aaaa_4bbb_8ccc_dddddddddddd;
    let p = entity_tilstander(&command, Some(&sak), Some(JP), &vec![DOK1, DOK2, extra]);
    assert_eq!(p.rader.len(), 3);
    assert_eq!(p.feil, Some(format!("Mangler dokumentform for dokument {}", uuid_str(extra))));
}

#[test]
fn registration_reports_missing_ids() {
    let command = utgaaende(SakKey::ClientReference(CR_SAK));
    let p = entity_tilstander(&command, None, Some(JP), &vec![]);
    assert!(p.rader.is_empty());
    assert_eq!(p.feil.as_deref(), Some("Mangler sak_id for journalpost-kommando"));
    let sak = resolved_sak_id(SAK, &SakKey::ClientReference(CR_SAK));
    let p = entity_tilstander(&command, Some(&sak), None, &vec![]);
    assert_eq!(p.feil.as_deref(), Some("Mangler journalpost_id for journalpost-kommando"));
    let p = entity_tilstander(&opprett_sak(), None, None, &vec![]);
    assert_eq!(p.feil.as_deref(), Some("Mangler sak_id for OpprettSak"));
    let p = entity_tilstander(&opprett_sak(), Some(&sak), None, &vec![]);
    assert!(matches!(p.rader[..], [TilstandRad::Sak { sak_id: SAK }]));
}

#[test]
fn domain_command_needs_entry_for_journal_entry_types() {
    assert_eq!(
        domain_command_for_type(CommandTypeCode::AvsluttSak, SAK, None),
        Ok(DomeneKommando::AvsluttSak { sak_id: SAK })
    );
    assert_eq!(
        domain_command_for_type(CommandTypeCode::OpprettInngaaendeJournalpost, SAK, None),
        Err("Mangler journalpost_id for journalpost-kommando".to_string())
    );
    assert_eq!(
        domain_command_for_type(CommandTypeCode::OpprettInterntNotatJournalpost, SAK, Some(JP)),
        Ok(DomeneKommando::OpprettInterntNotatJournalpost { sak_id: SAK, journalpost_id: JP })
    );
}

#[test]
fn id_lookups_name_what_is_missing() {
    assert_eq!(id_eller_mangler(EntitetType::Sak, CR_SAK, Some(SAK)), Ok(SAK));
    assert_eq!(
        id_eller_mangler(EntitetType::Journalpost, CR_JP, None),
        Err(format!("Fant ikke skuffen_id for journalpost client_reference {}", uuid_str(CR_JP)))
    );
    let err = entitet_id_fra_oppslag(EntitetType::Dokument, CR_D1, Ok(None)).unwrap_err();
    assert_eq!(err.feiltype, EksekveringFeiltype::Recoverable);
    assert_eq!(err.melding, format!("Fant ikke skuffen_id for dokument client_reference {}", uuid_str(CR_D1)));
    let err = entitet_id_fra_oppslag(EntitetType::Dokument, CR_D1, Err("db nede".to_string())).unwrap_err();
    assert_eq!(err.melding, "db nede");
    let err = sak_id_fra_arkiv_oppslag("2024/17", Ok(None)).unwrap_err();
    assert_eq!(err.feiltype, EksekveringFeiltype::Blocked);
    assert_eq!(err.melding, "Fant ikke skuffen_id for sak arkiv_id 2024/17");
    assert_eq!(sak_id_fra_arkiv_oppslag("2024/17", Ok(Some(SAK))).unwrap(), SAK);
}

// ---------------------------------------------------------------------------
// Operations
// ---------------------------------------------------------------------------

fn metadata() -> CommandMetadata {
    CommandMetadata {
        command_id: 1,
        correlation_id: None,
        command_type: CommandTypeCode::AvsluttSak,
        kontekst: skuffen_application::command::Statuskontekst {
            sak_client_reference: None,
            saksnummer: Some("2024/17".to_string()),
            journalpost_client_reference: None,
            dokument_client_references: vec![],
        },
    }
}

#[test]
fn recoverable_archive_failure_retries_with_backoff_from_previous_attempt() {
    let feil = ArkivFeil {
        er_recoverable: true,
        siste_detalj: "timeout".to_string(),
        melding: "Arkivet svarte ikke.".to_string(),
        error_code: StatusErrorCode::TemporaryUnavailable,
    };
    match forsoksutfall(Arkivresultat::Feil(feil), 3) {
        Forsoksutfall::Retry { backoff_attempt, detalj, .. } => {
            assert_eq!(backoff_attempt, 2);
            assert_eq!(detalj, "timeout");
        }
        other => panic!("{:?}", other),
    }
    let feil = ArkivFeil {
        er_recoverable: false,
        siste_detalj: "avvist".to_string(),
        melding: "Arkivet avviste.".to_string(),
        error_code: StatusErrorCode::ProcessingFailed,
    };
    assert!(matches!(forsoksutfall(Arkivresultat::Feil(feil), 1), Forsoksutfall::Feilet { .. }));
    assert!(matches!(forsoksutfall(Arkivresultat::PollIgjen { om_ms: 500 }, 1), Forsoksutfall::Poll { om_ms: 500 }));
}

#[test]
fn decisions_become_handlings() {
    assert!(matches!(handling_for(Beslutning::Utfor), Handling::Utfor));
    match handling_for(Beslutning::Ugyldig("brudd".to_string())) {
        Handling::MarkerFeilet { detalj, melding, error_code } => {
            assert_eq!(detalj, "brudd");
            assert_eq!(melding, "Operasjonen kan ikke utføres.");
            assert_eq!(error_code, StatusErrorCode::ProcessingFailed);
        }
        other => panic!("{:?}", other),
    }
    match handling_for(Beslutning::AlleredeUtfort) {
        Handling::FullforUtenKall { melding } => assert_eq!(melding, "Allerede utført."),
        other => panic!("{:?}", other),
    }
}

#[test]
fn journal_entry_archive_id_must_be_numeric() {
    assert_eq!(krev_journalpost_arkiv_id(None), Err("intern_journalpost_arkiv_id_mangler"));
    assert_eq!(krev_journalpost_arkiv_id(Some("12x")), Err("intern_journalpost_arkiv_id_ikke_numerisk"));
    assert_eq!(krev_journalpost_arkiv_id(Some("-7")), Ok(-7));
}

#[test]
fn evaluation_pass_tallies_each_decision_once() {
    let service = EvaluerOperasjonerService::new((), (), 100);
    let (handlinger, tally) = service.evaluer(&vec![
        Beslutning::Utfor,
        Beslutning::Blokkert("venter".to_string()),
        Beslutning::AlleredeUtfort,
        Beslutning::Ugyldig("brudd".to_string()),
        Beslutning::Utfor,
    ]);
    assert_eq!((tally.vurdert, tally.frigjort, tally.allerede_utfort, tally.ugyldig), (5, 2, 1, 1));
    assert!(matches!(handlinger[0], Evalueringshandling::MarkerKlar));
    assert!(matches!(&handlinger[1], Evalueringshandling::MarkerBlokkert { detalj } if detalj == "venter"));
    assert!(matches!(handlinger[2], Evalueringshandling::FullforOk));
}

#[test]
fn command_level_messages_follow_the_fold() {
    let m = metadata();
    assert!(command_outcome_status(&m, CommandOutcome::Uavklart).is_none());
    let s = command_outcome_status(&m, CommandOutcome::Feilet).unwrap();
    assert_eq!(s.hendelse, CommandEvent::Feilet);
    assert_eq!(s.melding, "Forespørselen kunne ikke fullføres.");
    assert_eq!(s.error_code, Some(StatusErrorCode::ProcessingFailed));
    assert_eq!(s.kontekst.saksnummer.as_deref(), Some("2024/17"));
    assert!(uavklart_command_status(&m, CommandOutcome::Feilet).is_none());
    let s = uavklart_command_status(&m, CommandOutcome::KreverAvklaring).unwrap();
    assert_eq!(s.melding, "Utfallet er ukjent og må avklares manuelt.");
    let v = varsel_status(&m, 5, Operasjonstype::Avskriv);
    assert_eq!(v.hendelse, Operasjonshendelse::Varsel);
    assert_eq!(v.attempt_no, 0);
    assert_eq!(v.melding, "Operasjonen har ikke fullført innen fristen. Forsøkene fortsetter.");
    assert_eq!(v.error_code, Some(StatusErrorCode::PrerequisitePending));
}

#[test]
fn worker_settings_default_to_a_daily_warning() {
    let s = skuffen_application::operasjon::WorkerInnstillinger::default();
    assert_eq!(s.varselintervall_ms, 30_000);
    assert_eq!(s.tomgangspause_ms, 2_000);
    assert_eq!(s.lederforsok_intervall_ms, 5_000);
    assert_eq!(s.varselfrist_ms, 86_400_000);
    assert_eq!(skuffen_application::operasjon::varselgrense(100_000_000, &s), Some(13_600_000));
    assert_eq!(skuffen_application::operasjon::varselgrense(i64::MIN, &s), None);
}

fn sikri_feil(er_recoverable: bool, kode: &str, melding: &str, error_code: StatusErrorCode) -> ArkivFeil {
    ArkivFeil {
        er_recoverable,
        siste_detalj: kode.to_string(),
        melding: melding.to_string(),
        error_code,
    }
}

#[test]
fn irrecoverable_arkivfeil_gir_terminal_feilet_ikke_retry() {
    let feil = sikri_feil(
        false,
        "sikri_unknown_user",
        "Ugyldig saksbehandler/systembruker: brukeren finnes ikke i ePhorte.",
        StatusErrorCode::InvalidRequest,
    );
    match forsoksutfall(Arkivresultat::Feil(feil), 1) {
        Forsoksutfall::Feilet { detalj, melding, error_code } => {
            assert_eq!(detalj, "sikri_unknown_user");
            let status = skuffen_application::operasjon::operasjon_status(
                &metadata(),
                9,
                Operasjonstype::OpprettSak,
                Operasjonshendelse::Feilet,
                1,
                &melding,
                Some(error_code),
            );
            assert_eq!(status.hendelse, Operasjonshendelse::Feilet);
            assert!(skuffen_application::operasjon::er_terminal(status.hendelse));
            assert_eq!(status.melding, "Ugyldig saksbehandler/systembruker: brukeren finnes ikke i ePhorte.");
            assert_eq!(status.error_code, Some(StatusErrorCode::InvalidRequest));
        }
        other => panic!("{:?}", other),
    }
}

#[test]
fn recoverable_arkivfeil_gir_retry_ikke_terminal_feil() {
    let feil = sikri_feil(
        true,
        "sikri_upstream_unavailable",
        "Sikri/Elements er midlertidig utilgjengelig. Prøv igjen senere.",
        StatusErrorCode::TemporaryUnavailable,
    );
    match forsoksutfall(Arkivresultat::Feil(feil), 1) {
        Forsoksutfall::Retry { detalj, error_code, backoff_attempt, .. } => {
            assert_eq!(detalj, "sikri_upstream_unavailable");
            assert_eq!(error_code, StatusErrorCode::TemporaryUnavailable);
            assert_eq!(backoff_attempt, 0);
            assert!(!skuffen_application::operasjon::er_terminal(Operasjonshendelse::ForsokFeilet));
        }
        other => panic!("{:?}", other),
    }
}

#[test]
fn allerede_feilet_kommando_faar_ikke_krever_avklaring_i_tillegg() {
    let m = metadata();
    let status = skuffen_application::operasjon::krever_avklaring_status(&m, 5, Operasjonstype::Avskriv);
    assert_eq!(status.hendelse, Operasjonshendelse::KreverAvklaring);
    assert!(uavklart_command_status(&m, CommandOutcome::Feilet).is_none());
    assert!(uavklart_command_status(&m, CommandOutcome::KreverAvklaring).is_some());
}

fn uuid_of(s: &str) -> u128 {
    uuid::Uuid::parse_str(s).unwrap().as_u128()
}

#[test]
fn sequence_create_case_note_and_close_mints_and_plans_in_order() {
    let sak_ref = uuid_of("22222222-2222-4222-8222-222222222222");
    let jp_ref = uuid_of("44444444-4444-4444-8444-444444444444");
    let dok_ref = uuid_of("55555555-5555-4555-8555-555555555555");
    let opprett = Command::OpprettSak(OpprettSakCommand {
        client_reference: sak_ref,
        sakstittel: "Manual test sak".to_string(),
        arkivdel: "Tilsynsdivisjonene".to_string(),
        saksbehandler_id: "Z12345".to_string(),
        saksbehandler_enhet: "42".to_string(),
        ordningsverdi: "123".to_string(),
        tilgjengelighet: Tilgjengelighet::Offentlig,
    });
    let notat = Command::OpprettInterntNotatJournalpost(OpprettJournalpostCommand::InterntNotat {
        felles: JournalpostCommon {
            client_reference: jp_ref,
            tittel: "Manual test internt notat".to_string(),
            dokument_dato: "2025-01-01".to_string(),
            saksbehandler: "Z12345".to_string(),
            saksbehandler_enhet: "42".to_string(),
            tilgjengelighet: Tilgjengelighet::Offentlig,
            dokumenter: vec![Dokument {
                client_reference: dok_ref,
                tittel: "Vedlegg".to_string(),
                form: Dokumentform::Bytes {
                    dokument_referanse: uuid_of("66666666-6666-4666-8666-666666666666"),
                    filtype: "PDF".to_string(),
                },
            }],
            sak_key: SakKey::ClientReference(sak_ref),
            kildesystem: None,
        },
    });
    let avslutt = Command::AvsluttSak(AvsluttSakCommand { sak_key: SakKey::ClientReference(sak_ref) });

    assert_eq!(registreringsplan(&opprett).nye, vec![(EntitetType::Sak, sak_ref)]);
    assert_eq!(
        registreringsplan(&notat).nye,
        vec![(EntitetType::Journalpost, jp_ref), (EntitetType::Dokument, dok_ref)]
    );
    assert!(registreringsplan(&avslutt).nye.is_empty());

    let (input, rader) = bygg_rader(&notat, SAK, JP, &vec![DOK1]).unwrap();
    assert!(matches!(
        input,
        Dekomponeringsinput::OpprettJournalpost { journalposttype: JournalpostType::InterntNotat, med_utsending: false, .. }
    ));
    assert_eq!(rader.sak.client_reference, Some(sak_ref));
    assert!(matches!(
        rader.journalpost.unwrap().attributter.korrespondanseparter,
        skuffen_application::command::Korrespondanseparter::Ingen
    ));
    assert_eq!(rader.dokumenter[0].attributter.tittel, "Vedlegg");
}

#[test]
fn envelope_conversions_keep_the_envelope() {
    let envelope = CommandEnvelope {
        command_id: 7,
        correlation_id: Some(8),
        payload: utgaaende(SakKey::ClientReference(CR_SAK)),
    };
    let validated = envelope.into_command_envelope();
    assert_eq!(validated.command_id, 7);
    assert_eq!(validated.correlation_id, Some(8));
    assert!(matches!(validated.payload, Command::OpprettUtgaaendeJournalpost(_)));
    let executed = validated.into_executor_envelope();
    assert_eq!(executed.command_id, 7);
    assert_eq!(executed.correlation_id, Some(8));
    assert!(matches!(executed.payload, Command::OpprettUtgaaendeJournalpost(_)));
}

#[test]
fn neste_backoff_always_gives_a_time_after_the_wait() {
    for attempt in [0u32, 1, 5, 6, 1_000, u32::MAX] {
        let before = chrono::Utc::now().timestamp_millis();
        let next = neste_backoff(attempt).expect("a clock reading plus the wait fits");
        assert!(next >= before + backoff_delay_ms(attempt));
    }
}

#[test]
fn poll_waits_what_the_archive_asks_or_an_hour() {
    assert_eq!(poll_ventetid_ms(60_000), 60_000);
    assert_eq!(poll_ventetid_ms(i64::MAX as u64), i64::MAX);
    assert_eq!(poll_ventetid_ms(i64::MAX as u64 + 1), 3_600_000);
    assert_eq!(poll_ventetid_ms(u64::MAX), 3_600_000);
    assert_eq!(neste_poll_fra(1_000, 5), Some(1_005));
    assert_eq!(neste_poll_fra(1_000, u64::MAX), Some(3_601_000));
    assert_eq!(neste_poll_fra(1, i64::MAX as u64), None);
    let before = chrono::Utc::now().timestamp_millis();
    let next = neste_poll(u64::MAX).unwrap();
    assert!(next >= before + 3_600_000);
}

#[test]
fn decomposition_needs_a_registered_entity_of_the_expected_kind() {
    assert_eq!(registrert_entitet_id(Some((EntitetType::Sak, 5)), EntitetType::Sak), Ok(5));
    assert_eq!(
        registrert_entitet_id(None, EntitetType::Sak),
        Err("no entitet registered for client reference".to_string())
    );
    assert_eq!(
        registrert_entitet_id(Some((EntitetType::Journalpost, 5)), EntitetType::Sak),
        Err("entitet type mismatch for client reference: expected sak, got journalpost".to_string())
    );
}
