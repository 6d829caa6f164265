use skuffen_application::archive_steps::{
    avskriv_skrivinger, avskrivningsmaate, avslutt_sak_saksnummer, avslutt_sak_skrivinger,
    journalfoer_skrivinger, journalpost_med_nummer, legg_til_dokument_skrivinger,
    opprett_journalpost_forutsetning, opprett_journalpost_skrivinger, opprett_sak_skrivinger,
    render_ferdig_skrivinger, render_marker_ok_skrivinger, render_substitusjonsfeil, rendered_fil,
    vedleggsfeil_skrivinger, velg_dokument_client_reference, Nummersteg, SakTilstand, Skriving,
};
use skuffen_application::decomposition::{Dokumentkilde, EntitetType};
use skuffen_application::execution::{
    finn_dokument, finn_journalpost, render_start, DokumentMedTilstand, DokumentTilstand, Renderstart,
    JournalpostMedDokumenter, JournalpostTilstand, SakMedBarn, Utsendingsvalg,
};
use skuffen_application::execution_detail::{EksekveringFeil, EksekveringFeiltype};
use skuffen_application::operasjon::krev_journalpost_arkiv_id;
use skuffen_application::readiness::JournalpostType;
use skuffen_application::render_diagnostic::HtmlTemplateFeil;

const SAK: u128 = 0x11111111_2222_7333_8444_555555555555;
const JP: u128 = 0x22222222_3333_7444_8555_666666666666;
const DOK: u128 = 0x33333333_4444_7555_8666_777777777777;
const DOK2: u128 = 0x44444444_5555_7666_8777_888888888888;
const CR: u128 = 0x55555555_6666_4777_8888_999999999999;

fn uuid_str(u: u128) -> String {
    uuid::Uuid::from_u128(u).to_string()
}

fn bytes_dok(id: u128) -> DokumentMedTilstand {
    DokumentMedTilstand {
        dokument_id: id,
        tilstand: DokumentTilstand::IkkeRealisert,
        kilde: Dokumentkilde::Bytes { dokument_referanse: 7, filtype: "pdf".to_string() },
    }
}

fn mal_dok(id: u128) -> DokumentMedTilstand {
    DokumentMedTilstand {
        dokument_id: id,
        tilstand: DokumentTilstand::AvventerRendring,
        kilde: Dokumentkilde::HtmlTemplate {
            mal_referanse: 9,
            felter: vec!["saksnummer".to_string()],
            rendered_dokument_referanse: None,
        },
    }
}

fn journalpost(nummer: Option<i32>, dokumenter: Vec<DokumentMedTilstand>) -> JournalpostMedDokumenter {
    JournalpostMedDokumenter {
        journalpost_id: JP,
        journalposttype: JournalpostType::Utgaaende,
        med_utsending: true,
        tilstand: JournalpostTilstand::Opprettet,
        journalpostnummer: nummer,
        sikri_id: Some(4711),
        dokumenter,
    }
}

fn sak(saksnummer: Option<&str>, journalposter: Vec<JournalpostMedDokumenter>) -> SakMedBarn {
    SakMedBarn {
        sak_id: SAK,
        saksnummer: saksnummer.map(|s| s.to_string()),
        sikri_id: Some(99),
        journalposter,
    }
}

fn overgang(w: &Skriving) -> (EntitetType, u128, String, String, String, Option<String>) {
    match w {
        Skriving::Overgang { entitet, entitet_id, fra, til, steg, melding } => {
            (*entitet, *entitet_id, fra.clone(), til.clone(), steg.clone(), melding.clone())
        }
        other => panic!("expected a transition, got {:?}", other),
    }
}

#[test]
fn opprett_sak_records_case_number_under_client_reference() {
    let ws = opprett_sak_skrivinger(SAK, Some(CR), "2024/17");
    assert_eq!(ws.len(), 3);
    match &ws[0] {
        Skriving::ArkivId { client_reference, arkiv_id } => {
            assert_eq!(*client_reference, CR);
            assert_eq!(arkiv_id, "2024/17");
        }
        other => panic!("{:?}", other),
    }
    match &ws[1] {
        Skriving::Sak { sak_id, tilstand, sikri_id, saksnummer } => {
            assert_eq!(*sak_id, SAK);
            assert_eq!(*tilstand, SakTilstand::Opprettet);
            assert_eq!(*sikri_id, None);
            assert_eq!(saksnummer.as_deref(), Some("2024/17"));
        }
        other => panic!("{:?}", other),
    }
    let (entitet, id, fra, til, steg, melding) = overgang(&ws[2]);
    assert_eq!((entitet, id), (EntitetType::Sak, SAK));
    assert_eq!((fra.as_str(), til.as_str(), steg.as_str()), ("ikke_realisert", "opprettet", "opprett_sak"));
    assert_eq!(melding, None);
}

#[test]
fn opprett_sak_without_client_reference_writes_no_mapping() {
    let ws = opprett_sak_skrivinger(SAK, None, "2024/17");
    assert_eq!(ws.len(), 2);
    assert!(matches!(ws[0], Skriving::Sak { .. }));
}

#[test]
fn avslutt_sak_waits_without_case_number() {
    let s = sak(None, vec![]);
    let err = avslutt_sak_saksnummer(&s).unwrap_err();
    assert_eq!(err.feiltype, EksekveringFeiltype::Blocked);
    assert_eq!(err.melding, "Kan ikke avslutte sak: saksnummer mangler");

    let s = sak(Some("2024/17"), vec![]);
    let nummer = avslutt_sak_saksnummer(&s).unwrap();
    assert_eq!(nummer, "2024/17");
    let ws = avslutt_sak_skrivinger(&s, &nummer);
    match &ws[0] {
        Skriving::Sak { tilstand, sikri_id, .. } => {
            assert_eq!(*tilstand, SakTilstand::Avsluttet);
            assert_eq!(*sikri_id, Some(99));
        }
        other => panic!("{:?}", other),
    }
    let (_, _, fra, til, steg, _) = overgang(&ws[1]);
    assert_eq!((fra.as_str(), til.as_str(), steg.as_str()), ("opprettet", "avsluttet", "avslutt_sak"));
}

#[test]
fn opprett_journalpost_needs_entry_then_case_number() {
    let missing = sak(Some("2024/17"), vec![]);
    let err = opprett_journalpost_forutsetning(&missing, JP).unwrap_err();
    assert_eq!(err.feiltype, EksekveringFeiltype::Recoverable);
    assert_eq!(err.melding, format!("Fant ikke journalpost {} i sak {}", uuid_str(JP), uuid_str(SAK)));

    let uten_nummer = sak(None, vec![journalpost(None, vec![])]);
    let err = opprett_journalpost_forutsetning(&uten_nummer, JP).unwrap_err();
    assert_eq!(err.feiltype, EksekveringFeiltype::Blocked);
    assert_eq!(err.melding, "Saksnummer mangler for opprett_journalpost");

    let klar = sak(Some("2024/17"), vec![journalpost(None, vec![])]);
    let (jp, saksnummer, utsending) = opprett_journalpost_forutsetning(&klar, JP).unwrap();
    assert_eq!(jp.journalpost_id, JP);
    assert_eq!(saksnummer, "2024/17");
    assert_eq!(utsending, Some(Utsendingsvalg::MedUtsending));
}

#[test]
fn opprett_journalpost_marks_byte_main_document_done() {
    let jp = journalpost(None, vec![bytes_dok(DOK), mal_dok(DOK2)]);
    let ws = opprett_journalpost_skrivinger(&jp, Some(CR), 4242);
    assert_eq!(ws.len(), 5);
    match &ws[0] {
        Skriving::ArkivId { client_reference, arkiv_id } => {
            assert_eq!(*client_reference, CR);
            assert_eq!(arkiv_id, "4242");
        }
        other => panic!("{:?}", other),
    }
    match &ws[1] {
        Skriving::Journalpost { journalpost_id, tilstand, sikri_id, journalpostnummer } => {
            assert_eq!(*journalpost_id, JP);
            assert_eq!(*tilstand, JournalpostTilstand::Opprettet);
            assert_eq!(*sikri_id, Some(4242));
            assert_eq!(*journalpostnummer, Some(4242));
        }
        other => panic!("{:?}", other),
    }
    match &ws[3] {
        Skriving::Dokument { dokument_id, tilstand } => {
            assert_eq!(*dokument_id, DOK);
            assert_eq!(*tilstand, DokumentTilstand::Ferdig);
        }
        other => panic!("{:?}", other),
    }
    let (entitet, id, fra, til, steg, _) = overgang(&ws[4]);
    assert_eq!((entitet, id), (EntitetType::Dokument, DOK));
    assert_eq!((fra.as_str(), til.as_str(), steg.as_str()), ("ikke_realisert", "ok", "opprett_journalpost"));
}

#[test]
fn opprett_journalpost_leaves_template_main_document_alone() {
    let jp = journalpost(None, vec![mal_dok(DOK)]);
    let ws = opprett_journalpost_skrivinger(&jp, None, -12);
    assert_eq!(ws.len(), 2);
}

#[test]
fn recorded_entry_number_reads_back_as_the_number() {
    for n in [0, 7, 4242, -12, i32::MAX, i32::MIN] {
        let jp = journalpost(None, vec![]);
        let ws = opprett_journalpost_skrivinger(&jp, Some(CR), n);
        let tekst = match &ws[0] {
            Skriving::ArkivId { arkiv_id, .. } => arkiv_id.clone(),
            other => panic!("{:?}", other),
        };
        assert_eq!(tekst, n.to_string());
        assert_eq!(krev_journalpost_arkiv_id(Some(&tekst)), Ok(n));
    }
}

#[test]
fn journalpost_number_is_needed_by_later_steps() {
    let s = sak(Some("1"), vec![journalpost(None, vec![])]);
    for (steg, tekst) in [
        (Nummersteg::LeggTilDokument, "Journalpostnummer mangler for legg_til_dokument"),
        (Nummersteg::Journalfoering, "Journalpostnummer mangler for journalfoering"),
        (Nummersteg::Avskriving, "Journalpostnummer mangler for avskriving"),
    ] {
        let err = journalpost_med_nummer(&s, JP, steg).unwrap_err();
        assert_eq!(err.feiltype, EksekveringFeiltype::Blocked);
        assert_eq!(err.melding, tekst);
    }
    let s = sak(Some("1"), vec![journalpost(Some(31), vec![])]);
    let (jp, n) = journalpost_med_nummer(&s, JP, Nummersteg::Journalfoering).unwrap();
    assert_eq!(jp.journalpost_id, JP);
    assert_eq!(n, 31);
    let err = journalpost_med_nummer(&s, DOK, Nummersteg::Avskriving).unwrap_err();
    assert_eq!(err.feiltype, EksekveringFeiltype::Recoverable);
}

#[test]
fn journalfoering_of_dispatched_entry_waits_for_dispatch() {
    let jp = journalpost(Some(31), vec![]);
    let ws = journalfoer_skrivinger(&jp, 31);
    match &ws[0] {
        Skriving::Journalpost { tilstand, sikri_id, journalpostnummer, .. } => {
            assert_eq!(*tilstand, JournalpostTilstand::VenterPaaUtsending);
            assert_eq!(*sikri_id, Some(4711));
            assert_eq!(*journalpostnummer, Some(31));
        }
        other => panic!("{:?}", other),
    }
    let (_, _, fra, til, steg, _) = overgang(&ws[1]);
    assert_eq!((fra.as_str(), til.as_str(), steg.as_str()), ("opprettet", "venter_paa_utsending", "journalfoer"));

    let mut intern = journalpost(Some(31), vec![]);
    intern.journalposttype = JournalpostType::InterntNotat;
    let ws = journalfoer_skrivinger(&intern, 31);
    let (_, _, _, til, _, _) = overgang(&ws[1]);
    assert_eq!(til, "journalfoert");
}

#[test]
fn avskriving_writes_off_the_entry() {
    assert_eq!(avskrivningsmaate(), "TE");
    let jp = journalpost(Some(31), vec![]);
    let ws = avskriv_skrivinger(&jp, 31);
    match &ws[0] {
        Skriving::Journalpost { tilstand, .. } => assert_eq!(*tilstand, JournalpostTilstand::Avskrevet),
        other => panic!("{:?}", other),
    }
    let (_, _, fra, til, steg, _) = overgang(&ws[1]);
    assert_eq!((fra.as_str(), til.as_str(), steg.as_str()), ("opprettet", "avskrevet", "avskriv"));
}

#[test]
fn document_client_reference_is_the_first_that_resolves() {
    let refs = vec![1u128, 2, 3];
    let resolved = vec![Some(DOK2), Some(DOK), Some(DOK)];
    assert_eq!(velg_dokument_client_reference(&refs, &resolved, DOK).unwrap(), 2);
    let err = velg_dokument_client_reference(&refs, &vec![None, None, None], DOK).unwrap_err();
    assert_eq!(err.feiltype, EksekveringFeiltype::Recoverable);
    assert_eq!(err.melding, format!("Fant ikke client_reference for dokument {}", uuid_str(DOK)));
}

#[test]
fn attachment_failure_fails_document_only_when_irrecoverable() {
    let feil = EksekveringFeil::irrecoverable("sikri_missing_document_content".to_string());
    let ws = vedleggsfeil_skrivinger(DOK, &feil);
    assert_eq!(ws.len(), 2);
    let (_, _, fra, til, steg, melding) = overgang(&ws[1]);
    assert_eq!((fra.as_str(), til.as_str(), steg.as_str()), ("ikke_realisert", "feilet_permanent", "legg_til_dokument"));
    assert_eq!(melding.as_deref(), Some("sikri_missing_document_content"));

    let feil = EksekveringFeil::recoverable("execution_error".to_string());
    assert!(vedleggsfeil_skrivinger(DOK, &feil).is_empty());
}

#[test]
fn attachment_records_archive_id_when_answered() {
    let ws = legg_til_dokument_skrivinger(DOK, CR, Some(Some(-5)));
    assert_eq!(ws.len(), 3);
    match &ws[0] {
        Skriving::ArkivId { client_reference, arkiv_id } => {
            assert_eq!(*client_reference, CR);
            assert_eq!(arkiv_id, "-5");
        }
        other => panic!("{:?}", other),
    }
    assert_eq!(legg_til_dokument_skrivinger(DOK, CR, Some(None)).len(), 2);
    assert_eq!(legg_til_dokument_skrivinger(DOK, CR, None).len(), 2);
}

#[test]
fn rendering_steps_write_their_states() {
    let ws = render_marker_ok_skrivinger(DOK);
    assert_eq!(ws.len(), 1);

    let (ws, err) = render_substitusjonsfeil(DOK, HtmlTemplateFeil::UkjentToken);
    assert_eq!(err.feiltype, EksekveringFeiltype::Irrecoverable);
    assert_eq!(err.melding, "render_token_substitution_failed reason=ukjent_token");
    let (_, _, fra, til, _, melding) = overgang(&ws[1]);
    assert_eq!((fra.as_str(), til.as_str()), ("avventer_rendring", "feilet_permanent"));
    assert_eq!(melding.as_deref(), Some("HTML-mal inneholder ukjent token"));

    let ws = render_ferdig_skrivinger(DOK, 77);
    assert!(matches!(ws[0], Skriving::RenderedReferanse { dokument_id: DOK, rendered_id: 77 }));
    let (_, _, fra, til, steg, _) = overgang(&ws[2]);
    assert_eq!((fra.as_str(), til.as_str(), steg.as_str()), ("avventer_rendring", "ok", "render_dokument"));
}

#[test]
fn rendered_file_is_named_after_its_stable_id() {
    let a = rendered_fil(DOK, 1, 2);
    let b = rendered_fil(DOK, 3, 4);
    assert_eq!(a.id, b.id);
    assert_ne!(a.id, DOK);
    let ns = uuid::Uuid::parse_str("3bc0f83e-28df-5d9b-a7e2-90a6c8f2fbb4").unwrap();
    let expected = uuid::Uuid::new_v5(&ns, uuid::Uuid::from_u128(DOK).as_bytes());
    assert_eq!(a.id, expected.as_u128());
    assert_eq!(a.filename, format!("{}.pdf", expected));
    assert_eq!(a.content_type, "application/pdf");
    assert_eq!(a.origin, "skuffen_html_template_renderer");
    assert_eq!((a.source_template_reference, a.source_document_id, a.source_command_id), (1, DOK, 2));
}

#[test]
fn documents_are_found_in_the_first_entry_with_the_id() {
    let s = sak(Some("1"), vec![journalpost(Some(1), vec![bytes_dok(DOK)])]);
    assert_eq!(finn_dokument(&s, JP, DOK).unwrap().dokument_id, DOK);
    let err = finn_dokument(&s, JP, DOK2).unwrap_err();
    assert_eq!(
        err.melding,
        format!("render_dokument_mangler dokument_id={} journalpost_id={}", uuid_str(DOK2), uuid_str(JP))
    );
    let err = finn_dokument(&s, SAK, DOK).unwrap_err();
    assert_eq!(
        err.melding,
        format!("render_journalpost_mangler journalpost_id={} dokument_id={}", uuid_str(SAK), uuid_str(DOK))
    );
    assert!(finn_journalpost(&s, JP).is_ok());
}

#[test]
fn documents_are_taken_only_from_the_first_entry_with_the_id() {
    let s = sak(
        Some("1"),
        vec![
            journalpost(Some(1), vec![bytes_dok(DOK2), mal_dok(DOK), bytes_dok(DOK)]),
            journalpost(Some(2), vec![bytes_dok(SAK)]),
        ],
    );
    let d = finn_dokument(&s, JP, DOK).unwrap();
    assert_eq!(d.dokument_id, DOK);
    assert_eq!(d.tilstand, DokumentTilstand::AvventerRendring);
    let err = finn_dokument(&s, JP, SAK).unwrap_err();
    assert_eq!(err.feiltype, EksekveringFeiltype::Recoverable);
    assert_eq!(
        err.melding,
        format!("render_dokument_mangler dokument_id={} journalpost_id={}", uuid_str(SAK), uuid_str(JP))
    );
}

/// The store's document after a list of writes, as far as they touch it.
fn etter(mut d: DokumentMedTilstand, ws: &[Skriving]) -> DokumentMedTilstand {
    for w in ws {
        match w {
            Skriving::Dokument { dokument_id, tilstand } if *dokument_id == d.dokument_id => d.tilstand = *tilstand,
            Skriving::RenderedReferanse { dokument_id, rendered_id } if *dokument_id == d.dokument_id => {
                if let Dokumentkilde::HtmlTemplate { rendered_dokument_referanse, .. } = &mut d.kilde {
                    *rendered_dokument_referanse = Some(*rendered_id);
                }
            }
            _ => {}
        }
    }
    d
}

#[test]
fn html_template_med_rendered_referanse_fullfoerer_retry_uten_rendering() {
    let s = sak(None, vec![]);
    let mut d = mal_dok(DOK);
    if let Dokumentkilde::HtmlTemplate { rendered_dokument_referanse, .. } = &mut d.kilde {
        *rendered_dokument_referanse = Some(77);
    }
    // The first handling marks the document done without rendering, even
    // without a case number.
    assert!(matches!(render_start(&s, &d, JP), Ok(Renderstart::MarkerOk)));
    let ws = render_marker_ok_skrivinger(DOK);
    assert!(matches!(ws.as_slice(), [Skriving::Dokument { dokument_id: DOK, tilstand: DokumentTilstand::Ferdig }]));
    // The next handling finds nothing left to render.
    let d = etter(d, &ws);
    assert!(matches!(render_start(&s, &d, JP), Ok(Renderstart::AlleredeOk)));
}

#[test]
fn an_interrupted_rendering_is_finished_not_redone() {
    let s = sak(Some("2026/1"), vec![]);
    let ws = render_ferdig_skrivinger(DOK, 77);
    let avbrutt = etter(mal_dok(DOK), &ws[..1]);
    assert!(matches!(render_start(&s, &avbrutt, JP), Ok(Renderstart::MarkerOk)));
    let ferdig = etter(mal_dok(DOK), &ws);
    assert!(matches!(render_start(&s, &ferdig, JP), Ok(Renderstart::AlleredeOk)));
}
