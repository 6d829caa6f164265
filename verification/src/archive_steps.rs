//! The archive steps of the command executor: what each step needs before it
//! calls the archive, and what it writes once the call has succeeded.
//!
//! A step's writes are handed back as a list, in the order the state store
//! gets them; the caller performs the archive call and the writes.
use vstd::prelude::*;

use crate::decomposition::{Dokumentkilde, EntitetType};
use crate::execution::{
    render_start_gir, DokumentMedTilstand, Renderstart,
    er_forste, finn_journalpost, journalpost_missing_text, resolve_utsending, tilstand_str,
    tilstand_text, DokumentTilstand, JournalpostMedDokumenter, JournalpostTilstand, SakMedBarn,
    Utsendingsvalg,
};
use crate::readiness::JournalpostType;
use crate::execution_detail::{EksekveringFeil, EksekveringFeiltype};
use crate::ids::{hyphenated, rendered_dokument_id, uuid_text, uuid_v5, RENDERED_DOKUMENT_NAMESPACE};
use crate::render_diagnostic::{
    render_token_substitution_failed, substitution_failed_text, template_feil_melding,
    template_message, HtmlTemplateFeil,
};
use crate::text::{append_chars, chars_of, string_of};
use crate::parse::{decimal, decimal_i64, law_decimal_parse_roundtrip, parse_i32};

verus! {

/// The stored state of a case.
#[derive(PartialEq, Eq, Structural, Clone, Copy, Debug)]
pub enum SakTilstand {
    IkkeRealisert,
    Opprettet,
    Avsluttet,
}

/// One write to the state store.
#[derive(Debug)]
pub enum Skriving {
    Sak { sak_id: u128, tilstand: SakTilstand, sikri_id: Option<i64>, saksnummer: Option<String> },
    Journalpost {
        journalpost_id: u128,
        tilstand: JournalpostTilstand,
        sikri_id: Option<i64>,
        journalpostnummer: Option<i32>,
    },
    Dokument { dokument_id: u128, tilstand: DokumentTilstand },
    /// The id under which a document's rendered PDF is stored.
    RenderedReferanse { dokument_id: u128, rendered_id: u128 },
    /// The archive's id for a client's reference.
    ArkivId { client_reference: u128, arkiv_id: String },
    /// An entry in the transition log.
    Overgang {
        entitet: EntitetType,
        entitet_id: u128,
        fra: String,
        til: String,
        steg: String,
        melding: Option<String>,
    },
}

/// The abstract value of a write.
pub enum SkrivingView {
    Sak { sak_id: u128, tilstand: SakTilstand, sikri_id: Option<i64>, saksnummer: Option<Seq<char>> },
    Journalpost {
        journalpost_id: u128,
        tilstand: JournalpostTilstand,
        sikri_id: Option<i64>,
        journalpostnummer: Option<i32>,
    },
    Dokument { dokument_id: u128, tilstand: DokumentTilstand },
    RenderedReferanse { dokument_id: u128, rendered_id: u128 },
    ArkivId { client_reference: u128, arkiv_id: Seq<char> },
    Overgang {
        entitet: EntitetType,
        entitet_id: u128,
        fra: Seq<char>,
        til: Seq<char>,
        steg: Seq<char>,
        melding: Option<Seq<char>>,
    },
}

pub open spec fn opt_text(o: Option<String>) -> Option<Seq<char>> {
    match o {
        Some(s) => Some(s@),
        None => None,
    }
}

impl View for Skriving {
    type V = SkrivingView;

    open spec fn view(&self) -> SkrivingView {
        match self {
            Skriving::Sak { sak_id, tilstand, sikri_id, saksnummer } => SkrivingView::Sak {
                sak_id: *sak_id,
                tilstand: *tilstand,
                sikri_id: *sikri_id,
                saksnummer: opt_text(*saksnummer),
            },
            Skriving::Journalpost { journalpost_id, tilstand, sikri_id, journalpostnummer } => {
                SkrivingView::Journalpost {
                    journalpost_id: *journalpost_id,
                    tilstand: *tilstand,
                    sikri_id: *sikri_id,
                    journalpostnummer: *journalpostnummer,
                }
            },
            Skriving::Dokument { dokument_id, tilstand } => SkrivingView::Dokument {
                dokument_id: *dokument_id,
                tilstand: *tilstand,
            },
            Skriving::RenderedReferanse { dokument_id, rendered_id } => {
                SkrivingView::RenderedReferanse { dokument_id: *dokument_id, rendered_id: *rendered_id }
            },
            Skriving::ArkivId { client_reference, arkiv_id } => SkrivingView::ArkivId {
                client_reference: *client_reference,
                arkiv_id: arkiv_id@,
            },
            Skriving::Overgang { entitet, entitet_id, fra, til, steg, melding } => {
                SkrivingView::Overgang {
                    entitet: *entitet,
                    entitet_id: *entitet_id,
                    fra: fra@,
                    til: til@,
                    steg: steg@,
                    melding: opt_text(*melding),
                }
            },
        }
    }
}

/// The abstract values of a list of writes.
pub open spec fn skrivinger(ws: Seq<Skriving>) -> Seq<SkrivingView> {
    ws.map_values(|w: Skriving| w@)
}

proof fn lemma_skrivinger_push(ws: Seq<Skriving>, w: Skriving)
    ensures
        skrivinger(ws.push(w)) == skrivinger(ws).push(w@),
{
    assert(skrivinger(ws.push(w)) =~= skrivinger(ws).push(w@));
}

/// Appends a write and keeps the abstract list in step.
fn skriv(ws: &mut Vec<Skriving>, w: Skriving)
    ensures
        skrivinger(final(ws)@) == skrivinger(old(ws)@).push(w@),
{
    let ghost before = ws@;
    let ghost v = w@;
    ws.push(w);
    proof {
        lemma_skrivinger_push(before, w);
    }
}

/// A transition log entry without a message.
pub open spec fn overgang(
    entitet: EntitetType,
    entitet_id: u128,
    fra: Seq<char>,
    til: Seq<char>,
    steg: Seq<char>,
) -> SkrivingView {
    SkrivingView::Overgang { entitet, entitet_id, fra, til, steg, melding: None }
}

fn overgang_exec(entitet: EntitetType, entitet_id: u128, fra: &str, til: &str, steg: &str) -> (r:
    Skriving)
    ensures
        r@ == overgang(entitet, entitet_id, fra@, til@, steg@),
{
    Skriving::Overgang {
        entitet,
        entitet_id,
        fra: fra.to_owned(),
        til: til.to_owned(),
        steg: steg.to_owned(),
        melding: None,
    }
}

/// The state store operation that performs a write.
pub open spec fn operasjon_text(w: SkrivingView) -> Seq<char> {
    match w {
        SkrivingView::Sak { .. } => "oppdater_sak_tilstand"@,
        SkrivingView::Journalpost { .. } => "oppdater_journalpost_tilstand"@,
        SkrivingView::Dokument { .. } => "oppdater_dokument_tilstand"@,
        SkrivingView::RenderedReferanse { .. } => "oppdater_rendered_dokument_referanse"@,
        SkrivingView::ArkivId { .. } => "oppdater_arkiv_id_for_client_reference"@,
        SkrivingView::Overgang { .. } => "logg_overgang"@,
    }
}

pub fn skriving_operasjon(w: &Skriving) -> (r: &'static str)
    ensures
        r@ == operasjon_text(w@),
{
    match w {
        Skriving::Sak { .. } => "oppdater_sak_tilstand",
        Skriving::Journalpost { .. } => "oppdater_journalpost_tilstand",
        Skriving::Dokument { .. } => "oppdater_dokument_tilstand",
        Skriving::RenderedReferanse { .. } => "oppdater_rendered_dokument_referanse",
        Skriving::ArkivId { .. } => "oppdater_arkiv_id_for_client_reference",
        Skriving::Overgang { .. } => "logg_overgang",
    }
}

// ---------------------------------------------------------------------------
// Case steps
// ---------------------------------------------------------------------------

/// What creating a case writes: the case number under the client's
/// reference when the command has one, the created case, and its transition.
pub open spec fn opprett_sak_writes(
    sak_id: u128,
    sak_client_reference: Option<u128>,
    saksnummer: Seq<char>,
) -> Seq<SkrivingView> {
    let core = seq![
        SkrivingView::Sak {
            sak_id,
            tilstand: SakTilstand::Opprettet,
            sikri_id: None,
            saksnummer: Some(saksnummer),
        },
        overgang(EntitetType::Sak, sak_id, "ikke_realisert"@, "opprettet"@, "opprett_sak"@),
    ];
    match sak_client_reference {
        Some(c) => seq![SkrivingView::ArkivId { client_reference: c, arkiv_id: saksnummer }] + core,
        None => core,
    }
}

pub fn opprett_sak_skrivinger(sak_id: u128, sak_client_reference: Option<u128>, saksnummer: &str) -> (r:
    Vec<Skriving>)
    ensures
        skrivinger(r@) == opprett_sak_writes(sak_id, sak_client_reference, saksnummer@),
{
    let mut ws: Vec<Skriving> = Vec::new();
    if let Some(c) = sak_client_reference {
        skriv(&mut ws, Skriving::ArkivId { client_reference: c, arkiv_id: saksnummer.to_owned() });
    }
    skriv(
        &mut ws,
        Skriving::Sak {
            sak_id,
            tilstand: SakTilstand::Opprettet,
            sikri_id: None,
            saksnummer: Some(saksnummer.to_owned()),
        },
    );
    skriv(&mut ws, overgang_exec(EntitetType::Sak, sak_id, "ikke_realisert", "opprettet", "opprett_sak"));
    assert(skrivinger(ws@) =~= opprett_sak_writes(sak_id, sak_client_reference, saksnummer@));
    ws
}

/// Closing a case needs its case number; without one the step waits.
pub fn avslutt_sak_saksnummer(sak: &SakMedBarn) -> (r: Result<String, EksekveringFeil>)
    ensures
        match sak.saksnummer {
            Some(s) => r matches Ok(t) && t@ == s@,
            None => r matches Err(e) && e.feiltype == EksekveringFeiltype::Blocked && e.melding@
                == "Kan ikke avslutte sak: saksnummer mangler"@,
        },
{
    match &sak.saksnummer {
        Some(s) => Ok(s.clone()),
        None => Err(EksekveringFeil::blocked("Kan ikke avslutte sak: saksnummer mangler".to_owned())),
    }
}

/// What closing a case writes: the closed case, keeping its archive id, and
/// its transition.
pub open spec fn avslutt_sak_writes(sak_id: u128, sikri_id: Option<i64>, saksnummer: Seq<char>) -> Seq<
    SkrivingView,
> {
    seq![
        SkrivingView::Sak {
            sak_id,
            tilstand: SakTilstand::Avsluttet,
            sikri_id,
            saksnummer: Some(saksnummer),
        },
        overgang(EntitetType::Sak, sak_id, "opprettet"@, "avsluttet"@, "avslutt_sak"@),
    ]
}

pub fn avslutt_sak_skrivinger(sak: &SakMedBarn, saksnummer: &str) -> (r: Vec<Skriving>)
    ensures
        skrivinger(r@) == avslutt_sak_writes(sak.sak_id, sak.sikri_id, saksnummer@),
{
    let mut ws: Vec<Skriving> = Vec::new();
    skriv(
        &mut ws,
        Skriving::Sak {
            sak_id: sak.sak_id,
            tilstand: SakTilstand::Avsluttet,
            sikri_id: sak.sikri_id,
            saksnummer: Some(saksnummer.to_owned()),
        },
    );
    skriv(
        &mut ws,
        overgang_exec(EntitetType::Sak, sak.sak_id, "opprettet", "avsluttet", "avslutt_sak"),
    );
    assert(skrivinger(ws@) =~= avslutt_sak_writes(sak.sak_id, sak.sikri_id, saksnummer@));
    ws
}

// ---------------------------------------------------------------------------
// Journal entry steps
// ---------------------------------------------------------------------------

/// The dispatch choice of an entry: only an outgoing entry has one.
pub open spec fn utsendingsvalg(jp: JournalpostMedDokumenter) -> Option<Utsendingsvalg> {
    if jp.journalposttype == JournalpostType::Utgaaende {
        Some(
            if jp.med_utsending {
                Utsendingsvalg::MedUtsending
            } else {
                Utsendingsvalg::UtenUtsending
            },
        )
    } else {
        None
    }
}

/// The case has an entry with the id.
pub open spec fn har_journalpost(sak: SakMedBarn, id: u128) -> bool {
    exists|i: int| #[trigger] er_forste(sak.journalposter@, id, i)
}

/// Creating a journal entry needs the entry (the first with the id) and the
/// case number: a missing entry is retried, a missing case number waits.
/// The entry's dispatch choice goes with the call.
pub fn opprett_journalpost_forutsetning(sak: &SakMedBarn, journalpost_id: u128) -> (r: Result<
    (&JournalpostMedDokumenter, String, Option<Utsendingsvalg>),
    EksekveringFeil,
>)
    ensures
        !har_journalpost(*sak, journalpost_id) ==> (r matches Err(e) && e.feiltype
            == EksekveringFeiltype::Recoverable && e.melding@ == journalpost_missing_text(
            journalpost_id,
            sak.sak_id,
        )),
        har_journalpost(*sak, journalpost_id) && sak.saksnummer is None ==> (r matches Err(e)
            && e.feiltype == EksekveringFeiltype::Blocked && e.melding@
            == "Saksnummer mangler for opprett_journalpost"@),
        har_journalpost(*sak, journalpost_id) && sak.saksnummer is Some ==> r is Ok,
        r matches Ok((jp, saksnummer, utsending)) ==> (exists|i: int|
            #[trigger] er_forste(sak.journalposter@, journalpost_id, i) && sak.journalposter@[i]
                == *jp) && (sak.saksnummer matches Some(s) && saksnummer@ == s@) && utsending
            == utsendingsvalg(*jp),
{
    let jp = match finn_journalpost(sak, journalpost_id) {
        Ok(jp) => jp,
        Err(e) => {
            return Err(e);
        },
    };
    match &sak.saksnummer {
        None => Err(EksekveringFeil::blocked("Saksnummer mangler for opprett_journalpost".to_owned())),
        Some(s) => {
            let u = resolve_utsending(jp);
            Ok((jp, s.clone(), u))
        },
    }
}

/// The main document went with the call to create the entry when it was
/// supplied as bytes: the first document then counts as done.
pub open spec fn hoveddokument_writes(jp: JournalpostMedDokumenter) -> Seq<SkrivingView> {
    if jp.dokumenter@.len() > 0 && jp.dokumenter@[0].kilde is Bytes {
        let d = jp.dokumenter@[0].dokument_id;
        seq![
            SkrivingView::Dokument { dokument_id: d, tilstand: DokumentTilstand::Ferdig },
            overgang(EntitetType::Dokument, d, "ikke_realisert"@, "ok"@, "opprett_journalpost"@),
        ]
    } else {
        seq![]
    }
}

/// What creating a journal entry writes: the archive's entry number under
/// the client's reference, the created entry with that number, its
/// transition, and the main document when it went with the call.
pub open spec fn opprett_journalpost_writes(
    jp: JournalpostMedDokumenter,
    journalpost_client_reference: Option<u128>,
    arkiv_journalpost_id: i32,
) -> Seq<SkrivingView> {
    let mapping = match journalpost_client_reference {
        Some(c) => seq![
            SkrivingView::ArkivId { client_reference: c, arkiv_id: decimal(arkiv_journalpost_id as int) },
        ],
        None => seq![],
    };
    let core = seq![
        SkrivingView::Journalpost {
            journalpost_id: jp.journalpost_id,
            tilstand: JournalpostTilstand::Opprettet,
            sikri_id: Some(arkiv_journalpost_id as i64),
            journalpostnummer: Some(arkiv_journalpost_id),
        },
        overgang(
            EntitetType::Journalpost,
            jp.journalpost_id,
            "ikke_realisert"@,
            "opprettet"@,
            "opprett_journalpost"@,
        ),
    ];
    mapping + core + hoveddokument_writes(jp)
}

pub fn opprett_journalpost_skrivinger(
    jp: &JournalpostMedDokumenter,
    journalpost_client_reference: Option<u128>,
    arkiv_journalpost_id: i32,
) -> (r: Vec<Skriving>)
    ensures
        skrivinger(r@) == opprett_journalpost_writes(
            *jp,
            journalpost_client_reference,
            arkiv_journalpost_id,
        ),
{
    let mut ws: Vec<Skriving> = Vec::new();
    if let Some(c) = journalpost_client_reference {
        skriv(
            &mut ws,
            Skriving::ArkivId {
                client_reference: c,
                arkiv_id: decimal_i64(arkiv_journalpost_id as i64),
            },
        );
    }
    skriv(
        &mut ws,
        Skriving::Journalpost {
            journalpost_id: jp.journalpost_id,
            tilstand: JournalpostTilstand::Opprettet,
            sikri_id: Some(arkiv_journalpost_id as i64),
            journalpostnummer: Some(arkiv_journalpost_id),
        },
    );
    skriv(
        &mut ws,
        overgang_exec(
            EntitetType::Journalpost,
            jp.journalpost_id,
            "ikke_realisert",
            "opprettet",
            "opprett_journalpost",
        ),
    );
    let ghost mid = skrivinger(ws@);
    if jp.dokumenter.len() > 0 {
        let hoved = &jp.dokumenter[0];
        if let Dokumentkilde::Bytes { .. } = &hoved.kilde {
            skriv(
                &mut ws,
                Skriving::Dokument { dokument_id: hoved.dokument_id, tilstand: DokumentTilstand::Ferdig },
            );
            skriv(
                &mut ws,
                overgang_exec(
                    EntitetType::Dokument,
                    hoved.dokument_id,
                    "ikke_realisert",
                    "ok",
                    "opprett_journalpost",
                ),
            );
        }
    }
    assert(skrivinger(ws@) =~= opprett_journalpost_writes(
        *jp,
        journalpost_client_reference,
        arkiv_journalpost_id,
    ));
    ws
}

/// The step that needs an entry's archive number.
#[derive(PartialEq, Eq, Structural, Clone, Copy, Debug)]
pub enum Nummersteg {
    LeggTilDokument,
    Journalfoering,
    Avskriving,
}

pub open spec fn nummer_mangler_text(steg: Nummersteg) -> Seq<char> {
    match steg {
        Nummersteg::LeggTilDokument => "Journalpostnummer mangler for legg_til_dokument"@,
        Nummersteg::Journalfoering => "Journalpostnummer mangler for journalfoering"@,
        Nummersteg::Avskriving => "Journalpostnummer mangler for avskriving"@,
    }
}

fn nummer_mangler(steg: Nummersteg) -> (r: EksekveringFeil)
    ensures
        r.feiltype == EksekveringFeiltype::Blocked,
        r.melding@ == nummer_mangler_text(steg),
{
    match steg {
        Nummersteg::LeggTilDokument => EksekveringFeil::blocked(
            "Journalpostnummer mangler for legg_til_dokument".to_owned(),
        ),
        Nummersteg::Journalfoering => EksekveringFeil::blocked(
            "Journalpostnummer mangler for journalfoering".to_owned(),
        ),
        Nummersteg::Avskriving => EksekveringFeil::blocked(
            "Journalpostnummer mangler for avskriving".to_owned(),
        ),
    }
}

/// A step on an existing entry needs the entry (the first with the id) and
/// its archive number: a missing entry is retried, a missing number waits.
pub fn journalpost_med_nummer(sak: &SakMedBarn, journalpost_id: u128, steg: Nummersteg) -> (r: Result<
    (&JournalpostMedDokumenter, i32),
    EksekveringFeil,
>)
    ensures
        !har_journalpost(*sak, journalpost_id) ==> (r matches Err(e) && e.feiltype
            == EksekveringFeiltype::Recoverable && e.melding@ == journalpost_missing_text(
            journalpost_id,
            sak.sak_id,
        )),
        forall|i: int| #[trigger]
            er_forste(sak.journalposter@, journalpost_id, i) ==> match sak.journalposter@[i].journalpostnummer {
                None => r matches Err(e) && e.feiltype == EksekveringFeiltype::Blocked && e.melding@
                    == nummer_mangler_text(steg),
                Some(n) => r matches Ok((jp, m)) && *jp == sak.journalposter@[i] && m == n,
            },
{
    let jp = match finn_journalpost(sak, journalpost_id) {
        Ok(jp) => jp,
        Err(e) => {
            return Err(e);
        },
    };
    proof {
        let i = choose|i: int|
            #[trigger] er_forste(sak.journalposter@, journalpost_id, i) && sak.journalposter@[i]
                == *jp;
        assert forall|j: int| #[trigger] er_forste(sak.journalposter@, journalpost_id, j) implies j
            == i by {
            if j < i {
                assert(sak.journalposter@[j].journalpost_id == journalpost_id);
            } else if i < j {
                assert(sak.journalposter@[i].journalpost_id == journalpost_id);
            }
        }
    }
    match jp.journalpostnummer {
        None => Err(nummer_mangler(steg)),
        Some(n) => Ok((jp, n)),
    }
}

/// The entry's state after filing: an outgoing entry to be dispatched waits
/// for dispatch, every other entry is filed.
pub open spec fn journalfoert_tilstand(jp: JournalpostMedDokumenter) -> JournalpostTilstand {
    if jp.journalposttype == JournalpostType::Utgaaende && jp.med_utsending {
        JournalpostTilstand::VenterPaaUtsending
    } else {
        JournalpostTilstand::Journalfoert
    }
}

/// What filing writes: the entry's new state with its number, and the
/// transition from the state it had.
pub open spec fn journalfoer_writes(jp: JournalpostMedDokumenter, nummer: i32) -> Seq<SkrivingView> {
    let ny = journalfoert_tilstand(jp);
    seq![
        SkrivingView::Journalpost {
            journalpost_id: jp.journalpost_id,
            tilstand: ny,
            sikri_id: jp.sikri_id,
            journalpostnummer: Some(nummer),
        },
        overgang(
            EntitetType::Journalpost,
            jp.journalpost_id,
            tilstand_text(jp.tilstand),
            tilstand_text(ny),
            "journalfoer"@,
        ),
    ]
}

pub fn journalfoer_skrivinger(jp: &JournalpostMedDokumenter, nummer: i32) -> (r: Vec<Skriving>)
    ensures
        skrivinger(r@) == journalfoer_writes(*jp, nummer),
{
    let ny = if jp.journalposttype == JournalpostType::Utgaaende && jp.med_utsending {
        JournalpostTilstand::VenterPaaUtsending
    } else {
        JournalpostTilstand::Journalfoert
    };
    let mut ws: Vec<Skriving> = Vec::new();
    skriv(
        &mut ws,
        Skriving::Journalpost {
            journalpost_id: jp.journalpost_id,
            tilstand: ny,
            sikri_id: jp.sikri_id,
            journalpostnummer: Some(nummer),
        },
    );
    skriv(
        &mut ws,
        overgang_exec(
            EntitetType::Journalpost,
            jp.journalpost_id,
            tilstand_str(jp.tilstand),
            tilstand_str(ny),
            "journalfoer",
        ),
    );
    assert(skrivinger(ws@) =~= journalfoer_writes(*jp, nummer));
    ws
}

/// The archive's code for how an entry is written off.
pub fn avskrivningsmaate() -> (r: &'static str)
    ensures
        r@ == "TE"@,
{
    "TE"
}

/// What writing off an entry writes: the written-off entry with its number,
/// and the transition from the state it had.
pub open spec fn avskriv_writes(jp: JournalpostMedDokumenter, nummer: i32) -> Seq<SkrivingView> {
    seq![
        SkrivingView::Journalpost {
            journalpost_id: jp.journalpost_id,
            tilstand: JournalpostTilstand::Avskrevet,
            sikri_id: jp.sikri_id,
            journalpostnummer: Some(nummer),
        },
        overgang(
            EntitetType::Journalpost,
            jp.journalpost_id,
            tilstand_text(jp.tilstand),
            "avskrevet"@,
            "avskriv"@,
        ),
    ]
}

pub fn avskriv_skrivinger(jp: &JournalpostMedDokumenter, nummer: i32) -> (r: Vec<Skriving>)
    ensures
        skrivinger(r@) == avskriv_writes(*jp, nummer),
{
    let mut ws: Vec<Skriving> = Vec::new();
    skriv(
        &mut ws,
        Skriving::Journalpost {
            journalpost_id: jp.journalpost_id,
            tilstand: JournalpostTilstand::Avskrevet,
            sikri_id: jp.sikri_id,
            journalpostnummer: Some(nummer),
        },
    );
    skriv(
        &mut ws,
        overgang_exec(
            EntitetType::Journalpost,
            jp.journalpost_id,
            tilstand_str(jp.tilstand),
            "avskrevet",
            "avskriv",
        ),
    );
    assert(skrivinger(ws@) =~= avskriv_writes(*jp, nummer));
    ws
}

// ---------------------------------------------------------------------------
// Document steps
// ---------------------------------------------------------------------------

pub open spec fn client_reference_missing_text(dokument_id: u128) -> Seq<char> {
    "Fant ikke client_reference for dokument "@ + hyphenated(dokument_id)
}

/// The client's reference of a document: the first of the command's
/// document references that the id mapping resolves to the document.
/// `resolved[i]` is what the mapping gave for `references[i]`.
pub fn velg_dokument_client_reference(
    references: &Vec<u128>,
    resolved: &Vec<Option<u128>>,
    dokument_id: u128,
) -> (r: Result<u128, EksekveringFeil>)
    requires
        references.len() == resolved.len(),
    ensures
        match r {
            Ok(c) => exists|i: int|
                0 <= i < references@.len() && references@[i] == c && resolved@[i] == Some(
                    dokument_id,
                ) && forall|k: int| 0 <= k < i ==> #[trigger] resolved@[k] != Some(dokument_id),
            Err(e) => e.feiltype == EksekveringFeiltype::Recoverable && e.melding@
                == client_reference_missing_text(dokument_id) && forall|k: int|
                0 <= k < resolved@.len() ==> #[trigger] resolved@[k] != Some(dokument_id),
        },
{
    let mut i: usize = 0;
    while i < resolved.len()
        invariant
            i <= resolved.len(),
            references.len() == resolved.len(),
            forall|k: int| 0 <= k < i ==> #[trigger] resolved@[k] != Some(dokument_id),
        decreases resolved.len() - i,
    {
        if resolved[i] == Some(dokument_id) {
            return Ok(references[i]);
        }
        i = i + 1;
    }
    let mut m = chars_of("Fant ikke client_reference for dokument ");
    append_chars(&mut m, &chars_of(uuid_text(dokument_id).as_str()));
    Err(EksekveringFeil::recoverable(string_of(&m)))
}

/// What a failed attachment writes: a failure that will not pass on a retry
/// fails the document for good, with the error's message in its transition;
/// any other failure writes nothing.
pub open spec fn vedleggsfeil_writes(dokument_id: u128, feil: EksekveringFeil) -> Seq<SkrivingView> {
    if feil.feiltype == EksekveringFeiltype::Irrecoverable {
        seq![
            SkrivingView::Dokument { dokument_id, tilstand: DokumentTilstand::FeiletPermanent },
            SkrivingView::Overgang {
                entitet: EntitetType::Dokument,
                entitet_id: dokument_id,
                fra: "ikke_realisert"@,
                til: "feilet_permanent"@,
                steg: "legg_til_dokument"@,
                melding: Some(feil.melding@),
            },
        ]
    } else {
        seq![]
    }
}

pub fn vedleggsfeil_skrivinger(dokument_id: u128, feil: &EksekveringFeil) -> (r: Vec<Skriving>)
    ensures
        skrivinger(r@) == vedleggsfeil_writes(dokument_id, *feil),
{
    let mut ws: Vec<Skriving> = Vec::new();
    if feil.feiltype == EksekveringFeiltype::Irrecoverable {
        skriv(
            &mut ws,
            Skriving::Dokument { dokument_id, tilstand: DokumentTilstand::FeiletPermanent },
        );
        skriv(
            &mut ws,
            Skriving::Overgang {
                entitet: EntitetType::Dokument,
                entitet_id: dokument_id,
                fra: "ikke_realisert".to_owned(),
                til: "feilet_permanent".to_owned(),
                steg: "legg_til_dokument".to_owned(),
                melding: Some(feil.melding.clone()),
            },
        );
    }
    assert(skrivinger(ws@) =~= vedleggsfeil_writes(dokument_id, *feil));
    ws
}

/// What a successful attachment writes: the archive's id for the document
/// under the client's reference when the archive answered with one, the
/// document as done, and its transition. `forste_svar` is the first entry of
/// the archive's answer.
pub open spec fn legg_til_dokument_writes(
    dokument_id: u128,
    client_reference: u128,
    forste_svar: Option<Option<i64>>,
) -> Seq<SkrivingView> {
    let mapping = match forste_svar {
        Some(Some(a)) => seq![
            SkrivingView::ArkivId { client_reference, arkiv_id: decimal(a as int) },
        ],
        _ => seq![],
    };
    mapping + seq![
        SkrivingView::Dokument { dokument_id, tilstand: DokumentTilstand::Ferdig },
        overgang(EntitetType::Dokument, dokument_id, "ikke_realisert"@, "ok"@, "legg_til_dokument"@),
    ]
}

pub fn legg_til_dokument_skrivinger(
    dokument_id: u128,
    client_reference: u128,
    forste_svar: Option<Option<i64>>,
) -> (r: Vec<Skriving>)
    ensures
        skrivinger(r@) == legg_til_dokument_writes(dokument_id, client_reference, forste_svar),
{
    let mut ws: Vec<Skriving> = Vec::new();
    if let Some(Some(a)) = forste_svar {
        skriv(&mut ws, Skriving::ArkivId { client_reference, arkiv_id: decimal_i64(a) });
    }
    skriv(&mut ws, Skriving::Dokument { dokument_id, tilstand: DokumentTilstand::Ferdig });
    skriv(
        &mut ws,
        overgang_exec(EntitetType::Dokument, dokument_id, "ikke_realisert", "ok", "legg_til_dokument"),
    );
    assert(skrivinger(ws@) =~= legg_til_dokument_writes(dokument_id, client_reference, forste_svar));
    ws
}

/// A PDF stored by an earlier attempt only needs the document marked done.
pub fn render_marker_ok_skrivinger(dokument_id: u128) -> (r: Vec<Skriving>)
    ensures
        skrivinger(r@) == seq![
            SkrivingView::Dokument { dokument_id, tilstand: DokumentTilstand::Ferdig },
        ],
{
    let mut ws: Vec<Skriving> = Vec::new();
    skriv(&mut ws, Skriving::Dokument { dokument_id, tilstand: DokumentTilstand::Ferdig });
    assert(skrivinger(ws@) =~= seq![
        SkrivingView::Dokument { dokument_id, tilstand: DokumentTilstand::Ferdig },
    ]);
    ws
}

/// What a template that cannot be filled in writes: the document fails for
/// good, with the template error's message in its transition.
pub open spec fn substitusjonsfeil_writes(dokument_id: u128, err: HtmlTemplateFeil) -> Seq<
    SkrivingView,
> {
    seq![
        SkrivingView::Dokument { dokument_id, tilstand: DokumentTilstand::FeiletPermanent },
        SkrivingView::Overgang {
            entitet: EntitetType::Dokument,
            entitet_id: dokument_id,
            fra: "avventer_rendring"@,
            til: "feilet_permanent"@,
            steg: "render_dokument"@,
            melding: Some(template_message(err)),
        },
    ]
}

/// The writes and the terminal error of a failed substitution.
pub fn render_substitusjonsfeil(dokument_id: u128, err: HtmlTemplateFeil) -> (r: (
    Vec<Skriving>,
    EksekveringFeil,
))
    ensures
        skrivinger(r.0@) == substitusjonsfeil_writes(dokument_id, err),
        r.1.feiltype == EksekveringFeiltype::Irrecoverable,
        r.1.melding@ == substitution_failed_text(err),
{
    let mut ws: Vec<Skriving> = Vec::new();
    skriv(&mut ws, Skriving::Dokument { dokument_id, tilstand: DokumentTilstand::FeiletPermanent });
    skriv(
        &mut ws,
        Skriving::Overgang {
            entitet: EntitetType::Dokument,
            entitet_id: dokument_id,
            fra: "avventer_rendring".to_owned(),
            til: "feilet_permanent".to_owned(),
            steg: "render_dokument".to_owned(),
            melding: Some(template_feil_melding(err).to_owned()),
        },
    );
    assert(skrivinger(ws@) =~= substitusjonsfeil_writes(dokument_id, err));
    (ws, render_token_substitution_failed(err))
}

/// What a stored rendering writes: where the PDF is, the document as done,
/// and its transition.
pub open spec fn render_ferdig_writes(dokument_id: u128, rendered_id: u128) -> Seq<SkrivingView> {
    seq![
        SkrivingView::RenderedReferanse { dokument_id, rendered_id },
        SkrivingView::Dokument { dokument_id, tilstand: DokumentTilstand::Ferdig },
        overgang(EntitetType::Dokument, dokument_id, "avventer_rendring"@, "ok"@, "render_dokument"@),
    ]
}

pub fn render_ferdig_skrivinger(dokument_id: u128, rendered_id: u128) -> (r: Vec<Skriving>)
    ensures
        skrivinger(r@) == render_ferdig_writes(dokument_id, rendered_id),
{
    let mut ws: Vec<Skriving> = Vec::new();
    skriv(&mut ws, Skriving::RenderedReferanse { dokument_id, rendered_id });
    skriv(&mut ws, Skriving::Dokument { dokument_id, tilstand: DokumentTilstand::Ferdig });
    skriv(
        &mut ws,
        overgang_exec(EntitetType::Dokument, dokument_id, "avventer_rendring", "ok", "render_dokument"),
    );
    assert(skrivinger(ws@) =~= render_ferdig_writes(dokument_id, rendered_id));
    ws
}

/// The stored file of a rendered document, but for the time of rendering,
/// which the caller adds.
#[derive(Debug)]
pub struct RenderedFil {
    pub id: u128,
    pub filename: String,
    pub content_type: String,
    pub origin: String,
    pub source_template_reference: u128,
    pub source_document_id: u128,
    pub source_command_id: u128,
}

/// A rendered PDF is stored under the document's rendered id, named after
/// it, with its template, document and command as its origin.
pub fn rendered_fil(dokument_id: u128, mal_referanse: u128, command_id: u128) -> (r: RenderedFil)
    ensures
        r.id == uuid_v5(RENDERED_DOKUMENT_NAMESPACE, dokument_id),
        r.filename@ == hyphenated(r.id) + ".pdf"@,
        r.content_type@ == "application/pdf"@,
        r.origin@ == "skuffen_html_template_renderer"@,
        r.source_template_reference == mal_referanse,
        r.source_document_id == dokument_id,
        r.source_command_id == command_id,
{
    let id = rendered_dokument_id(dokument_id);
    let mut name = chars_of(uuid_text(id).as_str());
    append_chars(&mut name, &chars_of(".pdf"));
    RenderedFil {
        id,
        filename: string_of(&name),
        content_type: "application/pdf".to_owned(),
        origin: "skuffen_html_template_renderer".to_owned(),
        source_template_reference: mal_referanse,
        source_document_id: dokument_id,
        source_command_id: command_id,
    }
}

// ---------------------------------------------------------------------------
// Laws
// ---------------------------------------------------------------------------

/// The stored name of a case state.
pub open spec fn sak_tilstand_text(t: SakTilstand) -> Seq<char> {
    match t {
        SakTilstand::IkkeRealisert => "ikke_realisert"@,
        SakTilstand::Opprettet => "opprettet"@,
        SakTilstand::Avsluttet => "avsluttet"@,
    }
}

/// The stored name of a document state.
pub open spec fn dokument_tilstand_text(t: DokumentTilstand) -> Seq<char> {
    match t {
        DokumentTilstand::IkkeRealisert => "ikke_realisert"@,
        DokumentTilstand::AvventerRendring => "avventer_rendring"@,
        DokumentTilstand::Ferdig => "ok"@,
        DokumentTilstand::FeiletPermanent => "feilet_permanent"@,
    }
}

/// A write of a new state.
pub open spec fn er_tilstand(w: SkrivingView) -> bool {
    w is Sak || w is Journalpost || w is Dokument
}

/// `o` logs the state that `w` writes: the same entity, and that state's
/// stored name as the target.
pub open spec fn logget(w: SkrivingView, o: SkrivingView) -> bool {
    match w {
        SkrivingView::Sak { sak_id, tilstand, .. } => o matches SkrivingView::Overgang {
            entitet,
            entitet_id,
            til,
            ..
        } && entitet == EntitetType::Sak && entitet_id == sak_id && til == sak_tilstand_text(tilstand),
        SkrivingView::Journalpost { journalpost_id, tilstand, .. } => o matches SkrivingView::Overgang {
            entitet,
            entitet_id,
            til,
            ..
        } && entitet == EntitetType::Journalpost && entitet_id == journalpost_id && til
            == tilstand_text(tilstand),
        SkrivingView::Dokument { dokument_id, tilstand } => o matches SkrivingView::Overgang {
            entitet,
            entitet_id,
            til,
            ..
        } && entitet == EntitetType::Dokument && entitet_id == dokument_id && til
            == dokument_tilstand_text(tilstand),
        _ => true,
    }
}

/// Every state write is followed at once by its transition.
pub open spec fn logg_stemmer(ws: Seq<SkrivingView>) -> bool {
    forall|i: int|
        0 <= i < ws.len() && er_tilstand(#[trigger] ws[i]) ==> i + 1 < ws.len() && logget(
            ws[i],
            ws[i + 1],
        )
}

/// The transition log agrees with the state of a case: creating and closing
/// a case each log the state they write, right after writing it.
pub proof fn law_case_steps_log_their_states(
    sak_id: u128,
    sak_client_reference: Option<u128>,
    sikri_id: Option<i64>,
    saksnummer: Seq<char>,
)
    ensures
        logg_stemmer(opprett_sak_writes(sak_id, sak_client_reference, saksnummer)),
        logg_stemmer(avslutt_sak_writes(sak_id, sikri_id, saksnummer)),
{
    let a = opprett_sak_writes(sak_id, sak_client_reference, saksnummer);
    assert forall|i: int| 0 <= i < a.len() && er_tilstand(#[trigger] a[i]) implies i + 1 < a.len()
        && logget(a[i], a[i + 1]) by {
        if sak_client_reference is Some {
            assert(i == 1);
        } else {
            assert(i == 0);
        }
    }
    let b = avslutt_sak_writes(sak_id, sikri_id, saksnummer);
    assert forall|i: int| 0 <= i < b.len() && er_tilstand(#[trigger] b[i]) implies i + 1 < b.len()
        && logget(b[i], b[i + 1]) by {
        assert(i == 0);
    }
}

/// The transition log agrees with the state of a journal entry: creating,
/// filing and writing off an entry each log the state they write, and so
/// does the main document that goes with a new entry.
pub proof fn law_entry_steps_log_their_states(
    jp: JournalpostMedDokumenter,
    journalpost_client_reference: Option<u128>,
    arkiv_journalpost_id: i32,
    nummer: i32,
)
    ensures
        logg_stemmer(opprett_journalpost_writes(jp, journalpost_client_reference, arkiv_journalpost_id)),
        logg_stemmer(journalfoer_writes(jp, nummer)),
        logg_stemmer(avskriv_writes(jp, nummer)),
{
    let a = opprett_journalpost_writes(jp, journalpost_client_reference, arkiv_journalpost_id);
    let off: int = if journalpost_client_reference is Some {
        1
    } else {
        0
    };
    assert forall|i: int| 0 <= i < a.len() && er_tilstand(#[trigger] a[i]) implies i + 1 < a.len()
        && logget(a[i], a[i + 1]) by {
        assert(i == off || i == off + 2);
    }
    let b = journalfoer_writes(jp, nummer);
    assert forall|i: int| 0 <= i < b.len() && er_tilstand(#[trigger] b[i]) implies i + 1 < b.len()
        && logget(b[i], b[i + 1]) by {
        assert(i == 0);
    }
    let c = avskriv_writes(jp, nummer);
    assert forall|i: int| 0 <= i < c.len() && er_tilstand(#[trigger] c[i]) implies i + 1 < c.len()
        && logget(c[i], c[i + 1]) by {
        assert(i == 0);
    }
}

/// The transition log agrees with the state of a document: attaching it,
/// failing it for good, and finishing or failing its rendering each log the
/// state they write. (Marking a document whose PDF an earlier attempt stored
/// writes its state without a transition.)
pub proof fn law_document_steps_log_their_states(
    dokument_id: u128,
    client_reference: u128,
    forste_svar: Option<Option<i64>>,
    feil: EksekveringFeil,
    err: HtmlTemplateFeil,
    rendered_id: u128,
)
    ensures
        logg_stemmer(legg_til_dokument_writes(dokument_id, client_reference, forste_svar)),
        logg_stemmer(vedleggsfeil_writes(dokument_id, feil)),
        logg_stemmer(substitusjonsfeil_writes(dokument_id, err)),
        logg_stemmer(render_ferdig_writes(dokument_id, rendered_id)),
{
    let a = legg_til_dokument_writes(dokument_id, client_reference, forste_svar);
    let off: int = if forste_svar matches Some(Some(_)) {
        1
    } else {
        0
    };
    assert forall|i: int| 0 <= i < a.len() && er_tilstand(#[trigger] a[i]) implies i + 1 < a.len()
        && logget(a[i], a[i + 1]) by {
        assert(i == off);
    }
    let b = vedleggsfeil_writes(dokument_id, feil);
    assert forall|i: int| 0 <= i < b.len() && er_tilstand(#[trigger] b[i]) implies i + 1 < b.len()
        && logget(b[i], b[i + 1]) by {
        assert(i == 0);
    }
    let c = substitusjonsfeil_writes(dokument_id, err);
    assert forall|i: int| 0 <= i < c.len() && er_tilstand(#[trigger] c[i]) implies i + 1 < c.len()
        && logget(c[i], c[i + 1]) by {
        assert(i == 0);
    }
    let d = render_ferdig_writes(dokument_id, rendered_id);
    assert forall|i: int| 0 <= i < d.len() && er_tilstand(#[trigger] d[i]) implies i + 1 < d.len()
        && logget(d[i], d[i + 1]) by {
        assert(i == 1);
    }
}

/// The archive number that creating an entry records under the client's
/// reference reads back, as the later steps parse it, as the number the
/// entry's state holds.
pub proof fn law_recorded_entry_number_reads_back(
    jp: JournalpostMedDokumenter,
    client_reference: u128,
    arkiv_journalpost_id: i32,
)
    ensures
        ({
            let ws = opprett_journalpost_writes(jp, Some(client_reference), arkiv_journalpost_id);
            &&& ws[0] matches SkrivingView::ArkivId { client_reference: c, arkiv_id }
                && c == client_reference && parse_i32(arkiv_id) == Some(arkiv_journalpost_id)
            &&& ws[1] matches SkrivingView::Journalpost { journalpostnummer, .. }
                && journalpostnummer == Some(arkiv_journalpost_id)
        }),
{
    law_decimal_parse_roundtrip(arkiv_journalpost_id);
}

/// A document as the store holds it after one write: a write of its state
/// sets its state, a write of its rendered reference sets the reference of
/// its template; other writes leave it as it was.
pub open spec fn dokument_etter_skriving(d: DokumentMedTilstand, w: SkrivingView) -> DokumentMedTilstand {
    match w {
        SkrivingView::Dokument { dokument_id, tilstand } => if dokument_id == d.dokument_id {
            DokumentMedTilstand { dokument_id: d.dokument_id, tilstand, kilde: d.kilde }
        } else {
            d
        },
        SkrivingView::RenderedReferanse { dokument_id, rendered_id } => if dokument_id == d.dokument_id {
            match d.kilde {
                Dokumentkilde::HtmlTemplate { mal_referanse, felter, .. } => DokumentMedTilstand {
                    dokument_id: d.dokument_id,
                    tilstand: d.tilstand,
                    kilde: Dokumentkilde::HtmlTemplate {
                        mal_referanse,
                        felter,
                        rendered_dokument_referanse: Some(rendered_id),
                    },
                },
                _ => d,
            }
        } else {
            d
        },
        _ => d,
    }
}

/// A document after the writes, in order.
pub open spec fn dokument_etter(d: DokumentMedTilstand, ws: Seq<SkrivingView>) -> DokumentMedTilstand
    decreases ws.len(),
{
    if ws.len() == 0 {
        d
    } else {
        dokument_etter_skriving(dokument_etter(d, ws.drop_last()), ws.last())
    }
}

/// Rendering a template document is never done twice. Once its PDF is stored
/// and its reference written, a later handling only marks it done; once it is
/// marked done, by that handling or by a rendering that ran to the end, a
/// later handling finds nothing to do; and a rendering interrupted after it
/// wrote the reference but before it marked the document done is finished
/// the same way.
pub proof fn law_render_is_finished_not_redone(
    sak: SakMedBarn,
    d: DokumentMedTilstand,
    journalpost_id: u128,
    rendered_id: u128,
    r_marker: Result<Renderstart, EksekveringFeil>,
    r_etter_marker: Result<Renderstart, EksekveringFeil>,
    r_etter_rendering: Result<Renderstart, EksekveringFeil>,
    r_etter_avbrudd: Result<Renderstart, EksekveringFeil>,
)
    requires
        d.kilde is HtmlTemplate,
        d.tilstand != DokumentTilstand::Ferdig,
    ensures
        (d.kilde->rendered_dokument_referanse is Some && render_start_gir(sak, d, journalpost_id, r_marker))
            ==> r_marker matches Ok(Renderstart::MarkerOk),
        render_start_gir(
            sak,
            dokument_etter(
                d,
                seq![SkrivingView::Dokument { dokument_id: d.dokument_id, tilstand: DokumentTilstand::Ferdig }],
            ),
            journalpost_id,
            r_etter_marker,
        ) ==> r_etter_marker matches Ok(Renderstart::AlleredeOk),
        render_start_gir(
            sak,
            dokument_etter(d, render_ferdig_writes(d.dokument_id, rendered_id)),
            journalpost_id,
            r_etter_rendering,
        ) ==> r_etter_rendering matches Ok(Renderstart::AlleredeOk),
        render_start_gir(
            sak,
            dokument_etter(d, render_ferdig_writes(d.dokument_id, rendered_id).take(1)),
            journalpost_id,
            r_etter_avbrudd,
        ) ==> r_etter_avbrudd matches Ok(Renderstart::MarkerOk),
{
    let id = d.dokument_id;
    let ferdig = seq![SkrivingView::Dokument { dokument_id: id, tilstand: DokumentTilstand::Ferdig }];
    assert(ferdig.drop_last() =~= Seq::<SkrivingView>::empty());
    assert(dokument_etter(d, Seq::<SkrivingView>::empty()) == d);
    assert(ferdig.last() == SkrivingView::Dokument { dokument_id: id, tilstand: DokumentTilstand::Ferdig });
    assert(dokument_etter(d, ferdig) == dokument_etter_skriving(d, ferdig.last()));
    assert(dokument_etter(d, ferdig).tilstand == DokumentTilstand::Ferdig);

    let ws = render_ferdig_writes(id, rendered_id);
    let w1 = ws.take(1);
    assert(w1.drop_last() =~= Seq::<SkrivingView>::empty());
    assert(w1.last() == SkrivingView::RenderedReferanse { dokument_id: id, rendered_id });
    let d1 = dokument_etter(d, w1);
    assert(d1 == dokument_etter_skriving(d, w1.last()));
    assert(d1.tilstand == d.tilstand);
    assert(d1.kilde->rendered_dokument_referanse == Some(rendered_id));
    let w2 = ws.take(2);
    assert(w2.drop_last() =~= w1);
    let d2 = dokument_etter(d, w2);
    assert(d2.tilstand == DokumentTilstand::Ferdig);
    assert(ws.drop_last() =~= w2);
    assert(dokument_etter(d, ws).tilstand == DokumentTilstand::Ferdig);
}

/// Filing records that an entry waits for dispatch only when it is an
/// outgoing entry the archive sends out; every other entry, an outgoing one
/// without dispatch too, is recorded filed, with its number and a transition
/// to `journalfoert` from the state it had.
pub proof fn law_filing_records_filed_unless_dispatched(jp: JournalpostMedDokumenter, nummer: i32)
    ensures
        journalfoer_writes(jp, nummer).len() == 2,
        journalfoer_writes(jp, nummer)[0] matches SkrivingView::Journalpost {
            journalpost_id,
            tilstand,
            journalpostnummer,
            ..
        } && journalpost_id == jp.journalpost_id && journalpostnummer == Some(nummer) && (tilstand
            == JournalpostTilstand::VenterPaaUtsending <==> (jp.journalposttype == JournalpostType::Utgaaende
            && jp.med_utsending)) && (!(jp.journalposttype == JournalpostType::Utgaaende && jp.med_utsending)
            ==> tilstand == JournalpostTilstand::Journalfoert),
        !(jp.journalposttype == JournalpostType::Utgaaende && jp.med_utsending) ==> (journalfoer_writes(
            jp,
            nummer,
        )[1] matches SkrivingView::Overgang { entitet_id, til, steg, .. } && entitet_id == jp.journalpost_id
            && til == "journalfoert"@ && steg == "journalfoer"@),
{
}

} // verus!
