//! Registering a validated command with the executor: how its case is
//! known, the domain command it is executed as, and the state rows that are
//! created for its entities before it is queued.
use vstd::prelude::*;

use crate::archive_steps::opt_text;
use crate::command::{
    string_views, Command, CommandTypeCode, Dokument, SakKey, SakKeyView,
};
use crate::decomposition::{as_code, entitet_code, EntitetType};
use crate::execution::{dokument_initial_av, dokument_initial_tilstand, DokumentTilstand};
use crate::execution_detail::{EksekveringFeil, EksekveringFeiltype};
use crate::ids::{hyphenated, uuid_text};
use crate::readiness::{JournalpostState, JournalpostType, SakState, SakStatus};
use crate::text::{append_chars, chars_of, string_of};

verus! {

// ---------------------------------------------------------------------------
// How the case is known
// ---------------------------------------------------------------------------

/// Where the id of a command's case came from.
#[derive(Debug)]
pub enum SakResolutionOrigin {
    /// The client's reference: the client created the case.
    ClientReference,
    /// The archive's case number: the archive vouches for the case.
    ArkivId { saksnummer: String },
}

/// The id of a command's case and where it came from.
#[derive(Debug)]
pub struct ResolvedSakId {
    pub sak_id: u128,
    pub origin: SakResolutionOrigin,
}

pub fn resolved_sak_id(sak_id: u128, sak_key: &SakKey) -> (r: ResolvedSakId)
    ensures
        r.sak_id == sak_id,
        match sak_key@ {
            SakKeyView::ClientReference(_) => r.origin is ClientReference,
            SakKeyView::ArkivId(s) => r.origin matches SakResolutionOrigin::ArkivId { saksnummer }
                && saksnummer@ == s,
        },
{
    match sak_key {
        SakKey::ClientReference(_) => ResolvedSakId { sak_id, origin: SakResolutionOrigin::ClientReference },
        SakKey::ArkivId(s) => ResolvedSakId {
            sak_id,
            origin: SakResolutionOrigin::ArkivId { saksnummer: s.clone() },
        },
    }
}

/// The registered state of a case: a case the client names by its own
/// reference is not created yet; one named by its case number exists in the
/// archive under that number.
pub fn sak_state_for(sak_key: &SakKey) -> (r: SakState)
    ensures
        r.status == SakStatus::UnderBehandling,
        match sak_key@ {
            SakKeyView::ClientReference(_) => !r.opprettet && r.saksnummer is None,
            SakKeyView::ArkivId(s) => r.opprettet && (r.saksnummer matches Some(n) && n@ == s),
        },
{
    match sak_key {
        SakKey::ClientReference(_) => SakState {
            status: SakStatus::UnderBehandling,
            opprettet: false,
            saksnummer: None,
        },
        SakKey::ArkivId(s) => SakState {
            status: SakStatus::UnderBehandling,
            opprettet: true,
            saksnummer: Some(s.clone()),
        },
    }
}

/// The registered state of a new journal entry: nothing done yet, no
/// number, its kind and its dispatch.
pub fn ny_journalpost_state(journalposttype: JournalpostType, med_utsending: bool) -> (r:
    JournalpostState)
    ensures
        r.journalposttype == journalposttype,
        r.med_utsending == med_utsending,
        !r.journalfoert && !r.avskrevet && !r.ekspedert && !r.har_feilede_dokumenter,
        r.journalpostnummer is None,
{
    JournalpostState {
        journalposttype,
        journalfoert: false,
        avskrevet: false,
        ekspedert: false,
        har_feilede_dokumenter: false,
        med_utsending,
        journalpostnummer: None,
    }
}

// ---------------------------------------------------------------------------
// The domain command
// ---------------------------------------------------------------------------

/// A command as the state rules read it: by the ids of its entities.
#[derive(PartialEq, Eq, Structural, Clone, Copy, Debug)]
pub enum DomeneKommando {
    OpprettSak { sak_id: u128 },
    AvsluttSak { sak_id: u128 },
    SettSaksansvarlig { sak_id: u128 },
    OpprettInngaaendeJournalpost { sak_id: u128, journalpost_id: u128 },
    OpprettUtgaaendeJournalpost { sak_id: u128, journalpost_id: u128 },
    OpprettInterntNotatJournalpost { sak_id: u128, journalpost_id: u128 },
}

/// The domain command of a command type; a journal entry command needs its
/// entry's id.
pub fn domain_command_for_type(
    command_type: CommandTypeCode,
    sak_id: u128,
    journalpost_id: Option<u128>,
) -> (r: Result<DomeneKommando, String>)
    ensures
        match command_type {
            CommandTypeCode::OpprettSak => r == Ok::<DomeneKommando, String>(
                DomeneKommando::OpprettSak { sak_id },
            ),
            CommandTypeCode::AvsluttSak => r == Ok::<DomeneKommando, String>(
                DomeneKommando::AvsluttSak { sak_id },
            ),
            CommandTypeCode::SettSaksansvarlig => r == Ok::<DomeneKommando, String>(
                DomeneKommando::SettSaksansvarlig { sak_id },
            ),
            CommandTypeCode::OpprettInngaaendeJournalpost => match journalpost_id {
                Some(j) => r == Ok::<DomeneKommando, String>(
                    DomeneKommando::OpprettInngaaendeJournalpost { sak_id, journalpost_id: j },
                ),
                None => r matches Err(m) && m@ == "Mangler journalpost_id for journalpost-kommando"@,
            },
            CommandTypeCode::OpprettUtgaaendeJournalpost => match journalpost_id {
                Some(j) => r == Ok::<DomeneKommando, String>(
                    DomeneKommando::OpprettUtgaaendeJournalpost { sak_id, journalpost_id: j },
                ),
                None => r matches Err(m) && m@ == "Mangler journalpost_id for journalpost-kommando"@,
            },
            CommandTypeCode::OpprettInterntNotatJournalpost => match journalpost_id {
                Some(j) => r == Ok::<DomeneKommando, String>(
                    DomeneKommando::OpprettInterntNotatJournalpost { sak_id, journalpost_id: j },
                ),
                None => r matches Err(m) && m@ == "Mangler journalpost_id for journalpost-kommando"@,
            },
        },
{
    match command_type {
        CommandTypeCode::OpprettSak => Ok(DomeneKommando::OpprettSak { sak_id }),
        CommandTypeCode::AvsluttSak => Ok(DomeneKommando::AvsluttSak { sak_id }),
        CommandTypeCode::SettSaksansvarlig => Ok(DomeneKommando::SettSaksansvarlig { sak_id }),
        CommandTypeCode::OpprettInngaaendeJournalpost => match journalpost_id {
            Some(j) => Ok(DomeneKommando::OpprettInngaaendeJournalpost { sak_id, journalpost_id: j }),
            None => Err("Mangler journalpost_id for journalpost-kommando".to_owned()),
        },
        CommandTypeCode::OpprettUtgaaendeJournalpost => match journalpost_id {
            Some(j) => Ok(DomeneKommando::OpprettUtgaaendeJournalpost { sak_id, journalpost_id: j }),
            None => Err("Mangler journalpost_id for journalpost-kommando".to_owned()),
        },
        CommandTypeCode::OpprettInterntNotatJournalpost => match journalpost_id {
            Some(j) => Ok(
                DomeneKommando::OpprettInterntNotatJournalpost { sak_id, journalpost_id: j },
            ),
            None => Err("Mangler journalpost_id for journalpost-kommando".to_owned()),
        },
    }
}

// ---------------------------------------------------------------------------
// The state rows of a registration
// ---------------------------------------------------------------------------

/// A state row that registering a command creates or updates.
#[derive(Debug)]
pub enum TilstandRad {
    /// A case vouched for by the archive exists locally under its number;
    /// an existing row is kept.
    SeedArkivId { sak_id: u128, saksnummer: String },
    /// A case to be created.
    Sak { sak_id: u128 },
    /// A journal entry to be created.
    Journalpost { journalpost_id: u128, sak_id: u128, journalposttype: JournalpostType, med_utsending: bool },
    /// A document of a new entry, in its initial state.
    Dokument {
        dokument_id: u128,
        journalpost_id: u128,
        tilstand: DokumentTilstand,
        mal_referanse: Option<u128>,
        felter: Vec<String>,
    },
    /// The owner a case is to get.
    OensketSaksansvarlig { sak_id: u128, saksbehandler_id: String, saksbehandler_enhet: String },
}

pub enum TilstandRadView {
    SeedArkivId { sak_id: u128, saksnummer: Seq<char> },
    Sak { sak_id: u128 },
    Journalpost { journalpost_id: u128, sak_id: u128, journalposttype: JournalpostType, med_utsending: bool },
    Dokument {
        dokument_id: u128,
        journalpost_id: u128,
        tilstand: DokumentTilstand,
        mal_referanse: Option<u128>,
        felter: Seq<Seq<char>>,
    },
    OensketSaksansvarlig { sak_id: u128, saksbehandler_id: Seq<char>, saksbehandler_enhet: Seq<char> },
}

impl View for TilstandRad {
    type V = TilstandRadView;

    open spec fn view(&self) -> TilstandRadView {
        match self {
            TilstandRad::SeedArkivId { sak_id, saksnummer } => TilstandRadView::SeedArkivId {
                sak_id: *sak_id,
                saksnummer: saksnummer@,
            },
            TilstandRad::Sak { sak_id } => TilstandRadView::Sak { sak_id: *sak_id },
            TilstandRad::Journalpost { journalpost_id, sak_id, journalposttype, med_utsending } => {
                TilstandRadView::Journalpost {
                    journalpost_id: *journalpost_id,
                    sak_id: *sak_id,
                    journalposttype: *journalposttype,
                    med_utsending: *med_utsending,
                }
            },
            TilstandRad::Dokument { dokument_id, journalpost_id, tilstand, mal_referanse, felter } => {
                TilstandRadView::Dokument {
                    dokument_id: *dokument_id,
                    journalpost_id: *journalpost_id,
                    tilstand: *tilstand,
                    mal_referanse: *mal_referanse,
                    felter: string_views(felter@),
                }
            },
            TilstandRad::OensketSaksansvarlig { sak_id, saksbehandler_id, saksbehandler_enhet } => {
                TilstandRadView::OensketSaksansvarlig {
                    sak_id: *sak_id,
                    saksbehandler_id: saksbehandler_id@,
                    saksbehandler_enhet: saksbehandler_enhet@,
                }
            },
        }
    }
}

pub open spec fn rader(rs: Seq<TilstandRad>) -> Seq<TilstandRadView> {
    rs.map_values(|r: TilstandRad| r@)
}

fn legg_til(rs: &mut Vec<TilstandRad>, r: TilstandRad)
    ensures
        rader(final(rs)@) == rader(old(rs)@).push(r@),
{
    let ghost before = rs@;
    rs.push(r);
    assert(rader(rs@) =~= rader(before).push(r@));
}

/// The rows of a registration, then the error that stopped it, if one did;
/// the rows before the error are written.
#[derive(Debug)]
pub struct Tilstandsplan {
    pub rader: Vec<TilstandRad>,
    pub feil: Option<String>,
}

/// A case vouched for by the archive is seeded first, whatever the command.
pub open spec fn seed_rader(sak: Option<ResolvedSakId>) -> Seq<TilstandRadView> {
    match sak {
        Some(r) => match r.origin {
            SakResolutionOrigin::ArkivId { saksnummer } => seq![
                TilstandRadView::SeedArkivId { sak_id: r.sak_id, saksnummer: saksnummer@ },
            ],
            SakResolutionOrigin::ClientReference => seq![],
        },
        None => seq![],
    }
}

/// The row of a new entry's document, in the initial state of its form.
pub open spec fn dokument_rad(r: TilstandRadView, d: Dokument, dokument_id: u128, journalpost_id: u128) -> bool {
    r matches TilstandRadView::Dokument {
        dokument_id: i,
        journalpost_id: j,
        tilstand,
        mal_referanse,
        felter,
    } && i == dokument_id && j == journalpost_id && exists|fs: Vec<String>|
        dokument_initial_av((tilstand, mal_referanse, fs), d.form) && string_views(fs@) == felter
}

pub open spec fn dokumentform_mangler_text(dokument_id: u128) -> Seq<char> {
    "Mangler dokumentform for dokument "@ + hyphenated(dokument_id)
}

/// The rows of a journal entry command: its entry, then a row per resolved
/// document id paired with the payload's document at the same position; an
/// id without a document there stops the registration.
pub open spec fn journalpost_plan_ok(
    rs: Seq<TilstandRadView>,
    feil: Option<Seq<char>>,
    seed: Seq<TilstandRadView>,
    sak: Option<ResolvedSakId>,
    journalpost_id: Option<u128>,
    journalposttype: JournalpostType,
    ds: Seq<Dokument>,
    ids: Seq<u128>,
) -> bool {
    match sak {
        None => rs == seed && feil == Some("Mangler sak_id for journalpost-kommando"@),
        Some(s) => match journalpost_id {
            None => rs == seed && feil == Some("Mangler journalpost_id for journalpost-kommando"@),
            Some(jp) => {
                let head = seed.push(
                    TilstandRadView::Journalpost {
                        journalpost_id: jp,
                        sak_id: s.sak_id,
                        journalposttype,
                        med_utsending: false,
                    },
                );
                let n = if ids.len() <= ds.len() {
                    ids.len()
                } else {
                    ds.len()
                };
                &&& rs.len() == head.len() + n
                &&& rs.take(head.len() as int) == head
                &&& forall|i: int|
                    0 <= i < n ==> dokument_rad(#[trigger] rs[head.len() + i], ds[i], ids[i], jp)
                &&& feil == if ids.len() <= ds.len() {
                    None::<Seq<char>>
                } else {
                    Some(dokumentform_mangler_text(ids[ds.len() as int]))
                }
            },
        },
    }
}

/// The rows that registering a command writes: the seed of an
/// archive-vouched case, then a new case for `OpprettSak`, the requested
/// owner for `SettSaksansvarlig`, nothing for `AvsluttSak`, and the entry
/// and its documents for a journal entry command.
pub open spec fn tilstandsplan_ok(
    r: Tilstandsplan,
    command: Command,
    sak: Option<ResolvedSakId>,
    journalpost_id: Option<u128>,
    dokument_ids: Seq<u128>,
) -> bool {
    let seed = seed_rader(sak);
    let rs = rader(r.rader@);
    let feil = opt_text(r.feil);
    match command {
        Command::OpprettSak(_) => match sak {
            None => rs == seed && feil == Some("Mangler sak_id for OpprettSak"@),
            Some(s) => rs == seed.push(TilstandRadView::Sak { sak_id: s.sak_id }) && feil is None,
        },
        Command::AvsluttSak(_) => rs == seed && feil is None,
        Command::SettSaksansvarlig(c) => match sak {
            None => rs == seed && feil == Some("Mangler sak_id for SettSaksansvarlig"@),
            Some(s) => rs == seed.push(
                TilstandRadView::OensketSaksansvarlig {
                    sak_id: s.sak_id,
                    saksbehandler_id: c.saksbehandler_id@,
                    saksbehandler_enhet: c.saksbehandler_enhet@,
                },
            ) && feil is None,
        },
        Command::OpprettInngaaendeJournalpost(c) => journalpost_plan_ok(
            rs,
            feil,
            seed,
            sak,
            journalpost_id,
            JournalpostType::Inngaende,
            c.common().dokumenter@,
            dokument_ids,
        ),
        Command::OpprettUtgaaendeJournalpost(c) => journalpost_plan_ok(
            rs,
            feil,
            seed,
            sak,
            journalpost_id,
            JournalpostType::Utgaaende,
            c.common().dokumenter@,
            dokument_ids,
        ),
        Command::OpprettInterntNotatJournalpost(c) => journalpost_plan_ok(
            rs,
            feil,
            seed,
            sak,
            journalpost_id,
            JournalpostType::InterntNotat,
            c.common().dokumenter@,
            dokument_ids,
        ),
    }
}

fn seed(sak: Option<&ResolvedSakId>) -> (r: Vec<TilstandRad>)
    ensures
        rader(r@) == seed_rader(match sak {
            Some(s) => Some(*s),
            None => None,
        }),
{
    let mut rs: Vec<TilstandRad> = Vec::new();
    if let Some(s) = sak {
        if let SakResolutionOrigin::ArkivId { saksnummer } = &s.origin {
            legg_til(&mut rs, TilstandRad::SeedArkivId { sak_id: s.sak_id, saksnummer: saksnummer.clone() });
        }
    }
    assert(rader(rs@) =~= seed_rader(match sak {
        Some(s) => Some(*s),
        None => None,
    }));
    rs
}

fn journalpost_tilstander(
    rs: Vec<TilstandRad>,
    sak: Option<&ResolvedSakId>,
    journalpost_id: Option<u128>,
    journalposttype: JournalpostType,
    dokumenter: &Vec<Dokument>,
    dokument_ids: &Vec<u128>,
) -> (r: Tilstandsplan)
    ensures
        journalpost_plan_ok(
            rader(r.rader@),
            opt_text(r.feil),
            rader(rs@),
            match sak {
                Some(s) => Some(*s),
                None => None,
            },
            journalpost_id,
            journalposttype,
            dokumenter@,
            dokument_ids@,
        ),
{
    let ghost seed_v = rader(rs@);
    let mut rs = rs;
    let s = match sak {
        None => {
            return Tilstandsplan {
                rader: rs,
                feil: Some("Mangler sak_id for journalpost-kommando".to_owned()),
            };
        },
        Some(s) => s,
    };
    let jp = match journalpost_id {
        None => {
            return Tilstandsplan {
                rader: rs,
                feil: Some("Mangler journalpost_id for journalpost-kommando".to_owned()),
            };
        },
        Some(jp) => jp,
    };
    legg_til(
        &mut rs,
        TilstandRad::Journalpost { journalpost_id: jp, sak_id: s.sak_id, journalposttype, med_utsending: false },
    );
    let ghost head = rader(rs@);
    let n: usize = if dokument_ids.len() <= dokumenter.len() {
        dokument_ids.len()
    } else {
        dokumenter.len()
    };
    let mut i: usize = 0;
    while i < n
        invariant
            n <= dokument_ids.len(),
            n <= dokumenter.len(),
            i <= n,
            rader(rs@).len() == head.len() + i,
            rader(rs@).take(head.len() as int) == head,
            forall|k: int|
                0 <= k < i ==> dokument_rad(
                    #[trigger] rader(rs@)[head.len() + k],
                    dokumenter@[k],
                    dokument_ids@[k],
                    jp,
                ),
        decreases n - i,
    {
        let (tilstand, mal_referanse, felter) = dokument_initial_tilstand(&dokumenter[i].form);
        let ghost fs = felter;
        let ghost before = rader(rs@);
        legg_til(
            &mut rs,
            TilstandRad::Dokument {
                dokument_id: dokument_ids[i],
                journalpost_id: jp,
                tilstand,
                mal_referanse,
                felter,
            },
        );
        proof {
            assert(dokument_initial_av((tilstand, mal_referanse, fs), dokumenter@[i as int].form));
            assert(dokument_rad(rader(rs@)[head.len() + i], dokumenter@[i as int], dokument_ids@[i as int], jp));
            assert(rader(rs@).take(head.len() as int) =~= before.take(head.len() as int));
            assert forall|k: int| 0 <= k < i + 1 implies dokument_rad(
                #[trigger] rader(rs@)[head.len() + k],
                dokumenter@[k],
                dokument_ids@[k],
                jp,
            ) by {
                if k < i {
                    assert(rader(rs@)[head.len() + k] == before[head.len() + k]);
                }
            }
        }
        i = i + 1;
    }
    if dokument_ids.len() > dokumenter.len() {
        let mut m = chars_of("Mangler dokumentform for dokument ");
        append_chars(&mut m, &chars_of(uuid_text(dokument_ids[n]).as_str()));
        return Tilstandsplan { rader: rs, feil: Some(string_of(&m)) };
    }
    Tilstandsplan { rader: rs, feil: None }
}

/// The state rows of a command being registered, from its resolved case,
/// entry and document ids.
pub fn entity_tilstander(
    command: &Command,
    sak: Option<&ResolvedSakId>,
    journalpost_id: Option<u128>,
    dokument_ids: &Vec<u128>,
) -> (r: Tilstandsplan)
    ensures
        tilstandsplan_ok(
            r,
            *command,
            match sak {
                Some(s) => Some(*s),
                None => None,
            },
            journalpost_id,
            dokument_ids@,
        ),
{
    let mut rs = seed(sak);
    match command {
        Command::OpprettSak(_) => match sak {
            None => Tilstandsplan { rader: rs, feil: Some("Mangler sak_id for OpprettSak".to_owned()) },
            Some(s) => {
                legg_til(&mut rs, TilstandRad::Sak { sak_id: s.sak_id });
                Tilstandsplan { rader: rs, feil: None }
            },
        },
        Command::AvsluttSak(_) => Tilstandsplan { rader: rs, feil: None },
        Command::SettSaksansvarlig(c) => match sak {
            None => Tilstandsplan {
                rader: rs,
                feil: Some("Mangler sak_id for SettSaksansvarlig".to_owned()),
            },
            Some(s) => {
                legg_til(
                    &mut rs,
                    TilstandRad::OensketSaksansvarlig {
                        sak_id: s.sak_id,
                        saksbehandler_id: c.saksbehandler_id.clone(),
                        saksbehandler_enhet: c.saksbehandler_enhet.clone(),
                    },
                );
                Tilstandsplan { rader: rs, feil: None }
            },
        },
        Command::OpprettInngaaendeJournalpost(c) => journalpost_tilstander(
            rs,
            sak,
            journalpost_id,
            JournalpostType::Inngaende,
            &c.felles().dokumenter,
            dokument_ids,
        ),
        Command::OpprettUtgaaendeJournalpost(c) => journalpost_tilstander(
            rs,
            sak,
            journalpost_id,
            JournalpostType::Utgaaende,
            &c.felles().dokumenter,
            dokument_ids,
        ),
        Command::OpprettInterntNotatJournalpost(c) => journalpost_tilstander(
            rs,
            sak,
            journalpost_id,
            JournalpostType::InterntNotat,
            &c.felles().dokumenter,
            dokument_ids,
        ),
    }
}

// ---------------------------------------------------------------------------
// Looking up ids
// ---------------------------------------------------------------------------

/// The message for a client's reference that the id mapping does not know.
pub open spec fn skuffen_id_mangler_text(entitet: EntitetType, client_reference: u128) -> Seq<char> {
    "Fant ikke skuffen_id for "@ + entitet_code(entitet) + " client_reference "@ + hyphenated(
        client_reference,
    )
}

pub fn skuffen_id_mangler(entitet: EntitetType, client_reference: u128) -> (r: String)
    ensures
        r@ == skuffen_id_mangler_text(entitet, client_reference),
{
    let mut m = chars_of("Fant ikke skuffen_id for ");
    append_chars(&mut m, &chars_of(as_code(entitet)));
    append_chars(&mut m, &chars_of(" client_reference "));
    append_chars(&mut m, &chars_of(uuid_text(client_reference).as_str()));
    string_of(&m)
}

/// The id behind a client's reference when registering: a reference the
/// mapping does not know is an error.
pub fn id_eller_mangler(entitet: EntitetType, client_reference: u128, funnet: Option<u128>) -> (r:
    Result<u128, String>)
    ensures
        match funnet {
            Some(id) => r == Ok::<u128, String>(id),
            None => r matches Err(m) && m@ == skuffen_id_mangler_text(entitet, client_reference),
        },
{
    match funnet {
        Some(id) => Ok(id),
        None => Err(skuffen_id_mangler(entitet, client_reference)),
    }
}

/// The id behind a client's reference during execution: the mapping's
/// failure and an unknown reference are both retried.
pub fn entitet_id_fra_oppslag(
    entitet: EntitetType,
    client_reference: u128,
    oppslag: Result<Option<u128>, String>,
) -> (r: Result<u128, EksekveringFeil>)
    ensures
        match oppslag {
            Ok(Some(id)) => r matches Ok(i) && i == id,
            Ok(None) => r matches Err(e) && e.feiltype == EksekveringFeiltype::Recoverable && e.melding@
                == skuffen_id_mangler_text(entitet, client_reference),
            Err(t) => r matches Err(e) && e.feiltype == EksekveringFeiltype::Recoverable && e.melding@
                == t@,
        },
{
    match oppslag {
        Ok(Some(id)) => Ok(id),
        Ok(None) => Err(EksekveringFeil::recoverable(skuffen_id_mangler(entitet, client_reference))),
        Err(t) => Err(EksekveringFeil::recoverable(t)),
    }
}

pub open spec fn arkiv_id_mangler_text(saksnummer: Seq<char>) -> Seq<char> {
    "Fant ikke skuffen_id for sak arkiv_id "@ + saksnummer
}

/// The case behind a case number during execution: a number the mapping
/// does not know yet waits, the mapping's failure is retried.
pub fn sak_id_fra_arkiv_oppslag(saksnummer: &str, oppslag: Result<Option<u128>, String>) -> (r: Result<
    u128,
    EksekveringFeil,
>)
    ensures
        match oppslag {
            Ok(Some(id)) => r matches Ok(i) && i == id,
            Ok(None) => r matches Err(e) && e.feiltype == EksekveringFeiltype::Blocked && e.melding@
                == arkiv_id_mangler_text(saksnummer@),
            Err(t) => r matches Err(e) && e.feiltype == EksekveringFeiltype::Recoverable && e.melding@
                == t@,
        },
{
    match oppslag {
        Ok(Some(id)) => Ok(id),
        Ok(None) => {
            let mut m = chars_of("Fant ikke skuffen_id for sak arkiv_id ");
            append_chars(&mut m, &chars_of(saksnummer));
            Err(EksekveringFeil::blocked(string_of(&m)))
        },
        Err(t) => Err(EksekveringFeil::recoverable(t)),
    }
}

/// What registering a journal entry command seeds: the entry's case key,
/// its client reference, its type and whether it is dispatched; nothing for
/// a command that creates no entry.
pub fn journalpost_registrering(command: &Command) -> (r: Option<(&SakKey, u128, JournalpostType, bool)>)
    ensures
        match command {
            Command::OpprettInngaaendeJournalpost(c) => r matches Some((k, cr, t, u)) && *k == c.common().sak_key
                && cr == c.common().client_reference && t == JournalpostType::Inngaende && u
                == (c is UtgaaendeMedUtsending),
            Command::OpprettUtgaaendeJournalpost(c) => r matches Some((k, cr, t, u)) && *k == c.common().sak_key
                && cr == c.common().client_reference && t == JournalpostType::Utgaaende && u
                == (c is UtgaaendeMedUtsending),
            Command::OpprettInterntNotatJournalpost(c) => r matches Some((k, cr, t, u)) && *k
                == c.common().sak_key && cr == c.common().client_reference && t
                == JournalpostType::InterntNotat && u == (c is UtgaaendeMedUtsending),
            _ => r is None,
        },
{
    match command {
        Command::OpprettInngaaendeJournalpost(c) => Some(
            (&c.felles().sak_key, c.felles().client_reference, JournalpostType::Inngaende, c.med_utsending()),
        ),
        Command::OpprettUtgaaendeJournalpost(c) => Some(
            (&c.felles().sak_key, c.felles().client_reference, JournalpostType::Utgaaende, c.med_utsending()),
        ),
        Command::OpprettInterntNotatJournalpost(c) => Some(
            (&c.felles().sak_key, c.felles().client_reference, JournalpostType::InterntNotat, c.med_utsending()),
        ),
        _ => None,
    }
}

} // verus!
