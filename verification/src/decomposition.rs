//! Decomposing a validated command: the rows that materialise its case,
//! journal entry and documents, which are written together with its
//! operations.
use vstd::prelude::*;

use crate::command::{
    korrespondanseparter, parter_av, tilgang, tilgang_av, Command, Dokument, Dokumentform,
    JournalpostCommon, Korrespondanseparter, OpprettJournalpostCommand, OpprettSakCommand, SakKey,
    SakKeyView, Tilgang,
};
use crate::ids::{new_v7, nibble, rfc_variant};
use crate::operasjon::Operasjonstype;
use crate::readiness::JournalpostType;

verus! {

/// The kind of a registered entity.
#[derive(PartialEq, Eq, Structural, Clone, Copy, Debug)]
pub enum EntitetType {
    Sak,
    Journalpost,
    Dokument,
}

pub open spec fn entitet_code(t: EntitetType) -> Seq<char> {
    match t {
        EntitetType::Sak => "sak"@,
        EntitetType::Journalpost => "journalpost"@,
        EntitetType::Dokument => "dokument"@,
    }
}

pub fn as_code(t: EntitetType) -> (r: &'static str)
    ensures
        r@ == entitet_code(t),
{
    match t {
        EntitetType::Sak => "sak",
        EntitetType::Journalpost => "journalpost",
        EntitetType::Dokument => "dokument",
    }
}

/// The stored attributes of a case created by the service.
#[derive(Debug)]
pub struct SakAttributter {
    pub sakstittel: String,
    pub arkivdel: String,
    pub ordningsverdi: String,
    pub saksbehandler_id: String,
    pub saksbehandler_enhet: String,
    pub tilgang: Tilgang,
}

/// The row of a case: how it is known, its attributes when the service
/// creates it, and a requested new owner.
#[derive(Debug)]
pub struct SakRad {
    pub sak_id: u128,
    pub client_reference: Option<u128>,
    pub arkiv_id: Option<String>,
    pub attributter: Option<SakAttributter>,
    pub oensket_saksansvarlig: Option<(String, String)>,
}

/// The row of a case that a command refers to: known by its client reference
/// or by its case number, with no attributes of its own.
pub open spec fn eksisterende_sak_av(
    r: SakRad,
    sak_id: u128,
    sak_key: SakKeyView,
    oensket_saksansvarlig: Option<(String, String)>,
) -> bool {
    &&& r.sak_id == sak_id
    &&& r.attributter is None
    &&& r.oensket_saksansvarlig == oensket_saksansvarlig
    &&& match sak_key {
        SakKeyView::ClientReference(u) => r.client_reference == Some(u) && r.arkiv_id is None,
        SakKeyView::ArkivId(s) => r.client_reference is None && (r.arkiv_id matches Some(a) && a@
            == s),
    }
}

pub fn eksisterende_sak(sak_id: u128, sak_key: &SakKey, oensket_saksansvarlig: Option<(String, String)>) -> (r:
    SakRad)
    ensures
        eksisterende_sak_av(r, sak_id, sak_key@, oensket_saksansvarlig),
{
    let (client_reference, arkiv_id) = match sak_key {
        SakKey::ClientReference(client_reference) => (Some(*client_reference), None),
        SakKey::ArkivId(arkiv_id) => (None, Some(arkiv_id.clone())),
    };
    SakRad { sak_id, client_reference, arkiv_id, attributter: None, oensket_saksansvarlig }
}

/// The row of a case that an `OpprettSak` command creates.
pub open spec fn ny_sak_av(r: SakRad, sak_id: u128, command: OpprettSakCommand) -> bool {
    &&& r.sak_id == sak_id
    &&& r.client_reference == Some(command.client_reference)
    &&& r.arkiv_id is None
    &&& r.oensket_saksansvarlig is None
    &&& r.attributter matches Some(a) && a.sakstittel@ == command.sakstittel@ && a.arkivdel@
        == command.arkivdel@ && a.ordningsverdi@ == command.ordningsverdi@ && a.saksbehandler_id@
        == command.saksbehandler_id@ && a.saksbehandler_enhet@ == command.saksbehandler_enhet@
        && tilgang_av(a.tilgang, command.tilgjengelighet)
}

pub fn ny_sak(sak_id: u128, command: &OpprettSakCommand) -> (r: SakRad)
    ensures
        ny_sak_av(r, sak_id, *command),
{
    SakRad {
        sak_id,
        client_reference: Some(command.client_reference),
        arkiv_id: None,
        attributter: Some(
            SakAttributter {
                sakstittel: command.sakstittel.clone(),
                arkivdel: command.arkivdel.clone(),
                ordningsverdi: command.ordningsverdi.clone(),
                saksbehandler_id: command.saksbehandler_id.clone(),
                saksbehandler_enhet: command.saksbehandler_enhet.clone(),
                tilgang: tilgang(&command.tilgjengelighet),
            },
        ),
        oensket_saksansvarlig: None,
    }
}

/// A document's position on its journal entry; the entry holds at most
/// 65 536 documents.
pub fn dokument_rekkefolge(indeks: usize) -> (r: Result<u16, String>)
    ensures
        indeks <= u16::MAX ==> r == Ok::<u16, String>(indeks as u16),
        indeks > u16::MAX ==> (r matches Err(m) && m@ == "for mange dokumenter på journalposten"@),
{
    if indeks <= 65535 {
        Ok(indeks as u16)
    } else {
        Err("for mange dokumenter på journalposten".to_owned())
    }
}

/// The type check on a client reference: the registered entity must be of
/// the expected kind, so a reused reference cannot pass one kind's id as
/// another's.
pub fn sjekk_entitet_type(funnet: EntitetType, forventet: EntitetType) -> (r: Result<(), String>)
    ensures
        funnet == forventet ==> r is Ok,
        funnet != forventet ==> (r matches Err(m) && m@
            == "entitet type mismatch for client reference: expected "@ + entitet_code(forventet)
            + ", got "@ + entitet_code(funnet)),
{
    if funnet == forventet {
        Ok(())
    } else {
        let mut m = "entitet type mismatch for client reference: expected ".to_owned();
        m.append(as_code(forventet));
        m.append(", got ");
        m.append(as_code(funnet));
        Err(m)
    }
}

/// The id behind a client reference during decomposition: an entity must be
/// registered for it (its kind and id), and of the expected kind; a missing
/// one means validation let the command through, and decomposition does not
/// repair it.
pub fn registrert_entitet_id(funnet: Option<(EntitetType, u128)>, forventet: EntitetType) -> (r: Result<
    u128,
    String,
>)
    ensures
        match funnet {
            None => r matches Err(m) && m@ == "no entitet registered for client reference"@,
            Some((t, id)) => if t == forventet {
                r == Ok::<u128, String>(id)
            } else {
                r matches Err(m) && m@ == "entitet type mismatch for client reference: expected "@
                    + entitet_code(forventet) + ", got "@ + entitet_code(t)
            },
        },
{
    match funnet {
        None => Err("no entitet registered for client reference".to_owned()),
        Some((t, id)) => match sjekk_entitet_type(t, forventet) {
            Ok(()) => Ok(id),
            Err(m) => Err(m),
        },
    }
}

/// Where a document's content comes from, as the execution reads it.
#[derive(Debug)]
pub enum Dokumentkilde {
    Bytes { dokument_referanse: u128, filtype: String },
    HtmlTemplate {
        mal_referanse: u128,
        felter: Vec<String>,
        rendered_dokument_referanse: Option<u128>,
    },
}

/// A document's source: supplied bytes as they are, a template with its
/// fields and nothing rendered yet.
pub open spec fn kilde_av(r: Dokumentkilde, form: Dokumentform) -> bool {
    match form {
        Dokumentform::Bytes { dokument_referanse, filtype } => r matches Dokumentkilde::Bytes {
            dokument_referanse: d,
            filtype: f,
        } && d == dokument_referanse && f@ == filtype@,
        Dokumentform::HtmlTemplate { mal_referanse, felter } => r matches Dokumentkilde::HtmlTemplate {
            mal_referanse: m,
            felter: fs,
            rendered_dokument_referanse: None,
        } && m == mal_referanse && crate::command::string_views(fs@) == crate::command::string_views(
            felter@,
        ),
    }
}

pub fn dokumentkilde(dokument: &Dokument) -> (r: Dokumentkilde)
    ensures
        kilde_av(r, dokument.form),
{
    match &dokument.form {
        Dokumentform::Bytes { dokument_referanse, filtype } => Dokumentkilde::Bytes {
            dokument_referanse: *dokument_referanse,
            filtype: filtype.clone(),
        },
        Dokumentform::HtmlTemplate { mal_referanse, felter } => {
            let fs = crate::command::copy_strings(felter);
            Dokumentkilde::HtmlTemplate {
                mal_referanse: *mal_referanse,
                felter: fs,
                rendered_dokument_referanse: None,
            }
        },
    }
}

/// Decomposes validated commands once into operations. It holds the entity
/// registry, the operation repository and the status publisher.
pub struct DekomponerCommandService<E, O, S> {
    pub entitet: E,
    pub operasjon: O,
    pub status_publisher: S,
}

impl<E, O, S> DekomponerCommandService<E, O, S> {
    pub fn new(entitet: E, operasjon: O, status_publisher: S) -> (r: Self)
        ensures
            r.entitet == entitet,
            r.operasjon == operasjon,
            r.status_publisher == status_publisher,
    {
        DekomponerCommandService { entitet, operasjon, status_publisher }
    }

}

// ---------------------------------------------------------------------------
// The plan of a decomposition
// ---------------------------------------------------------------------------

/// The form of a document's source, as the operations depend on it.
#[derive(PartialEq, Eq, Structural, Clone, Copy, Debug)]
pub enum Kildeform {
    Bytes,
    HtmlTemplate,
}

pub open spec fn kildeform(form: Dokumentform) -> Kildeform {
    match form {
        Dokumentform::Bytes { .. } => Kildeform::Bytes,
        Dokumentform::HtmlTemplate { .. } => Kildeform::HtmlTemplate,
    }
}

/// A document as the decomposition into operations reads it.
#[derive(PartialEq, Eq, Structural, Clone, Copy, Debug)]
pub struct DokumentSpesifikasjon {
    pub dokument_id: u128,
    pub rekkefolge: u16,
    pub kilde: Kildeform,
}

/// What a command is decomposed from.
#[derive(Debug)]
pub enum Dekomponeringsinput {
    OpprettSak { sak_id: u128 },
    AvsluttSak { sak_id: u128 },
    SettSaksansvarlig { sak_id: u128 },
    OpprettJournalpost {
        sak_id: u128,
        journalpost_id: u128,
        journalposttype: JournalpostType,
        med_utsending: bool,
        dokumenter: Vec<DokumentSpesifikasjon>,
    },
}

#[derive(Debug)]
pub struct DokumentAttributter {
    pub tittel: String,
    pub rekkefolge: u16,
    pub kilde: Dokumentkilde,
}

/// The row of a document of a new journal entry.
#[derive(Debug)]
pub struct DokumentRad {
    pub dokument_id: u128,
    pub journalpost_id: u128,
    pub client_reference: u128,
    pub attributter: DokumentAttributter,
}

#[derive(Debug)]
pub struct JournalpostAttributter {
    pub client_reference: u128,
    pub tittel: String,
    pub dokument_dato: String,
    pub journalposttype: JournalpostType,
    pub med_utsending: bool,
    pub saksbehandler_id: String,
    pub saksbehandler_enhet: String,
    pub tilgang: Tilgang,
    pub korrespondanseparter: Korrespondanseparter,
    pub kildesystem: Option<String>,
}

/// The row of a new journal entry.
#[derive(Debug)]
pub struct JournalpostRad {
    pub journalpost_id: u128,
    pub client_reference: u128,
    pub attributter: JournalpostAttributter,
}

/// The rows that a command materialises.
#[derive(Debug)]
pub struct Rader {
    pub sak: SakRad,
    pub journalpost: Option<JournalpostRad>,
    pub dokumenter: Vec<DokumentRad>,
}

/// The `i`th document of a new entry, as the decomposition reads it.
pub open spec fn spesifikasjon_av(s: DokumentSpesifikasjon, d: Dokument, dokument_id: u128, i: int) -> bool {
    &&& s.dokument_id == dokument_id
    &&& s.rekkefolge == i
    &&& s.kilde == kildeform(d.form)
}

/// The row of the `i`th document of a new entry: its id, its entry, its
/// client's reference, its title, its position and its source.
pub open spec fn dokument_rad_av(
    r: DokumentRad,
    d: Dokument,
    dokument_id: u128,
    journalpost_id: u128,
    i: int,
) -> bool {
    &&& r.dokument_id == dokument_id
    &&& r.journalpost_id == journalpost_id
    &&& r.client_reference == d.client_reference
    &&& r.attributter.tittel@ == d.tittel@
    &&& r.attributter.rekkefolge == i
    &&& kilde_av(r.attributter.kilde, d.form)
}

/// The row of a new entry: the command's fields, its kind and dispatch, its
/// access and its correspondents.
pub open spec fn journalpost_rad_av(
    r: JournalpostRad,
    command: OpprettJournalpostCommand,
    journalposttype: JournalpostType,
    journalpost_id: u128,
) -> bool {
    let felles = *command.common();
    let a = r.attributter;
    &&& r.journalpost_id == journalpost_id
    &&& r.client_reference == felles.client_reference
    &&& a.client_reference == felles.client_reference
    &&& a.tittel@ == felles.tittel@
    &&& a.dokument_dato@ == felles.dokument_dato@
    &&& a.journalposttype == journalposttype
    &&& a.med_utsending == (command is UtgaaendeMedUtsending)
    &&& a.saksbehandler_id@ == felles.saksbehandler@
    &&& a.saksbehandler_enhet@ == felles.saksbehandler_enhet@
    &&& tilgang_av(a.tilgang, felles.tilgjengelighet)
    &&& parter_av(a.korrespondanseparter, command)
    &&& a.kildesystem == felles.kildesystem
}

/// The decomposition of a journal entry command with its resolved ids: the
/// input names the case, the entry, its kind, its dispatch and its documents
/// in payload order; the rows are the case as it is known, the entry, and a
/// row per document.
pub open spec fn journalpost_plan_av(
    command: OpprettJournalpostCommand,
    journalposttype: JournalpostType,
    sak_id: u128,
    journalpost_id: u128,
    dokument_ids: Seq<u128>,
    input: Dekomponeringsinput,
    rader: Rader,
) -> bool {
    let felles = *command.common();
    let ds = felles.dokumenter@;
    &&& input matches Dekomponeringsinput::OpprettJournalpost {
        sak_id: s,
        journalpost_id: j,
        journalposttype: t,
        med_utsending: m,
        dokumenter: specs,
    }
    &&& s == sak_id && j == journalpost_id && t == journalposttype
    &&& m == (command is UtgaaendeMedUtsending)
    &&& specs@.len() == ds.len()
    &&& forall|i: int| 0 <= i < ds.len() ==> spesifikasjon_av(
        #[trigger] specs@[i],
        ds[i],
        dokument_ids[i],
        i,
    )
    &&& eksisterende_sak_av(rader.sak, sak_id, felles.sak_key@, None)
    &&& rader.journalpost matches Some(jp) && journalpost_rad_av(jp, command, journalposttype, journalpost_id)
    &&& rader.dokumenter@.len() == ds.len()
    &&& forall|i: int| 0 <= i < ds.len() ==> dokument_rad_av(
        #[trigger] rader.dokumenter@[i],
        ds[i],
        dokument_ids[i],
        journalpost_id,
        i,
    )
}

/// The rows and decomposition input of a journal entry command, the
/// documents in payload order, which is the order the entry gets them in; an
/// entry holds at most 65 536 documents. `dokument_ids[i]` is the id of the
/// `i`th document.
pub fn journalpost_rader(
    command: &OpprettJournalpostCommand,
    journalposttype: JournalpostType,
    sak_id: u128,
    journalpost_id: u128,
    dokument_ids: &Vec<u128>,
) -> (r: Result<(Dekomponeringsinput, Rader), String>)
    requires
        dokument_ids.len() == command.common().dokumenter.len(),
    ensures
        r is Err <==> command.common().dokumenter.len() > 65536,
        r matches Err(m) ==> m@ == "for mange dokumenter på journalposten"@,
        r matches Ok((input, rader)) ==> journalpost_plan_av(
            *command,
            journalposttype,
            sak_id,
            journalpost_id,
            dokument_ids@,
            input,
            rader,
        ),
{
    let felles: &JournalpostCommon = command.felles();
    let ghost ds = felles.dokumenter@;
    let mut specs: Vec<DokumentSpesifikasjon> = Vec::new();
    let mut rader: Vec<DokumentRad> = Vec::new();
    let mut i: usize = 0;
    while i < felles.dokumenter.len()
        invariant
            felles == command.common(),
            ds == felles.dokumenter@,
            dokument_ids.len() == ds.len(),
            i <= ds.len(),
            i <= 65536,
            specs@.len() == i,
            rader@.len() == i,
            forall|k: int| 0 <= k < i ==> spesifikasjon_av(
                #[trigger] specs@[k],
                ds[k],
                dokument_ids@[k],
                k,
            ),
            forall|k: int| 0 <= k < i ==> dokument_rad_av(
                #[trigger] rader@[k],
                ds[k],
                dokument_ids@[k],
                journalpost_id,
                k,
            ),
        decreases ds.len() - i,
    {
        let rekkefolge = match dokument_rekkefolge(i) {
            Ok(n) => n,
            Err(m) => {
                return Err(m);
            },
        };
        let dokument = &felles.dokumenter[i];
        let dokument_id = dokument_ids[i];
        let kilde = dokumentkilde(dokument);
        let form = match &dokument.form {
            Dokumentform::Bytes { .. } => Kildeform::Bytes,
            Dokumentform::HtmlTemplate { .. } => Kildeform::HtmlTemplate,
        };
        specs.push(DokumentSpesifikasjon { dokument_id, rekkefolge, kilde: form });
        rader.push(
            DokumentRad {
                dokument_id,
                journalpost_id,
                client_reference: dokument.client_reference,
                attributter: DokumentAttributter { tittel: dokument.tittel.clone(), rekkefolge, kilde },
            },
        );
        i = i + 1;
    }
    let med_utsending = command.med_utsending();
    let sak = eksisterende_sak(sak_id, &felles.sak_key, None);
    let journalpost = JournalpostRad {
        journalpost_id,
        client_reference: felles.client_reference,
        attributter: JournalpostAttributter {
            client_reference: felles.client_reference,
            tittel: felles.tittel.clone(),
            dokument_dato: felles.dokument_dato.clone(),
            journalposttype,
            med_utsending,
            saksbehandler_id: felles.saksbehandler.clone(),
            saksbehandler_enhet: felles.saksbehandler_enhet.clone(),
            tilgang: tilgang(&felles.tilgjengelighet),
            korrespondanseparter: korrespondanseparter(command),
            kildesystem: felles.kildesystem.clone(),
        },
    };
    let input = Dekomponeringsinput::OpprettJournalpost {
        sak_id,
        journalpost_id,
        journalposttype,
        med_utsending,
        dokumenter: specs,
    };
    Ok((input, Rader { sak, journalpost: Some(journalpost), dokumenter: rader }))
}

/// The decomposition of a command with its resolved ids: creating a case
/// writes the new case; closing one or setting its owner refers to the case
/// as it is known, the latter with the requested owner; a journal entry
/// command is decomposed as `journalpost_plan_av` says. `journalpost_id` and
/// `dokument_ids` are read for journal entry commands only.
pub open spec fn plan_av(
    command: Command,
    sak_id: u128,
    journalpost_id: u128,
    dokument_ids: Seq<u128>,
    input: Dekomponeringsinput,
    rader: Rader,
) -> bool {
    match command {
        Command::OpprettSak(c) => {
            &&& input == Dekomponeringsinput::OpprettSak { sak_id }
            &&& ny_sak_av(rader.sak, sak_id, c)
            &&& rader.journalpost is None
            &&& rader.dokumenter@.len() == 0
        },
        Command::AvsluttSak(c) => {
            &&& input == Dekomponeringsinput::AvsluttSak { sak_id }
            &&& eksisterende_sak_av(rader.sak, sak_id, c.sak_key@, None)
            &&& rader.journalpost is None
            &&& rader.dokumenter@.len() == 0
        },
        Command::SettSaksansvarlig(c) => {
            &&& input == Dekomponeringsinput::SettSaksansvarlig { sak_id }
            &&& eksisterende_sak_av(
                rader.sak,
                sak_id,
                c.sak_key@,
                Some((c.saksbehandler_id, c.saksbehandler_enhet)),
            )
            &&& rader.journalpost is None
            &&& rader.dokumenter@.len() == 0
        },
        Command::OpprettInngaaendeJournalpost(c) => journalpost_plan_av(
            c,
            JournalpostType::Inngaende,
            sak_id,
            journalpost_id,
            dokument_ids,
            input,
            rader,
        ),
        Command::OpprettUtgaaendeJournalpost(c) => journalpost_plan_av(
            c,
            JournalpostType::Utgaaende,
            sak_id,
            journalpost_id,
            dokument_ids,
            input,
            rader,
        ),
        Command::OpprettInterntNotatJournalpost(c) => journalpost_plan_av(
            c,
            JournalpostType::InterntNotat,
            sak_id,
            journalpost_id,
            dokument_ids,
            input,
            rader,
        ),
    }
}

/// The documents of a journal entry command; none for another command.
pub open spec fn dokumenter_av(command: Command) -> Seq<Dokument> {
    match command {
        Command::OpprettInngaaendeJournalpost(c) => c.common().dokumenter@,
        Command::OpprettUtgaaendeJournalpost(c) => c.common().dokumenter@,
        Command::OpprettInterntNotatJournalpost(c) => c.common().dokumenter@,
        _ => Seq::empty(),
    }
}

pub fn bygg_rader(command: &Command, sak_id: u128, journalpost_id: u128, dokument_ids: &Vec<u128>) -> (r:
    Result<(Dekomponeringsinput, Rader), String>)
    requires
        dokument_ids.len() == dokumenter_av(*command).len(),
    ensures
        r is Err <==> dokumenter_av(*command).len() > 65536,
        r matches Err(m) ==> m@ == "for mange dokumenter på journalposten"@,
        r matches Ok((input, rader)) ==> plan_av(
            *command,
            sak_id,
            journalpost_id,
            dokument_ids@,
            input,
            rader,
        ),
{
    match command {
        Command::OpprettSak(c) => Ok(
            (
                Dekomponeringsinput::OpprettSak { sak_id },
                Rader { sak: ny_sak(sak_id, c), journalpost: None, dokumenter: Vec::new() },
            ),
        ),
        Command::AvsluttSak(c) => Ok(
            (
                Dekomponeringsinput::AvsluttSak { sak_id },
                Rader {
                    sak: eksisterende_sak(sak_id, &c.sak_key, None),
                    journalpost: None,
                    dokumenter: Vec::new(),
                },
            ),
        ),
        Command::SettSaksansvarlig(c) => {
            let oensket = Some((c.saksbehandler_id.clone(), c.saksbehandler_enhet.clone()));
            Ok(
                (
                    Dekomponeringsinput::SettSaksansvarlig { sak_id },
                    Rader {
                        sak: eksisterende_sak(sak_id, &c.sak_key, oensket),
                        journalpost: None,
                        dokumenter: Vec::new(),
                    },
                ),
            )
        },
        Command::OpprettInngaaendeJournalpost(c) => journalpost_rader(
            c,
            JournalpostType::Inngaende,
            sak_id,
            journalpost_id,
            dokument_ids,
        ),
        Command::OpprettUtgaaendeJournalpost(c) => journalpost_rader(
            c,
            JournalpostType::Utgaaende,
            sak_id,
            journalpost_id,
            dokument_ids,
        ),
        Command::OpprettInterntNotatJournalpost(c) => journalpost_rader(
            c,
            JournalpostType::InterntNotat,
            sak_id,
            journalpost_id,
            dokument_ids,
        ),
    }
}

/// The entity an operation acts on.
#[derive(PartialEq, Eq, Structural, Clone, Copy, Debug)]
pub enum EntitetId {
    Sak(u128),
    Journalpost(u128),
    Dokument(u128),
}

/// An operation as the decomposition rules give it.
#[derive(PartialEq, Eq, Structural, Clone, Copy, Debug)]
pub struct OperasjonSpesifikasjon {
    pub operasjonstype: Operasjonstype,
    pub entitet_id: EntitetId,
}

/// An operation row of a plan.
#[derive(PartialEq, Eq, Structural, Clone, Copy, Debug)]
pub struct OperasjonRad {
    pub operasjon_id: u128,
    pub operasjonstype: Operasjonstype,
    pub entitet_id: EntitetId,
    pub sak_id: u128,
}

/// What is written in one transaction when a command is decomposed.
#[derive(Debug)]
pub struct Dekomponeringsplan {
    pub command_id: u128,
    pub sak: SakRad,
    pub journalpost: Option<JournalpostRad>,
    pub dokumenter: Vec<DokumentRad>,
    pub operasjoner: Vec<OperasjonRad>,
}

/// The plan of a command: its rows, and a row per operation of the
/// decomposition, in its order, with the case's id and an id that is a
/// time-ordered (version 7, RFC 4122 variant) UUID. Each id is drawn anew
/// from the clock; that the drawn ids differ from each other is not stated.
pub fn plan(command_id: u128, rader: Rader, spesifikasjoner: &Vec<OperasjonSpesifikasjon>) -> (r:
    Dekomponeringsplan)
    ensures
        r.command_id == command_id,
        r.sak == rader.sak,
        r.journalpost == rader.journalpost,
        r.dokumenter == rader.dokumenter,
        r.operasjoner@.len() == spesifikasjoner@.len(),
        forall|i: int|
            0 <= i < spesifikasjoner@.len() ==> {
                let o = #[trigger] r.operasjoner@[i];
                &&& o.operasjonstype == spesifikasjoner@[i].operasjonstype
                &&& o.entitet_id == spesifikasjoner@[i].entitet_id
                &&& o.sak_id == rader.sak.sak_id
                &&& nibble(o.operasjon_id, 12) == 7
                &&& rfc_variant(o.operasjon_id)
            },
{
    let sak_id = rader.sak.sak_id;
    let mut operasjoner: Vec<OperasjonRad> = Vec::new();
    let mut i: usize = 0;
    while i < spesifikasjoner.len()
        invariant
            i <= spesifikasjoner.len(),
            operasjoner@.len() == i,
            forall|k: int|
                0 <= k < i ==> {
                    let o = #[trigger] operasjoner@[k];
                    &&& o.operasjonstype == spesifikasjoner@[k].operasjonstype
                    &&& o.entitet_id == spesifikasjoner@[k].entitet_id
                    &&& o.sak_id == sak_id
                    &&& nibble(o.operasjon_id, 12) == 7
                    &&& rfc_variant(o.operasjon_id)
                },
        decreases spesifikasjoner.len() - i,
    {
        let spesifikasjon = spesifikasjoner[i];
        operasjoner.push(
            OperasjonRad {
                operasjon_id: new_v7(),
                operasjonstype: spesifikasjon.operasjonstype,
                entitet_id: spesifikasjon.entitet_id,
                sak_id,
            },
        );
        i = i + 1;
    }
    Dekomponeringsplan {
        command_id,
        sak: rader.sak,
        journalpost: rader.journalpost,
        dokumenter: rader.dokumenter,
        operasjoner,
    }
}

} // verus!
