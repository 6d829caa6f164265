//! The command executor's decisions: what a state decision leads to, whom an
//! operation wakes, how a command is registered for execution, and how the
//! worker records an execution pass.
use vstd::prelude::*;

use crate::command::{opt_view, string_views, CommandTypeCode, Dokumentform};
use crate::decomposition::Dokumentkilde;
use crate::execution_detail::EksekveringFeil;
use crate::ids::{hyphenated, uuid_text};
use crate::readiness::JournalpostType;
use crate::status::ExecutionOutcome;
use crate::text::{append_chars, chars_of, string_of};

verus! {

// ---------------------------------------------------------------------------
// State decisions
// ---------------------------------------------------------------------------

/// One archive operation of a command.
#[derive(PartialEq, Eq, Structural, Clone, Copy, Debug)]
pub enum ArkivOperasjon {
    OpprettSak { sak_id: u128 },
    OpprettJournalpost { journalpost_id: u128 },
    LeggTilDokument { journalpost_id: u128, dokument_id: u128 },
    RenderDokument { journalpost_id: u128, dokument_id: u128 },
    Journalfoer { journalpost_id: u128 },
    Avskriv { journalpost_id: u128 },
    AvsluttSak { sak_id: u128 },
    SettSaksansvarlig { sak_id: u128 },
}

/// Why a command waits: its safe detail and the category of change that can
/// release it.
#[derive(Debug)]
pub struct BlockedReason {
    pub safe_detail: String,
    pub trigger_category: String,
}

/// The reason for a command whose case has no state yet.
pub fn entity_missing() -> (r: BlockedReason)
    ensures
        r.safe_detail@ == "blocked_reason=entity_missing"@,
        r.trigger_category@ == "entity_fakta_endret"@,
{
    BlockedReason {
        safe_detail: "blocked_reason=entity_missing".to_owned(),
        trigger_category: "entity_fakta_endret".to_owned(),
    }
}

/// What the state rules decide for a command from its case's facts.
#[derive(Debug)]
pub enum CommandStateDecision {
    Ready(ArkivOperasjon),
    Blocked(BlockedReason),
    Done,
    /// The command violates the domain; the safe detail says how.
    Invalid(String),
}

/// The detail of a blocked command: the reason and its trigger category.
pub open spec fn blocked_text(reason: BlockedReason) -> Seq<char> {
    reason.safe_detail@ + " trigger_category="@ + reason.trigger_category@
}

pub fn blocked_detail(reason: &BlockedReason) -> (r: String)
    ensures
        r@ == blocked_text(*reason),
{
    let mut out = reason.safe_detail.clone();
    out.append(" trigger_category=");
    out.append(reason.trigger_category.as_str());
    out
}

/// The queue status of a command.
#[derive(PartialEq, Eq, Structural, Clone, Copy, Debug)]
pub enum EksekveringStatus {
    Klar,
    BlokkertVenter,
}

/// Registration only decides whether a command starts ready or blocked: a
/// ready, done or invalid command starts ready, so that the executor alone
/// settles success and failure; a blocked one starts blocked with its detail.
pub fn registration_initial_status(decision: &CommandStateDecision) -> (r: (
    EksekveringStatus,
    Option<String>,
))
    ensures
        match decision {
            CommandStateDecision::Blocked(reason) => r.0 == EksekveringStatus::BlokkertVenter
                && (r.1 matches Some(d) && d@ == blocked_text(*reason)),
            _ => r.0 == EksekveringStatus::Klar && r.1 is None,
        },
{
    match decision {
        CommandStateDecision::Blocked(reason) => (
            EksekveringStatus::BlokkertVenter,
            Some(blocked_detail(reason)),
        ),
        _ => (EksekveringStatus::Klar, None),
    }
}

/// The initial status of a command being registered: creating a case is
/// ready at once; a command whose case has no state yet waits for it;
/// otherwise the state decision sets it.
pub fn initial_status(
    command_type: CommandTypeCode,
    decision: Option<&CommandStateDecision>,
) -> (r: (EksekveringStatus, Option<String>))
    ensures
        command_type == CommandTypeCode::OpprettSak ==> r.0 == EksekveringStatus::Klar && r.1 is None,
        command_type != CommandTypeCode::OpprettSak ==> match decision {
            None => r.0 == EksekveringStatus::BlokkertVenter && (r.1 matches Some(d) && d@
                == "blocked_reason=entity_missing trigger_category=entity_fakta_endret"@),
            Some(CommandStateDecision::Blocked(reason)) => r.0 == EksekveringStatus::BlokkertVenter
                && (r.1 matches Some(d) && d@ == blocked_text(*reason)),
            Some(_) => r.0 == EksekveringStatus::Klar && r.1 is None,
        },
{
    if command_type == CommandTypeCode::OpprettSak {
        return (EksekveringStatus::Klar, None);
    }
    match decision {
        None => {
            let reason = entity_missing();
            let r = registration_initial_status(&CommandStateDecision::Blocked(reason));
            proof {
                reveal_strlit("blocked_reason=entity_missing");
                reveal_strlit("entity_fakta_endret");
                reveal_strlit(" trigger_category=");
                reveal_strlit("blocked_reason=entity_missing trigger_category=entity_fakta_endret");
                assert("blocked_reason=entity_missing"@ + " trigger_category="@
                    + "entity_fakta_endret"@
                    =~= "blocked_reason=entity_missing trigger_category=entity_fakta_endret"@);
            }
            r
        },
        Some(d) => registration_initial_status(d),
    }
}

/// `utføres::venter` goes out once, when a registration is new or the
/// earlier announcement is missing, and only for a ready or blocked command.
pub fn skal_publisere_utfores_venter(status: EksekveringStatus, registrering_mangler_melding: bool) -> (r:
    bool)
    ensures
        r == registrering_mangler_melding,
{
    match status {
        EksekveringStatus::Klar | EksekveringStatus::BlokkertVenter => registrering_mangler_melding,
    }
}

/// What the executor does with a state decision it did not act on itself.
#[derive(Debug)]
pub enum Materialisering {
    /// Leave the command ready.
    Klar,
    /// Publish that the command waits, with this detail.
    PubliserBlokkert(String),
    /// Publish success.
    PubliserSuksess,
    /// Fail the command for good with this error.
    Feil(EksekveringFeil),
}

pub fn materialiser_beslutning(decision: &CommandStateDecision) -> (r: Materialisering)
    ensures
        match decision {
            CommandStateDecision::Ready(_) => r is Klar,
            CommandStateDecision::Blocked(reason) => r matches Materialisering::PubliserBlokkert(d)
                && d@ == blocked_text(*reason),
            CommandStateDecision::Done => r is PubliserSuksess,
            CommandStateDecision::Invalid(v) => r matches Materialisering::Feil(e) && e.feiltype
                == crate::execution_detail::EksekveringFeiltype::Irrecoverable && e.melding@ == v@,
        },
{
    match decision {
        CommandStateDecision::Ready(_) => Materialisering::Klar,
        CommandStateDecision::Blocked(reason) => Materialisering::PubliserBlokkert(
            blocked_detail(reason),
        ),
        CommandStateDecision::Done => Materialisering::PubliserSuksess,
        CommandStateDecision::Invalid(violation) => Materialisering::Feil(
            EksekveringFeil::irrecoverable(violation.clone()),
        ),
    }
}

/// After an operation succeeded: success is published when the command is
/// now done; otherwise it stays ready for the next operation.
pub fn etter_vellykket_operasjon(neste: &CommandStateDecision) -> (r: bool)
    ensures
        r == (neste is Done),
{
    match neste {
        CommandStateDecision::Done => true,
        _ => false,
    }
}

/// Whose waiting commands an operation wakes.
#[derive(PartialEq, Eq, Structural, Clone, Copy, Debug)]
pub enum Wakeup {
    Sak(u128),
    Journalpost(u128),
    Dokument(u128),
}

/// Case operations wake the case's commands, journal entry operations the
/// entry's, document operations the document's.
pub fn wakeup_after_operation(sak_id: u128, operasjon: ArkivOperasjon) -> (r: Wakeup)
    ensures
        match operasjon {
            ArkivOperasjon::OpprettSak { .. } | ArkivOperasjon::AvsluttSak { .. }
            | ArkivOperasjon::SettSaksansvarlig { .. } => r == Wakeup::Sak(sak_id),
            ArkivOperasjon::OpprettJournalpost { journalpost_id }
            | ArkivOperasjon::Journalfoer { journalpost_id }
            | ArkivOperasjon::Avskriv { journalpost_id } => r == Wakeup::Journalpost(journalpost_id),
            ArkivOperasjon::LeggTilDokument { dokument_id, .. }
            | ArkivOperasjon::RenderDokument { dokument_id, .. } => r == Wakeup::Dokument(dokument_id),
        },
{
    match operasjon {
        ArkivOperasjon::OpprettSak { .. }
        | ArkivOperasjon::AvsluttSak { .. }
        | ArkivOperasjon::SettSaksansvarlig { .. } => Wakeup::Sak(sak_id),
        ArkivOperasjon::OpprettJournalpost { journalpost_id }
        | ArkivOperasjon::Journalfoer { journalpost_id }
        | ArkivOperasjon::Avskriv { journalpost_id } => Wakeup::Journalpost(journalpost_id),
        ArkivOperasjon::LeggTilDokument { dokument_id, .. }
        | ArkivOperasjon::RenderDokument { dokument_id, .. } => Wakeup::Dokument(dokument_id),
    }
}

/// What an executed step concerns, for waking the commands that wait on it.
#[derive(PartialEq, Eq, Structural, Clone, Copy, Debug)]
pub enum Stegomraade {
    Sak { sak_id: u128 },
    /// A new entry: the entry and its case are known.
    OpprettJournalpost { journalpost_id: u128, sak_id: u128 },
    /// A step on an entry or one of its documents; the case is the one the
    /// command names.
    Journalpost { journalpost_id: u128 },
}

/// Whose waiting commands to wake.
#[derive(PartialEq, Eq, Structural, Clone, Copy, Debug)]
pub enum Vekking {
    Sak(u128),
    Journalpost(u128),
    /// The case the command names, looked up when it is woken.
    KommandoensSak,
}

/// Only a step that completed, now or before, wakes anyone: the entry first,
/// then the case.
pub open spec fn vekkinger(omraade: Stegomraade, outcome: crate::execution_report::StepOutcome) -> Seq<
    Vekking,
> {
    if outcome is Blocked {
        seq![]
    } else {
        match omraade {
            Stegomraade::Sak { sak_id } => seq![Vekking::Sak(sak_id)],
            Stegomraade::OpprettJournalpost { journalpost_id, sak_id } => seq![
                Vekking::Journalpost(journalpost_id),
                Vekking::Sak(sak_id),
            ],
            Stegomraade::Journalpost { journalpost_id } => seq![
                Vekking::Journalpost(journalpost_id),
                Vekking::KommandoensSak,
            ],
        }
    }
}

pub fn vekking_etter_steg(omraade: Stegomraade, outcome: &crate::execution_report::StepOutcome) -> (r:
    Vec<Vekking>)
    ensures
        r@ == vekkinger(omraade, *outcome),
{
    let mut r: Vec<Vekking> = Vec::new();
    match outcome {
        crate::execution_report::StepOutcome::Blocked { .. } => {},
        _ => match omraade {
            Stegomraade::Sak { sak_id } => {
                r.push(Vekking::Sak(sak_id));
            },
            Stegomraade::OpprettJournalpost { journalpost_id, sak_id } => {
                r.push(Vekking::Journalpost(journalpost_id));
                r.push(Vekking::Sak(sak_id));
            },
            Stegomraade::Journalpost { journalpost_id } => {
                r.push(Vekking::Journalpost(journalpost_id));
                r.push(Vekking::KommandoensSak);
            },
        },
    }
    assert(r@ =~= vekkinger(omraade, *outcome));
    r
}

// ---------------------------------------------------------------------------
// Facts of a case and its children
// ---------------------------------------------------------------------------

#[derive(PartialEq, Eq, Structural, Clone, Copy, Debug)]
pub enum JournalpostTilstand {
    IkkeRealisert,
    Opprettet,
    DokumenterUnderArbeid,
    KlarForJournalforing,
    VenterPaaUtsending,
    Journalfoert,
    Avskrevet,
    FeiletPermanent,
}

#[derive(PartialEq, Eq, Structural, Clone, Copy, Debug)]
pub enum DokumentTilstand {
    IkkeRealisert,
    AvventerRendring,
    Ferdig,
    FeiletPermanent,
}

/// A document with its state and source.
#[derive(Debug)]
pub struct DokumentMedTilstand {
    pub dokument_id: u128,
    pub tilstand: DokumentTilstand,
    pub kilde: Dokumentkilde,
}

/// A journal entry with its documents.
#[derive(Debug)]
pub struct JournalpostMedDokumenter {
    pub journalpost_id: u128,
    pub journalposttype: JournalpostType,
    pub med_utsending: bool,
    pub tilstand: JournalpostTilstand,
    pub journalpostnummer: Option<i32>,
    pub sikri_id: Option<i64>,
    pub dokumenter: Vec<DokumentMedTilstand>,
}

/// A case with its journal entries.
#[derive(Debug)]
pub struct SakMedBarn {
    pub sak_id: u128,
    pub saksnummer: Option<String>,
    pub sikri_id: Option<i64>,
    pub journalposter: Vec<JournalpostMedDokumenter>,
}

/// The stored name of a journal entry state.
pub open spec fn tilstand_text(t: JournalpostTilstand) -> Seq<char> {
    match t {
        JournalpostTilstand::IkkeRealisert => "ikke_realisert"@,
        JournalpostTilstand::Opprettet => "opprettet"@,
        JournalpostTilstand::DokumenterUnderArbeid => "dokumenter_under_arbeid"@,
        JournalpostTilstand::KlarForJournalforing => "klar_for_journalforing"@,
        JournalpostTilstand::VenterPaaUtsending => "venter_paa_utsending"@,
        JournalpostTilstand::Journalfoert => "journalfoert"@,
        JournalpostTilstand::Avskrevet => "avskrevet"@,
        JournalpostTilstand::FeiletPermanent => "feilet_permanent"@,
    }
}

pub fn tilstand_str(t: JournalpostTilstand) -> (r: &'static str)
    ensures
        r@ == tilstand_text(t),
{
    match t {
        JournalpostTilstand::IkkeRealisert => "ikke_realisert",
        JournalpostTilstand::Opprettet => "opprettet",
        JournalpostTilstand::DokumenterUnderArbeid => "dokumenter_under_arbeid",
        JournalpostTilstand::KlarForJournalforing => "klar_for_journalforing",
        JournalpostTilstand::VenterPaaUtsending => "venter_paa_utsending",
        JournalpostTilstand::Journalfoert => "journalfoert",
        JournalpostTilstand::Avskrevet => "avskrevet",
        JournalpostTilstand::FeiletPermanent => "feilet_permanent",
    }
}

/// Whether an outgoing entry is dispatched to its receivers.
#[derive(PartialEq, Eq, Structural, Clone, Copy, Debug)]
pub enum Utsendingsvalg {
    MedUtsending,
    UtenUtsending,
}

/// Only outgoing entries have a dispatch choice.
pub fn resolve_utsending(jp: &JournalpostMedDokumenter) -> (r: Option<Utsendingsvalg>)
    ensures
        jp.journalposttype == JournalpostType::Utgaaende ==> r == Some(
            if jp.med_utsending {
                Utsendingsvalg::MedUtsending
            } else {
                Utsendingsvalg::UtenUtsending
            },
        ),
        jp.journalposttype != JournalpostType::Utgaaende ==> r is None,
{
    match jp.journalposttype {
        JournalpostType::Utgaaende => if jp.med_utsending {
            Some(Utsendingsvalg::MedUtsending)
        } else {
            Some(Utsendingsvalg::UtenUtsending)
        },
        _ => None,
    }
}

/// Filing an entry: an outgoing entry to be dispatched goes to `F` and waits
/// for dispatch; every other entry goes to `J` and is filed.
pub fn journalfoering_status(jp: &JournalpostMedDokumenter) -> (r: (&'static str, JournalpostTilstand))
    ensures
        (jp.journalposttype == JournalpostType::Utgaaende && jp.med_utsending) ==> r.0@ == "F"@
            && r.1 == JournalpostTilstand::VenterPaaUtsending,
        !(jp.journalposttype == JournalpostType::Utgaaende && jp.med_utsending) ==> r.0@ == "J"@
            && r.1 == JournalpostTilstand::Journalfoert,
{
    if jp.journalposttype == JournalpostType::Utgaaende && jp.med_utsending {
        ("F", JournalpostTilstand::VenterPaaUtsending)
    } else {
        ("J", JournalpostTilstand::Journalfoert)
    }
}

fn find_journalpost(js: &Vec<JournalpostMedDokumenter>, id: u128) -> (r: Option<usize>)
    ensures
        r matches Some(i) ==> i < js@.len() && js@[i as int].journalpost_id == id && forall|k: int|
            0 <= k < i ==> (#[trigger] js@[k]).journalpost_id != id,
        r is None ==> forall|k: int| 0 <= k < js@.len() ==> (#[trigger] js@[k]).journalpost_id != id,
{
    let mut i: usize = 0;
    while i < js.len()
        invariant
            i <= js.len(),
            forall|k: int| 0 <= k < i ==> (#[trigger] js@[k]).journalpost_id != id,
        decreases js.len() - i,
    {
        if js[i].journalpost_id == id {
            return Some(i);
        }
        i = i + 1;
    }
    None
}

fn find_dokument(ds: &Vec<DokumentMedTilstand>, id: u128) -> (r: Option<usize>)
    ensures
        r matches Some(i) ==> er_forste_dokument(ds@, id, i as int),
        r is None ==> forall|k: int| 0 <= k < ds@.len() ==> (#[trigger] ds@[k]).dokument_id != id,
{
    let mut i: usize = 0;
    while i < ds.len()
        invariant
            i <= ds.len(),
            forall|k: int| 0 <= k < i ==> (#[trigger] ds@[k]).dokument_id != id,
        decreases ds.len() - i,
    {
        if ds[i].dokument_id == id {
            return Some(i);
        }
        i = i + 1;
    }
    None
}

/// The diagnostic for a journal entry missing from its case.
pub open spec fn journalpost_missing_text(journalpost_id: u128, sak_id: u128) -> Seq<char> {
    "Fant ikke journalpost "@ + hyphenated(journalpost_id) + " i sak "@ + hyphenated(sak_id)
}

/// `i` is the position of the first entry with the id.
pub open spec fn er_forste(js: Seq<JournalpostMedDokumenter>, id: u128, i: int) -> bool {
    &&& 0 <= i < js.len()
    &&& js[i].journalpost_id == id
    &&& forall|k: int| 0 <= k < i ==> (#[trigger] js[k]).journalpost_id != id
}

/// `k` is the first document with the id.
pub open spec fn er_forste_dokument(ds: Seq<DokumentMedTilstand>, id: u128, k: int) -> bool {
    &&& 0 <= k < ds.len()
    &&& ds[k].dokument_id == id
    &&& forall|j: int| 0 <= j < k ==> (#[trigger] ds[j]).dokument_id != id
}

/// The first journal entry of the case with the id, or a recoverable error.
pub fn finn_journalpost(sak: &SakMedBarn, journalpost_id: u128) -> (r: Result<
    &JournalpostMedDokumenter,
    EksekveringFeil,
>)
    ensures
        match r {
            Ok(jp) => jp.journalpost_id == journalpost_id && exists|i: int|
                #[trigger] er_forste(sak.journalposter@, journalpost_id, i) && sak.journalposter@[i]
                    == *jp,
            Err(e) => e.feiltype == crate::execution_detail::EksekveringFeiltype::Recoverable
                && e.melding@ == journalpost_missing_text(journalpost_id, sak.sak_id) && forall|k: int|
                0 <= k < sak.journalposter@.len() ==> (#[trigger] sak.journalposter@[k]).journalpost_id
                != journalpost_id,
        },
{
    match find_journalpost(&sak.journalposter, journalpost_id) {
        Some(i) => {
            assert(er_forste(sak.journalposter@, journalpost_id, i as int));
            Ok(&sak.journalposter[i])
        },
        None => {
            let mut m = chars_of("Fant ikke journalpost ");
            append_chars(&mut m, &chars_of(uuid_text(journalpost_id).as_str()));
            append_chars(&mut m, &chars_of(" i sak "));
            append_chars(&mut m, &chars_of(uuid_text(sak.sak_id).as_str()));
            Err(EksekveringFeil::recoverable(string_of(&m)))
        },
    }
}

/// The diagnostics for a document that cannot be found.
pub open spec fn dokument_missing_text(dokument_id: u128, journalpost_id: u128) -> Seq<char> {
    "render_dokument_mangler dokument_id="@ + hyphenated(dokument_id) + " journalpost_id="@
        + hyphenated(journalpost_id)
}

pub open spec fn journalpost_of_dokument_missing_text(journalpost_id: u128, dokument_id: u128) -> Seq<
    char,
> {
    "render_journalpost_mangler journalpost_id="@ + hyphenated(journalpost_id) + " dokument_id="@
        + hyphenated(dokument_id)
}

/// The first document with the id in the first journal entry with the id;
/// when there is none, a recoverable error that says whether the entry or the
/// document is missing.
pub fn finn_dokument(sak: &SakMedBarn, journalpost_id: u128, dokument_id: u128) -> (r: Result<
    &DokumentMedTilstand,
    EksekveringFeil,
>)
    ensures
        match r {
            Ok(d) => d.dokument_id == dokument_id && exists|i: int, k: int|
                #[trigger] er_forste(sak.journalposter@, journalpost_id, i) && #[trigger] er_forste_dokument(
                    sak.journalposter@[i].dokumenter@,
                    dokument_id,
                    k,
                ) && sak.journalposter@[i].dokumenter@[k] == *d,
            Err(e) => e.feiltype == crate::execution_detail::EksekveringFeiltype::Recoverable
                && (forall|i: int, k: int|
                #[trigger] er_forste(sak.journalposter@, journalpost_id, i) && 0 <= k
                    < sak.journalposter@[i].dokumenter@.len() ==> (#[trigger] sak.journalposter@[i].dokumenter@[k]).dokument_id
                    != dokument_id) && (
            if exists|k: int|
                0 <= k < sak.journalposter@.len() && (#[trigger] sak.journalposter@[k]).journalpost_id
                    == journalpost_id {
                e.melding@ == dokument_missing_text(dokument_id, journalpost_id)
            } else {
                e.melding@ == journalpost_of_dokument_missing_text(journalpost_id, dokument_id)
            }),
        },
{
    let found = find_journalpost(&sak.journalposter, journalpost_id);
    match found {
        Some(i) => {
            let jp = &sak.journalposter[i];
            proof {
                assert(er_forste(sak.journalposter@, journalpost_id, i as int));
                assert forall|i2: int| #[trigger] er_forste(sak.journalposter@, journalpost_id, i2) implies i2
                    == i by {
                    if i2 < i {
                        assert(sak.journalposter@[i2].journalpost_id != journalpost_id);
                    } else if i2 > i {
                        assert(sak.journalposter@[i as int].journalpost_id != journalpost_id);
                    }
                }
            }
            match find_dokument(&jp.dokumenter, dokument_id) {
                Some(k) => Ok(&jp.dokumenter[k]),
                None => {
                    let mut m = chars_of("render_dokument_mangler dokument_id=");
                    append_chars(&mut m, &chars_of(uuid_text(dokument_id).as_str()));
                    append_chars(&mut m, &chars_of(" journalpost_id="));
                    append_chars(&mut m, &chars_of(uuid_text(journalpost_id).as_str()));
                    Err(EksekveringFeil::recoverable(string_of(&m)))
                },
            }
        },
        None => {
            let mut m = chars_of("render_journalpost_mangler journalpost_id=");
            append_chars(&mut m, &chars_of(uuid_text(journalpost_id).as_str()));
            append_chars(&mut m, &chars_of(" dokument_id="));
            append_chars(&mut m, &chars_of(uuid_text(dokument_id).as_str()));
            Err(EksekveringFeil::recoverable(string_of(&m)))
        },
    }
}

// ---------------------------------------------------------------------------
// Rendering a template document
// ---------------------------------------------------------------------------

/// The first step of rendering a document.
#[derive(Debug)]
pub enum Renderstart {
    /// The document is already done.
    AlleredeOk,
    /// A PDF was stored by an earlier attempt: mark the document done.
    MarkerOk,
    /// Fetch this template and fill in these fields, with the case number
    /// when the case has one.
    HentMal { mal_referanse: u128, felter: Vec<String>, saksnummer: Option<String> },
}

/// The declared field that is filled in from the case number.
pub open spec fn saksnummer_felt() -> Seq<char> {
    "saksnummer"@
}

/// Whether a template declares the case-number field.
pub open spec fn krever_saksnummer(felter: Seq<Seq<char>>) -> bool {
    exists|i: int| 0 <= i < felter.len() && #[trigger] felter[i] == saksnummer_felt()
}

/// Whether `felter` declares the case-number field.
pub fn felter_krever_saksnummer(felter: &Vec<String>) -> (r: bool)
    ensures
        r == krever_saksnummer(string_views(felter@)),
{
    let mut i: usize = 0;
    while i < felter.len()
        invariant
            i <= felter.len(),
            forall|j: int| 0 <= j < i ==> string_views(felter@)[j] != saksnummer_felt(),
        decreases felter.len() - i,
    {
        let navn = chars_of(felter[i].as_str());
        if crate::text::equals_str(&navn, "saksnummer") {
            assert(string_views(felter@)[i as int] == saksnummer_felt());
            return true;
        }
        i = i + 1;
    }
    false
}

/// What the first step of rendering gives for a document of a case: see
/// `render_start`.
pub open spec fn render_start_gir(
    sak: SakMedBarn,
    dokument: DokumentMedTilstand,
    journalpost_id: u128,
    r: Result<Renderstart, EksekveringFeil>,
) -> bool {
    &&& (dokument.tilstand == DokumentTilstand::Ferdig ==> r matches Ok(Renderstart::AlleredeOk))
    &&& (dokument.tilstand != DokumentTilstand::Ferdig ==> match dokument.kilde {
            Dokumentkilde::Bytes { .. } => r matches Err(e) && e.feiltype
                == crate::execution_detail::EksekveringFeiltype::Irrecoverable && e.melding@
                == crate::render_diagnostic::not_template_text(dokument.dokument_id, journalpost_id),
            Dokumentkilde::HtmlTemplate { mal_referanse, felter, rendered_dokument_referanse } => if rendered_dokument_referanse is Some {
                r matches Ok(Renderstart::MarkerOk)
            } else {
                if sak.saksnummer is None && krever_saksnummer(string_views(felter@)) {
                    r matches Err(e) && e.feiltype
                        == crate::execution_detail::EksekveringFeiltype::Blocked && e.melding@
                        == "render_saksnummer_mangler"@
                } else {
                    r matches Ok(Renderstart::HentMal { mal_referanse: m, felter: f, saksnummer: t })
                        && m == mal_referanse && string_views(f@) == string_views(felter@)
                        && opt_view(t) == opt_view(sak.saksnummer)
                }
            },
        })
}

/// A document that is done needs nothing; one whose source is not a template
/// cannot be rendered; one rendered before only needs marking; one whose
/// template declares the case-number field waits while the case has no case
/// number; otherwise its template is fetched, a template without that field
/// also for a case without a case number.
pub fn render_start(sak: &SakMedBarn, dokument: &DokumentMedTilstand, journalpost_id: u128) -> (r:
    Result<Renderstart, EksekveringFeil>)
    ensures
        render_start_gir(*sak, *dokument, journalpost_id, r),
{
    if dokument.tilstand == DokumentTilstand::Ferdig {
        return Ok(Renderstart::AlleredeOk);
    }
    match &dokument.kilde {
        Dokumentkilde::Bytes { .. } => Err(
            crate::render_diagnostic::render_ikke_html_template(dokument.dokument_id, journalpost_id),
        ),
        Dokumentkilde::HtmlTemplate { mal_referanse, felter, rendered_dokument_referanse } => {
            if rendered_dokument_referanse.is_some() {
                return Ok(Renderstart::MarkerOk);
            }
            let saksnummer = match &sak.saksnummer {
                None => {
                    if felter_krever_saksnummer(felter) {
                        return Err(EksekveringFeil::blocked("render_saksnummer_mangler".to_owned()));
                    }
                    None
                },
                Some(s) => Some(s.clone()),
            };
            Ok(
                Renderstart::HentMal {
                    mal_referanse: *mal_referanse,
                    felter: crate::command::copy_strings(felter),
                    saksnummer,
                },
            )
        },
    }
}

/// What fetching a template gave.
#[derive(Debug)]
pub enum Malhenting {
    Funnet,
    Mangler,
    /// The store failed, with its error text.
    Feil(String),
}

/// A missing template and an unreadable store are both retried, each under
/// its own diagnostic.
pub fn etter_malhenting(mal_referanse: u128, henting: &Malhenting) -> (r: Result<(), EksekveringFeil>)
    ensures
        match henting {
            Malhenting::Funnet => r is Ok,
            Malhenting::Mangler => r matches Err(e) && e.feiltype
                == crate::execution_detail::EksekveringFeiltype::Recoverable && e.melding@
                == crate::render_diagnostic::template_missing_text(mal_referanse),
            Malhenting::Feil(t) => r matches Err(e) && e.feiltype
                == crate::execution_detail::EksekveringFeiltype::Recoverable && e.melding@
                == crate::render_diagnostic::template_store_unavailable_text(mal_referanse, t@),
        },
{
    match henting {
        Malhenting::Funnet => Ok(()),
        Malhenting::Mangler => Err(crate::render_diagnostic::render_html_mal_mangler(mal_referanse)),
        Malhenting::Feil(t) => Err(
            crate::render_diagnostic::render_html_mal_lager_unavailable(mal_referanse, t.as_str()),
        ),
    }
}

/// A renderer failure keeps the renderer's own safe message; its
/// classification decides whether it is retried.
pub fn renderer_feil(recoverable: bool, safe_message: &str) -> (r: EksekveringFeil)
    ensures
        r.melding@ == safe_message@,
        recoverable ==> r.feiltype == crate::execution_detail::EksekveringFeiltype::Recoverable,
        !recoverable ==> r.feiltype == crate::execution_detail::EksekveringFeiltype::Irrecoverable,
{
    if recoverable {
        EksekveringFeil::recoverable(safe_message.to_owned())
    } else {
        EksekveringFeil::irrecoverable(safe_message.to_owned())
    }
}

/// The initial state of a registered document: supplied bytes are not yet
/// realised; a template waits for rendering and keeps its template and fields.
pub open spec fn dokument_initial_av(r: (DokumentTilstand, Option<u128>, Vec<String>), form: Dokumentform) -> bool {
    match form {
        Dokumentform::Bytes { .. } => r.0 == DokumentTilstand::IkkeRealisert && r.1 is None
            && r.2@.len() == 0,
        Dokumentform::HtmlTemplate { mal_referanse, felter } => r.0
            == DokumentTilstand::AvventerRendring && r.1 == Some(mal_referanse) && string_views(r.2@)
            == string_views(felter@),
    }
}

pub fn dokument_initial_tilstand(form: &Dokumentform) -> (r: (DokumentTilstand, Option<u128>, Vec<String>))
    ensures
        dokument_initial_av(r, *form),
{
    match form {
        Dokumentform::Bytes { .. } => (DokumentTilstand::IkkeRealisert, None, Vec::new()),
        Dokumentform::HtmlTemplate { mal_referanse, felter } => {
            let mut fs: Vec<String> = Vec::new();
            let mut i: usize = 0;
            while i < felter.len()
                invariant
                    i <= felter.len(),
                    string_views(fs@) == string_views(felter@.take(i as int)),
                decreases felter.len() - i,
            {
                let ghost before = fs@;
                let s = felter[i].clone();
                fs.push(s);
                proof {
                    crate::command::lemma_string_views_push(before, s);
                    crate::command::lemma_string_views_push(felter@.take(i as int), felter@[i as int]);
                    assert(felter@.take(i + 1) == felter@.take(i as int).push(felter@[i as int]));
                }
                i = i + 1;
            }
            assert(felter@.take(felter.len() as int) == felter@);
            (DokumentTilstand::AvventerRendring, Some(*mal_referanse), fs)
        },
    }
}

// ---------------------------------------------------------------------------
// Recording an execution pass
// ---------------------------------------------------------------------------

/// How the worker records a pass of the executor.
#[derive(Debug)]
pub enum Registrering {
    /// Nothing to record: the command stays ready.
    Ingen,
    MarkerOk,
    MarkerFeil { detalj: String },
    MarkerBlokkertVenter { detalj: String },
    /// Wait, then retry with the backoff for `backoff_attempt`.
    MarkerRetryVenter { detalj: String, backoff_attempt: u32 },
}

pub open spec fn detail_or(last_error: Option<String>, fallback: Seq<char>) -> Seq<char> {
    match last_error {
        Some(d) => d@,
        None => fallback,
    }
}

fn detail_or_exec(last_error: &Option<String>, fallback: &str) -> (r: String)
    ensures
        r@ == detail_or(*last_error, fallback@),
{
    match last_error {
        Some(d) => d.clone(),
        None => fallback.to_owned(),
    }
}

/// The record of a pass: success, terminal failure and waiting keep the
/// pass's detail (or a fixed one); a retry also waits for the backoff
/// counted from the attempt before this one.
pub fn registrer_utfall(outcome: &ExecutionOutcome, attempt_no: i32) -> (r: Registrering)
    ensures
        match outcome {
            ExecutionOutcome::Klar => r is Ingen,
            ExecutionOutcome::Fullfort => r is MarkerOk,
            ExecutionOutcome::Feil { last_error } => r matches Registrering::MarkerFeil { detalj }
                && detalj@ == detail_or(*last_error, "ukjent execution-feil"@),
            ExecutionOutcome::BlokkertVenter { last_error } => r matches Registrering::MarkerBlokkertVenter {
                detalj,
            } && detalj@ == detail_or(*last_error, "kommando venter på prerequisite"@),
            ExecutionOutcome::Retrying { last_error } => r matches Registrering::MarkerRetryVenter {
                detalj,
                backoff_attempt,
            } && detalj@ == detail_or(*last_error, "recoverable execution-feil"@) && backoff_attempt
                == (if attempt_no - 1 < 0 {
                0
            } else {
                attempt_no - 1
            }),
        },
{
    match outcome {
        ExecutionOutcome::Klar => Registrering::Ingen,
        ExecutionOutcome::Fullfort => Registrering::MarkerOk,
        ExecutionOutcome::Feil { last_error } => Registrering::MarkerFeil {
            detalj: detail_or_exec(last_error, "ukjent execution-feil"),
        },
        ExecutionOutcome::BlokkertVenter { last_error } => Registrering::MarkerBlokkertVenter {
            detalj: detail_or_exec(last_error, "kommando venter på prerequisite"),
        },
        ExecutionOutcome::Retrying { last_error } => {
            let prev: i32 = if attempt_no == i32::MIN {
                -1
            } else {
                attempt_no - 1
            };
            Registrering::MarkerRetryVenter {
                detalj: detail_or_exec(last_error, "recoverable execution-feil"),
                backoff_attempt: crate::backoff::non_negative_attempt(prev),
            }
        },
    }
}

// ---------------------------------------------------------------------------
// Re-evaluating a waiting command
// ---------------------------------------------------------------------------

/// What re-evaluation does with a waiting command.
#[derive(Debug)]
pub enum Reevaluering {
    /// Fail it for good and publish the failure with this detail.
    Feil(String),
    /// It stays as it is.
    Ingen,
    /// Move it to ready: also a command that is done, since the executor
    /// alone publishes success.
    Klar,
    /// It still waits; record the new detail.
    OppdaterBlokkert(String),
}

/// Re-evaluation of a waiting command from fresh facts.
pub fn reevaluer(
    sak_id: Option<u128>,
    har_fakta: bool,
    kommando: Result<(), String>,
    decision: &CommandStateDecision,
) -> (r: Reevaluering)
    ensures
        sak_id is None ==> (r matches Reevaluering::Feil(d) && d@ == "Mangler sak_id for reevaluering"@),
        sak_id is Some && !har_fakta ==> r is Ingen,
        sak_id is Some && har_fakta ==> match kommando {
            Err(e) => r matches Reevaluering::Feil(d) && d@ == e@,
            Ok(_) => match decision {
                CommandStateDecision::Ready(_) | CommandStateDecision::Done => r is Klar,
                CommandStateDecision::Blocked(reason) => r matches Reevaluering::OppdaterBlokkert(
                    d,
                ) && d@ == blocked_text(*reason),
                CommandStateDecision::Invalid(v) => r matches Reevaluering::Feil(d) && d@ == v@,
            },
        },
{
    if sak_id.is_none() {
        return Reevaluering::Feil("Mangler sak_id for reevaluering".to_owned());
    }
    if !har_fakta {
        return Reevaluering::Ingen;
    }
    match kommando {
        Err(e) => Reevaluering::Feil(e),
        Ok(_) => match decision {
            CommandStateDecision::Ready(_) | CommandStateDecision::Done => Reevaluering::Klar,
            CommandStateDecision::Blocked(reason) => Reevaluering::OppdaterBlokkert(
                blocked_detail(reason),
            ),
            CommandStateDecision::Invalid(v) => Reevaluering::Feil(v.clone()),
        },
    }
}

/// The attempt reported with a terminal failure from re-evaluation: the
/// command's attempt count, at least 1.
pub fn terminal_attempt(attempt_no: i32) -> (r: u32)
    ensures
        attempt_no < 1 ==> r == 1,
        attempt_no >= 1 ==> r == attempt_no,
{
    if attempt_no < 1 {
        1
    } else {
        attempt_no as u32
    }
}

// ---------------------------------------------------------------------------
// Laws
// ---------------------------------------------------------------------------

/// Registration never settles a command: whatever the state decision, a
/// command is registered as ready or waiting, never done or failed, and it
/// waits exactly when the decision blocks it.
pub proof fn law_registration_never_settles(decision: CommandStateDecision, r: (
    EksekveringStatus,
    Option<String>,
))
    requires
        match decision {
            CommandStateDecision::Blocked(reason) => r.0 == EksekveringStatus::BlokkertVenter
                && (r.1 matches Some(d) && d@ == blocked_text(reason)),
            _ => r.0 == EksekveringStatus::Klar && r.1 is None,
        },
    ensures
        r.0 == EksekveringStatus::BlokkertVenter <==> decision is Blocked,
        r.1 is Some <==> decision is Blocked,
{
}

} // verus!
