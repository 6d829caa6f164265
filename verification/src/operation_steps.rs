//! The archive calls of the operation executor: which call an operation
//! makes, what it needs from the operation and the facts before the call,
//! and the facts it records once the call has succeeded.
//!
//! A missing prerequisite is an internal error, named by its code.
use vstd::prelude::*;

use crate::decomposition::{DokumentAttributter, EntitetId};
use crate::operasjon::Operasjonstype;
use crate::parse::{decimal, decimal_i64};

verus! {

/// A journal entry state that the operation executor records.
#[derive(PartialEq, Eq, Structural, Clone, Copy, Debug)]
pub enum Journalposttilstand {
    Journalfoert,
    Ekspedert,
    KlarForEkspedering,
    Avskrevet,
}

/// A status the archive sets on a journal entry.
#[derive(PartialEq, Eq, Structural, Clone, Copy, Debug)]
pub enum Journalstatus {
    Journalfoert,
    Ekspedert,
    KlarForEkspedering,
}

/// A journal entry's status as the archive reports it.
#[derive(PartialEq, Eq, Structural, Clone, Copy, Debug)]
pub enum ObservertJournalstatus {
    Journalfoert,
    Ekspedert,
    /// Any other status.
    Annen,
}

/// The facts a successful archive call records.
#[derive(Debug)]
pub enum Faktaoppdatering {
    Ingen,
    SakOpprettet { arkiv_id: String },
    SaksansvarligSatt { saksbehandler_id: String, saksbehandler_enhet: String },
    SakAvsluttet,
    DokumentRendret { dokument_id: u128, rendered_dokument_referanse: u128 },
    VedleggArkivert { dokument_id: u128, arkiv_id: Option<String> },
    JournalpostOpprettet { journalpost_id: u128, arkiv_id: String, hoveddokument_id: u128 },
    JournalpostStatus { journalpost_id: u128, tilstand: Journalposttilstand },
}

/// What an archive call came to: done with its facts, or facts observed so
/// far and another look after `om_ms` milliseconds.
#[derive(Debug)]
pub enum Utfall {
    Ferdig(Faktaoppdatering),
    PollIgjen { oppdatering: Faktaoppdatering, om_ms: u64 },
}

/// The archive call an operation makes.
#[derive(PartialEq, Eq, Structural, Clone, Copy, Debug)]
pub enum Arkivkall {
    OpprettSak,
    SettSaksansvarlig,
    AvsluttSak,
    RenderDokument,
    OpprettJournalpost,
    LeggTilVedlegg,
    /// Set this status in the archive and record this state.
    Statusovergang(Journalstatus, Journalposttilstand),
    AvventJournalfort,
    Avskriv,
}

/// Filing, dispatching and readying for dispatch each set the archive status
/// of the same name and record the state of the same name; every other
/// operation has its own call.
pub open spec fn arkivkall_for(t: Operasjonstype) -> Arkivkall {
    match t {
        Operasjonstype::OpprettSak => Arkivkall::OpprettSak,
        Operasjonstype::SettSaksansvarlig => Arkivkall::SettSaksansvarlig,
        Operasjonstype::AvsluttSak => Arkivkall::AvsluttSak,
        Operasjonstype::RenderDokument => Arkivkall::RenderDokument,
        Operasjonstype::OpprettJournalpost => Arkivkall::OpprettJournalpost,
        Operasjonstype::LeggTilVedlegg => Arkivkall::LeggTilVedlegg,
        Operasjonstype::Journalfor => Arkivkall::Statusovergang(
            Journalstatus::Journalfoert,
            Journalposttilstand::Journalfoert,
        ),
        Operasjonstype::SettEkspedert => Arkivkall::Statusovergang(
            Journalstatus::Ekspedert,
            Journalposttilstand::Ekspedert,
        ),
        Operasjonstype::KlargjorForEkspedering => Arkivkall::Statusovergang(
            Journalstatus::KlarForEkspedering,
            Journalposttilstand::KlarForEkspedering,
        ),
        Operasjonstype::AvventJournalfort => Arkivkall::AvventJournalfort,
        Operasjonstype::Avskriv => Arkivkall::Avskriv,
    }
}

pub fn arkivkall(t: Operasjonstype) -> (r: Arkivkall)
    ensures
        r == arkivkall_for(t),
{
    match t {
        Operasjonstype::OpprettSak => Arkivkall::OpprettSak,
        Operasjonstype::SettSaksansvarlig => Arkivkall::SettSaksansvarlig,
        Operasjonstype::AvsluttSak => Arkivkall::AvsluttSak,
        Operasjonstype::RenderDokument => Arkivkall::RenderDokument,
        Operasjonstype::OpprettJournalpost => Arkivkall::OpprettJournalpost,
        Operasjonstype::LeggTilVedlegg => Arkivkall::LeggTilVedlegg,
        Operasjonstype::Journalfor => Arkivkall::Statusovergang(
            Journalstatus::Journalfoert,
            Journalposttilstand::Journalfoert,
        ),
        Operasjonstype::SettEkspedert => Arkivkall::Statusovergang(
            Journalstatus::Ekspedert,
            Journalposttilstand::Ekspedert,
        ),
        Operasjonstype::KlargjorForEkspedering => Arkivkall::Statusovergang(
            Journalstatus::KlarForEkspedering,
            Journalposttilstand::KlarForEkspedering,
        ),
        Operasjonstype::AvventJournalfort => Arkivkall::AvventJournalfort,
        Operasjonstype::Avskriv => Arkivkall::Avskriv,
    }
}

// ---------------------------------------------------------------------------
// Prerequisites
// ---------------------------------------------------------------------------

/// An operation on a journal entry acts on the entry.
pub fn krev_journalpost(entitet_id: EntitetId) -> (r: Result<u128, &'static str>)
    ensures
        match entitet_id {
            EntitetId::Journalpost(id) => r == Ok::<u128, &'static str>(id),
            _ => r matches Err(kode) && kode@ == "intern_forventet_journalpost_entitet"@,
        },
{
    match entitet_id {
        EntitetId::Journalpost(id) => Ok(id),
        _ => Err("intern_forventet_journalpost_entitet"),
    }
}

/// An operation on a document acts on the document.
pub fn krev_dokument(entitet_id: EntitetId) -> (r: Result<u128, &'static str>)
    ensures
        match entitet_id {
            EntitetId::Dokument(id) => r == Ok::<u128, &'static str>(id),
            _ => r matches Err(kode) && kode@ == "intern_forventet_dokument_entitet"@,
        },
{
    match entitet_id {
        EntitetId::Dokument(id) => Ok(id),
        _ => Err("intern_forventet_dokument_entitet"),
    }
}

/// An archive id that must be there, or the given code.
pub fn krev_arkiv_id<'a>(arkiv_id: Option<&'a str>, kode: &'static str) -> (r: Result<
    &'a str,
    &'static str,
>)
    ensures
        match arkiv_id {
            Some(a) => r matches Ok(t) && t@ == a@,
            None => r matches Err(k) && k@ == kode@,
        },
{
    match arkiv_id {
        Some(a) => Ok(a),
        None => Err(kode),
    }
}

// ---------------------------------------------------------------------------
// Recorded facts
// ---------------------------------------------------------------------------

/// A new case records the archive's case number.
pub fn sak_opprettet(saksnummer: String) -> (r: Faktaoppdatering)
    ensures
        r matches Faktaoppdatering::SakOpprettet { arkiv_id } && arkiv_id@ == saksnummer@,
{
    Faktaoppdatering::SakOpprettet { arkiv_id: saksnummer }
}

/// A new journal entry records the archive's entry number, written in
/// decimal, and its main document.
pub fn journalpost_opprettet(journalpost_id: u128, arkiv_journalpost_id: i32, hoveddokument_id: u128) -> (r:
    Faktaoppdatering)
    ensures
        r matches Faktaoppdatering::JournalpostOpprettet { journalpost_id: j, arkiv_id, hoveddokument_id: h }
            && j == journalpost_id && arkiv_id@ == decimal(arkiv_journalpost_id as int) && h
            == hoveddokument_id,
{
    Faktaoppdatering::JournalpostOpprettet {
        journalpost_id,
        arkiv_id: decimal_i64(arkiv_journalpost_id as i64),
        hoveddokument_id,
    }
}

/// An attachment records the archive's id for it, written in decimal, when
/// the archive gave one.
pub fn vedlegg_arkivert(dokument_id: u128, vedlegg_id: Option<i64>) -> (r: Faktaoppdatering)
    ensures
        r matches Faktaoppdatering::VedleggArkivert { dokument_id: d, arkiv_id } && d == dokument_id
            && match vedlegg_id {
            Some(v) => arkiv_id matches Some(a) && a@ == decimal(v as int),
            None => arkiv_id is None,
        },
{
    let arkiv_id = match vedlegg_id {
        Some(v) => Some(decimal_i64(v)),
        None => None,
    };
    Faktaoppdatering::VedleggArkivert { dokument_id, arkiv_id }
}

/// A rendered document records where its PDF is: the one an earlier,
/// interrupted attempt stored when there is one, else the new one.
pub fn dokument_rendret(dokument_id: u128, lagret: Option<u128>, ny: u128) -> (r: Faktaoppdatering)
    ensures
        r matches Faktaoppdatering::DokumentRendret { dokument_id: d, rendered_dokument_referanse: p }
            && d == dokument_id && p == match lagret {
            Some(l) => l,
            None => ny,
        },
{
    match lagret {
        Some(l) => Faktaoppdatering::DokumentRendret { dokument_id, rendered_dokument_referanse: l },
        None => Faktaoppdatering::DokumentRendret { dokument_id, rendered_dokument_referanse: ny },
    }
}

/// Waiting for an entry to be filed: a filed entry is done; a dispatched one
/// is recorded as dispatched while the wait goes on; any other status is
/// looked at again after the poll interval.
pub fn avvent_journalfort_utfall(journalpost_id: u128, observert: ObservertJournalstatus, poll_ms: u64) -> (r:
    Utfall)
    ensures
        match observert {
            ObservertJournalstatus::Journalfoert => r matches Utfall::Ferdig(
                Faktaoppdatering::JournalpostStatus { journalpost_id: j, tilstand },
            ) && j == journalpost_id && tilstand == Journalposttilstand::Journalfoert,
            ObservertJournalstatus::Ekspedert => r matches Utfall::PollIgjen {
                oppdatering: Faktaoppdatering::JournalpostStatus { journalpost_id: j, tilstand },
                om_ms,
            } && j == journalpost_id && tilstand == Journalposttilstand::Ekspedert && om_ms == poll_ms,
            ObservertJournalstatus::Annen => r matches Utfall::PollIgjen {
                oppdatering: Faktaoppdatering::Ingen,
                om_ms,
            } && om_ms == poll_ms,
        },
{
    match observert {
        ObservertJournalstatus::Journalfoert => Utfall::Ferdig(
            Faktaoppdatering::JournalpostStatus {
                journalpost_id,
                tilstand: Journalposttilstand::Journalfoert,
            },
        ),
        ObservertJournalstatus::Ekspedert => Utfall::PollIgjen {
            oppdatering: Faktaoppdatering::JournalpostStatus {
                journalpost_id,
                tilstand: Journalposttilstand::Ekspedert,
            },
            om_ms: poll_ms,
        },
        ObservertJournalstatus::Annen => Utfall::PollIgjen {
            oppdatering: Faktaoppdatering::Ingen,
            om_ms: poll_ms,
        },
    }
}

/// The main document of an entry is its first, at position 0.
pub open spec fn er_hoveddokument(rekkefolge: u16) -> bool {
    rekkefolge == 0
}

/// The first of the entry's documents that is its main document.
pub fn finn_hoveddokument(dokumenter: &Vec<(u128, DokumentAttributter)>) -> (r: Option<usize>)
    ensures
        r matches Some(i) ==> i < dokumenter@.len() && er_hoveddokument(dokumenter@[i as int].1.rekkefolge)
            && forall|j: int| 0 <= j < i ==> !er_hoveddokument(#[trigger] dokumenter@[j].1.rekkefolge),
        r is None ==> forall|j: int|
            0 <= j < dokumenter@.len() ==> !er_hoveddokument(#[trigger] dokumenter@[j].1.rekkefolge),
{
    let mut i: usize = 0;
    while i < dokumenter.len()
        invariant
            i <= dokumenter.len(),
            forall|j: int| 0 <= j < i ==> !er_hoveddokument(#[trigger] dokumenter@[j].1.rekkefolge),
        decreases dokumenter.len() - i,
    {
        if dokumenter[i].1.rekkefolge == 0 {
            return Some(i);
        }
        i = i + 1;
    }
    None
}

/// Exactly filing, dispatching and readying for dispatch are status
/// transitions, and each sets the archive status of its own name and records
/// the entry state of that same name: filing never marks an entry
/// dispatched, and no other operation changes an entry's archive status.
pub proof fn law_status_operations_set_their_own_status(t: Operasjonstype)
    ensures
        arkivkall_for(t) is Statusovergang <==> (t == Operasjonstype::Journalfor || t
            == Operasjonstype::SettEkspedert || t == Operasjonstype::KlargjorForEkspedering),
        t == Operasjonstype::Journalfor ==> arkivkall_for(t) == Arkivkall::Statusovergang(
            Journalstatus::Journalfoert,
            Journalposttilstand::Journalfoert,
        ),
        t == Operasjonstype::SettEkspedert ==> arkivkall_for(t) == Arkivkall::Statusovergang(
            Journalstatus::Ekspedert,
            Journalposttilstand::Ekspedert,
        ),
        t == Operasjonstype::KlargjorForEkspedering ==> arkivkall_for(t) == Arkivkall::Statusovergang(
            Journalstatus::KlarForEkspedering,
            Journalposttilstand::KlarForEkspedering,
        ),
{
}

} // verus!
