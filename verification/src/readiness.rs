//! Whether a command can be executed now, from the execution snapshot of its
//! case and journal entries.
use vstd::prelude::*;

use crate::command::{type_of, Command, CommandTypeCode};

verus! {

#[derive(PartialEq, Eq, Structural, Clone, Copy, Debug)]
pub enum SakStatus {
    UnderBehandling,
    Avsluttet,
}

/// The snapshot of a case.
#[derive(Debug)]
pub struct SakState {
    pub status: SakStatus,
    pub opprettet: bool,
    pub saksnummer: Option<String>,
}

impl SakState {
    pub fn copy(&self) -> (r: SakState)
        ensures
            r == *self,
    {
        SakState {
            status: self.status,
            opprettet: self.opprettet,
            saksnummer: match &self.saksnummer {
                Some(s) => Some(s.clone()),
                None => None,
            },
        }
    }
}

#[derive(PartialEq, Eq, Structural, Clone, Copy, Debug)]
pub enum JournalpostType {
    Inngaende,
    Utgaaende,
    InterntNotat,
}

/// The snapshot of a journal entry.
#[derive(Debug)]
pub struct JournalpostState {
    pub journalposttype: JournalpostType,
    pub journalfoert: bool,
    pub avskrevet: bool,
    pub ekspedert: bool,
    pub har_feilede_dokumenter: bool,
    pub med_utsending: bool,
    pub journalpostnummer: Option<i64>,
}

/// A case registered together with the command, used when the snapshot does
/// not hold the case yet.
#[derive(Debug)]
pub struct SakStateRegistration {
    pub sak_id: u128,
    pub state: SakState,
}

/// What a command waits for.
#[derive(PartialEq, Eq, Structural, Clone, Copy, Debug)]
pub enum Ventegrunn {
    SakOpprettet { sak_id: u128 },
    SaksnummerTildelt { sak_id: u128 },
    SakHarUferdigeJournalposter { sak_id: u128 },
}

/// Whether a command can run: now, later (and why), or never.
#[derive(Debug)]
pub enum Kjorbarhet {
    Klar,
    Venter { grunn: Ventegrunn, detalj: String },
    Feil { detalj: String },
}

/// The command waits for `grunn`, with the message `detalj`.
pub open spec fn waits(k: Kjorbarhet, grunn: Ventegrunn, detalj: Seq<char>) -> bool {
    k matches Kjorbarhet::Venter { grunn: g, detalj: d } && g == grunn && d@ == detalj
}

/// The command can never run, with the message `detalj`.
pub open spec fn fails(k: Kjorbarhet, detalj: Seq<char>) -> bool {
    k matches Kjorbarhet::Feil { detalj: d } && d@ == detalj
}

/// A journal entry that still has work left: an incoming entry until it is
/// both filed and written off, any other entry until it is filed.
pub open spec fn is_unfinished(j: JournalpostState) -> bool {
    match j.journalposttype {
        JournalpostType::Inngaende => !j.journalfoert || !j.avskrevet,
        JournalpostType::Utgaaende | JournalpostType::InterntNotat => !j.journalfoert,
    }
}

pub fn journalpost_er_uferdig(journalpost: &JournalpostState) -> (r: bool)
    ensures
        r == is_unfinished(*journalpost),
{
    match journalpost.journalposttype {
        JournalpostType::Inngaende => !journalpost.journalfoert || !journalpost.avskrevet,
        JournalpostType::Utgaaende | JournalpostType::InterntNotat => !journalpost.journalfoert,
    }
}

/// The case state: the snapshot's, else the registered one when it is for
/// the same case.
pub fn sak_state_med_seed(
    snapshot: Option<SakState>,
    registration: Option<&SakStateRegistration>,
    sak_id: u128,
) -> (r: Option<SakState>)
    ensures
        snapshot is Some ==> r == snapshot,
        snapshot is None ==> match registration {
            Some(reg) => if reg.sak_id == sak_id {
                r == Some(reg.state)
            } else {
                r is None
            },
            None => r is None,
        },
{
    if snapshot.is_some() {
        return snapshot;
    }
    match registration {
        Some(reg) => if reg.sak_id == sak_id {
            Some(reg.state.copy())
        } else {
            None
        },
        None => None,
    }
}

/// The readiness rule for a journal entry command.
pub open spec fn journalpost_readiness_ok(
    k: Kjorbarhet,
    sak_id: Option<u128>,
    sak_state: Option<SakState>,
) -> bool {
    match sak_id {
        None => fails(k, "Mangler sak_id for journalpostkommando"@),
        Some(id) => match sak_state {
            None => waits(k, Ventegrunn::SakOpprettet { sak_id: id }, "Sak finnes ikke i skuffen-state"@),
            Some(s) => if s.status == SakStatus::Avsluttet {
                fails(k, "Kan ikke opprette journalpost pa avsluttet sak"@)
            } else if !s.opprettet {
                waits(k, Ventegrunn::SakOpprettet { sak_id: id }, "Sak finnes ikke i skuffen-state"@)
            } else if s.saksnummer is None {
                waits(k, Ventegrunn::SaksnummerTildelt { sak_id: id }, "Saksnummer mangler"@)
            } else {
                k is Klar
            },
        },
    }
}

/// The readiness rule for closing a case.
pub open spec fn avslutt_readiness_ok(
    k: Kjorbarhet,
    sak_id: Option<u128>,
    sak_state: Option<SakState>,
    journalposter: Seq<JournalpostState>,
) -> bool {
    match sak_id {
        None => fails(k, "Mangler sak_id for avslutt sak"@),
        Some(id) => match sak_state {
            None => waits(
                k,
                Ventegrunn::SakOpprettet { sak_id: id },
                "Kan ikke avslutte sak: saken finnes ikke i state"@,
            ),
            Some(s) => if !s.opprettet {
                waits(
                    k,
                    Ventegrunn::SakOpprettet { sak_id: id },
                    "Kan ikke avslutte sak: saken finnes ikke i state"@,
                )
            } else if s.saksnummer is None {
                waits(
                    k,
                    Ventegrunn::SaksnummerTildelt { sak_id: id },
                    "Kan ikke avslutte sak: saksnummer mangler i state"@,
                )
            } else if exists|i: int|
                0 <= i < journalposters_len(journalposter) && #[trigger] journalposter[i].har_feilede_dokumenter {
                fails(k, "Kan ikke avslutte sak: minst ett dokument pa en journalpost har feilet"@)
            } else if exists|i: int|
                0 <= i < journalposters_len(journalposter) && is_unfinished(#[trigger] journalposter[i]) {
                waits(
                    k,
                    Ventegrunn::SakHarUferdigeJournalposter { sak_id: id },
                    "Kan ikke avslutte sak: saken har uferdige journalposter"@,
                )
            } else {
                k is Klar
            },
        },
    }
}

pub open spec fn journalposters_len(js: Seq<JournalpostState>) -> int {
    js.len() as int
}

fn any_failed(js: &Vec<JournalpostState>) -> (r: bool)
    ensures
        r == exists|i: int|
            0 <= i < journalposters_len(js@) && #[trigger] js@[i].har_feilede_dokumenter,
{
    let mut i: usize = 0;
    while i < js.len()
        invariant
            i <= js.len(),
            forall|j: int| 0 <= j < i ==> !(#[trigger] js@[j]).har_feilede_dokumenter,
        decreases js.len() - i,
    {
        if js[i].har_feilede_dokumenter {
            assert(0 <= i < journalposters_len(js@) && js@[i as int].har_feilede_dokumenter);
            return true;
        }
        i = i + 1;
    }
    false
}

fn any_unfinished(js: &Vec<JournalpostState>) -> (r: bool)
    ensures
        r == exists|i: int| 0 <= i < journalposters_len(js@) && is_unfinished(#[trigger] js@[i]),
{
    let mut i: usize = 0;
    while i < js.len()
        invariant
            i <= js.len(),
            forall|j: int| 0 <= j < i ==> !is_unfinished(#[trigger] js@[j]),
        decreases js.len() - i,
    {
        if journalpost_er_uferdig(&js[i]) {
            assert(0 <= i < journalposters_len(js@) && is_unfinished(js@[i as int]));
            return true;
        }
        i = i + 1;
    }
    false
}

/// Decides readiness from the case state (snapshot or registration) and the
/// case's journal entries.
pub struct EksekveringsklarhetVurderer {}

impl Default for EksekveringsklarhetVurderer {
    fn default() -> (r: Self)
        ensures
            r == (EksekveringsklarhetVurderer {  }),
    {
        EksekveringsklarhetVurderer {  }
    }
}

/// An assessor carries no state: any two are the same value, so what `vurder`
/// answers depends on its arguments alone, whichever assessor is asked.
pub proof fn law_vurderer_uten_tilstand(a: EksekveringsklarhetVurderer, b: EksekveringsklarhetVurderer)
    ensures
        a == b,
{
}

impl EksekveringsklarhetVurderer {
    pub fn new() -> (r: Self)
        ensures
            r == (EksekveringsklarhetVurderer {  }),
    {
        EksekveringsklarhetVurderer {  }
    }

    /// Creating a case is always ready; a journal entry command and closing a
    /// case follow their rules.
    pub fn vurder(
        &self,
        command: &Command,
        sak_id: Option<u128>,
        sak_state: Option<SakState>,
        journalposter: &Vec<JournalpostState>,
    ) -> (r: Kjorbarhet)
        requires
            type_of(command) != CommandTypeCode::SettSaksansvarlig,
        ensures
            type_of(command) == CommandTypeCode::OpprettSak ==> r is Klar,
            type_of(command) == CommandTypeCode::AvsluttSak ==> avslutt_readiness_ok(
                r,
                sak_id,
                sak_state,
                journalposter@,
            ),
            (type_of(command) == CommandTypeCode::OpprettInngaaendeJournalpost || type_of(command)
                == CommandTypeCode::OpprettUtgaaendeJournalpost || type_of(command)
                == CommandTypeCode::OpprettInterntNotatJournalpost) ==> journalpost_readiness_ok(
                r,
                sak_id,
                sak_state,
            ),
    {
        match command {
            Command::OpprettSak(_) => Kjorbarhet::Klar,
            Command::AvsluttSak(_) => self.vurder_avslutt_sak(sak_id, sak_state, journalposter),
            _ => self.vurder_journalpost_kommando(sak_id, sak_state),
        }
    }

    pub fn vurder_journalpost_kommando(&self, sak_id: Option<u128>, sak_state: Option<SakState>) -> (r:
        Kjorbarhet)
        ensures
            journalpost_readiness_ok(r, sak_id, sak_state),
    {
        let sak_id = match sak_id {
            None => {
                return Kjorbarhet::Feil {
                    detalj: "Mangler sak_id for journalpostkommando".to_owned(),
                };
            },
            Some(id) => id,
        };
        let sak_state = match sak_state {
            None => {
                return Kjorbarhet::Venter {
                    grunn: Ventegrunn::SakOpprettet { sak_id },
                    detalj: "Sak finnes ikke i skuffen-state".to_owned(),
                };
            },
            Some(s) => s,
        };
        if sak_state.status == SakStatus::Avsluttet {
            return Kjorbarhet::Feil {
                detalj: "Kan ikke opprette journalpost pa avsluttet sak".to_owned(),
            };
        }
        if !sak_state.opprettet {
            return Kjorbarhet::Venter {
                grunn: Ventegrunn::SakOpprettet { sak_id },
                detalj: "Sak finnes ikke i skuffen-state".to_owned(),
            };
        }
        if sak_state.saksnummer.is_none() {
            return Kjorbarhet::Venter {
                grunn: Ventegrunn::SaksnummerTildelt { sak_id },
                detalj: "Saksnummer mangler".to_owned(),
            };
        }
        Kjorbarhet::Klar
    }

    pub fn vurder_avslutt_sak(
        &self,
        sak_id: Option<u128>,
        sak_state: Option<SakState>,
        journalposter: &Vec<JournalpostState>,
    ) -> (r: Kjorbarhet)
        ensures
            avslutt_readiness_ok(r, sak_id, sak_state, journalposter@),
    {
        let sak_id = match sak_id {
            None => {
                return Kjorbarhet::Feil { detalj: "Mangler sak_id for avslutt sak".to_owned() };
            },
            Some(id) => id,
        };
        let sak_state = match sak_state {
            None => {
                return Kjorbarhet::Venter {
                    grunn: Ventegrunn::SakOpprettet { sak_id },
                    detalj: "Kan ikke avslutte sak: saken finnes ikke i state".to_owned(),
                };
            },
            Some(s) => s,
        };
        if !sak_state.opprettet {
            return Kjorbarhet::Venter {
                grunn: Ventegrunn::SakOpprettet { sak_id },
                detalj: "Kan ikke avslutte sak: saken finnes ikke i state".to_owned(),
            };
        }
        if sak_state.saksnummer.is_none() {
            return Kjorbarhet::Venter {
                grunn: Ventegrunn::SaksnummerTildelt { sak_id },
                detalj: "Kan ikke avslutte sak: saksnummer mangler i state".to_owned(),
            };
        }
        if any_failed(journalposter) {
            return Kjorbarhet::Feil {
                detalj: "Kan ikke avslutte sak: minst ett dokument pa en journalpost har feilet".to_owned(),
            };
        }
        if any_unfinished(journalposter) {
            return Kjorbarhet::Venter {
                grunn: Ventegrunn::SakHarUferdigeJournalposter { sak_id },
                detalj: "Kan ikke avslutte sak: saken har uferdige journalposter".to_owned(),
            };
        }
        Kjorbarhet::Klar
    }
}

// ---------------------------------------------------------------------------
// Laws
// ---------------------------------------------------------------------------

/// A case is closed only when every journal entry on it is finished and none
/// has a failed document.
pub proof fn law_avslutt_only_when_all_finished(
    k: Kjorbarhet,
    sak_id: Option<u128>,
    sak_state: Option<SakState>,
    journalposter: Seq<JournalpostState>,
)
    requires
        avslutt_readiness_ok(k, sak_id, sak_state, journalposter),
        k is Klar,
    ensures
        sak_id is Some,
        sak_state matches Some(s) && s.opprettet && s.saksnummer is Some,
        forall|i: int| 0 <= i < journalposter.len() ==> !is_unfinished(#[trigger] journalposter[i])
            && !journalposter[i].har_feilede_dokumenter,
{
    reveal_strlit("Mangler sak_id for avslutt sak");
    assert forall|i: int| 0 <= i < journalposter.len() implies !is_unfinished(
        #[trigger] journalposter[i],
    ) && !journalposter[i].har_feilede_dokumenter by {
        assert(0 <= i < journalposters_len(journalposter));
    }
}

/// A journal entry command on a closed case is never ready: it fails.
pub proof fn law_no_journalpost_on_closed_case(
    k: Kjorbarhet,
    sak_id: Option<u128>,
    sak_state: Option<SakState>,
)
    requires
        journalpost_readiness_ok(k, sak_id, sak_state),
        sak_id is Some,
        sak_state matches Some(s) && s.status == SakStatus::Avsluttet,
    ensures
        k is Feil,
{
}

/// A case is never closed while one of its entries has archive work left.
/// An outgoing entry or internal note that is not filed, or an incoming entry
/// that is not both filed and written off, keeps closing from being ready;
/// for a case that exists with a case number and no failed document, the
/// close waits, with the reason that the case has unfinished entries. Once
/// every entry is filed, and every incoming one also written off, such a case
/// is ready to close.
pub proof fn law_close_waits_for_unfinished_entries(
    k: Kjorbarhet,
    sak_id: u128,
    s: SakState,
    js: Seq<JournalpostState>,
    i: int,
)
    requires
        avslutt_readiness_ok(k, Some(sak_id), Some(s), js),
    ensures
        0 <= i < js.len() && js[i].journalposttype != JournalpostType::Inngaende && !js[i].journalfoert
            ==> !(k is Klar),
        0 <= i < js.len() && js[i].journalposttype == JournalpostType::Inngaende && (!js[i].journalfoert
            || !js[i].avskrevet) ==> !(k is Klar),
        0 <= i < js.len() && !js[i].journalfoert && s.opprettet && s.saksnummer is Some && (forall|j: int|
            0 <= j < js.len() ==> !(#[trigger] js[j]).har_feilede_dokumenter) ==> waits(
            k,
            Ventegrunn::SakHarUferdigeJournalposter { sak_id },
            "Kan ikke avslutte sak: saken har uferdige journalposter"@,
        ),
        s.opprettet && s.saksnummer is Some && (forall|j: int|
            0 <= j < js.len() ==> !(#[trigger] js[j]).har_feilede_dokumenter && js[j].journalfoert && (
            js[j].journalposttype == JournalpostType::Inngaende ==> js[j].avskrevet)) ==> k is Klar,
{
    if 0 <= i < js.len() {
        assert(0 <= i < journalposters_len(js));
        if !js[i].journalfoert || (js[i].journalposttype == JournalpostType::Inngaende && !js[i].avskrevet) {
            assert(is_unfinished(js[i]));
        }
    }
    if s.opprettet && s.saksnummer is Some && (forall|j: int|
        0 <= j < js.len() ==> !(#[trigger] js[j]).har_feilede_dokumenter && js[j].journalfoert && (
        js[j].journalposttype == JournalpostType::Inngaende ==> js[j].avskrevet)) {
        assert forall|j: int| 0 <= j < journalposters_len(js) implies !is_unfinished(#[trigger] js[j]) by {
            assert(js[j].journalfoert);
        }
    }
}

} // verus!
