//! Operations: the single archive calls a command decomposes into, and the
//! decisions the executor, the evaluation pass and the worker take on them.
//!
//! Outcomes are decided in one place: a decision about an operation becomes
//! one repository action and at most one status message.
use vstd::prelude::*;

use crate::command::{CommandTypeCode, Statuskontekst};
use crate::status::StatusErrorCode;

verus! {

/// The kind of archive call an operation makes.
#[derive(PartialEq, Eq, Structural, Clone, Copy, Debug)]
pub enum Operasjonstype {
    OpprettSak,
    SettSaksansvarlig,
    AvsluttSak,
    RenderDokument,
    OpprettJournalpost,
    LeggTilVedlegg,
    Journalfor,
    SettEkspedert,
    KlargjorForEkspedering,
    AvventJournalfort,
    Avskriv,
}

/// What the rules decide about an operation from the current facts.
#[derive(Debug)]
pub enum Beslutning {
    /// Run it now.
    Utfor,
    /// The facts show it is done already.
    AlleredeUtfort,
    /// It can never run; the safe detail says why.
    Ugyldig(String),
    /// It waits; the safe detail says for what.
    Blokkert(String),
}

/// The decision for an operation whose case has no facts yet.
pub fn entity_missing() -> (r: Beslutning)
    ensures
        r matches Beslutning::Blokkert(d) && d@ == "blocked_reason=entity_missing"@,
{
    Beslutning::Blokkert("blocked_reason=entity_missing".to_owned())
}

/// An event on the operation's status line.
#[derive(PartialEq, Eq, Structural, Clone, Copy, Debug)]
pub enum Operasjonshendelse {
    Utfort,
    ForsokFeilet,
    Feilet,
    KreverAvklaring,
    Varsel,
}

/// An operation event settles the operation: success or terminal failure.
/// A failed attempt, an unknown outcome and a deadline warning do not.
pub open spec fn is_terminal(h: Operasjonshendelse) -> bool {
    h == Operasjonshendelse::Utfort || h == Operasjonshendelse::Feilet
}

pub fn er_terminal(h: Operasjonshendelse) -> (r: bool)
    ensures
        r == is_terminal(h),
{
    match h {
        Operasjonshendelse::Utfort | Operasjonshendelse::Feilet => true,
        _ => false,
    }
}

/// An event on the command's status line.
#[derive(PartialEq, Eq, Structural, Clone, Copy, Debug)]
pub enum CommandEvent {
    Mottatt,
    Validert,
    Avvist,
    Utfores,
    Fullfort,
    Feilet,
    KreverAvklaring,
}

/// A message on a command's status line.
#[derive(Debug)]
pub struct CommandStatus {
    pub command_id: u128,
    pub correlation_id: Option<u128>,
    pub command_type: CommandTypeCode,
    pub hendelse: CommandEvent,
    pub melding: String,
    pub error_code: Option<StatusErrorCode>,
    pub kontekst: Statuskontekst,
}

impl CommandStatus {
    pub fn new(
        command_id: u128,
        correlation_id: Option<u128>,
        command_type: CommandTypeCode,
        hendelse: CommandEvent,
        melding: &str,
        error_code: Option<StatusErrorCode>,
        kontekst: Statuskontekst,
    ) -> (r: Self)
        ensures
            r.command_id == command_id,
            r.correlation_id == correlation_id,
            r.command_type == command_type,
            r.hendelse == hendelse,
            r.melding@ == melding@,
            r.error_code == error_code,
            r.kontekst == kontekst,
    {
        CommandStatus {
            command_id,
            correlation_id,
            command_type,
            hendelse,
            melding: melding.to_owned(),
            error_code,
            kontekst,
        }
    }
}

/// The fold of a command's operations.
#[derive(PartialEq, Eq, Structural, Clone, Copy, Debug)]
pub enum CommandOutcome {
    /// Not settled yet.
    Uavklart,
    Fullfort,
    Feilet,
    KreverAvklaring,
}

/// The command-level message for a settled fold; nothing while it is open.
pub open spec fn outcome_message(o: CommandOutcome) -> Option<
    (CommandEvent, Seq<char>, Option<StatusErrorCode>),
> {
    match o {
        CommandOutcome::Uavklart => None,
        CommandOutcome::Fullfort => Some(
            (CommandEvent::Fullfort, "Forespørselen er fullført."@, None),
        ),
        CommandOutcome::Feilet => Some(
            (
                CommandEvent::Feilet,
                "Forespørselen kunne ikke fullføres."@,
                Some(StatusErrorCode::ProcessingFailed),
            ),
        ),
        CommandOutcome::KreverAvklaring => Some(
            (
                CommandEvent::KreverAvklaring,
                "Utfallet er ukjent og må avklares manuelt."@,
                Some(StatusErrorCode::ProcessingFailed),
            ),
        ),
    }
}

pub fn command_outcome_message(o: CommandOutcome) -> (r: Option<
    (CommandEvent, &'static str, Option<StatusErrorCode>),
>)
    ensures
        match (r, outcome_message(o)) {
            (None, None) => true,
            (Some((e, m, c)), Some((e2, m2, c2))) => e == e2 && m@ == m2 && c == c2,
            _ => false,
        },
{
    match o {
        CommandOutcome::Uavklart => None,
        CommandOutcome::Fullfort => Some((CommandEvent::Fullfort, "Forespørselen er fullført.", None)),
        CommandOutcome::Feilet => Some(
            (
                CommandEvent::Feilet,
                "Forespørselen kunne ikke fullføres.",
                Some(StatusErrorCode::ProcessingFailed),
            ),
        ),
        CommandOutcome::KreverAvklaring => Some(
            (
                CommandEvent::KreverAvklaring,
                "Utfallet er ukjent og må avklares manuelt.",
                Some(StatusErrorCode::ProcessingFailed),
            ),
        ),
    }
}

/// The message for an outcome that must be cleared up by hand; operation and
/// command level say the same.
pub const UAVKLART_MELDING: &'static str = "Utfallet er ukjent og må avklares manuelt.";

/// The message of the advisory warning for an operation past its deadline.
pub const VARSEL_MELDING: &'static str = "Operasjonen har ikke fullført innen fristen. Forsøkene fortsetter.";

/// What the status messages of an operation's command carry.
#[derive(Debug)]
pub struct CommandMetadata {
    pub command_id: u128,
    pub correlation_id: Option<u128>,
    pub command_type: CommandTypeCode,
    pub kontekst: Statuskontekst,
}

/// A message on an operation's status line.
#[derive(Debug)]
pub struct Operasjonstatus {
    pub command_id: u128,
    pub correlation_id: Option<u128>,
    pub operasjon_id: u128,
    pub operasjonstype: Operasjonstype,
    pub hendelse: Operasjonshendelse,
    pub attempt_no: i32,
    pub melding: String,
    pub error_code: Option<StatusErrorCode>,
}

/// The message of an operation event, for the operation's command.
pub fn operasjon_status(
    command: &CommandMetadata,
    operasjon_id: u128,
    operasjonstype: Operasjonstype,
    hendelse: Operasjonshendelse,
    attempt_no: i32,
    melding: &str,
    error_code: Option<StatusErrorCode>,
) -> (r: Operasjonstatus)
    ensures
        r.command_id == command.command_id,
        r.correlation_id == command.correlation_id,
        r.operasjon_id == operasjon_id,
        r.operasjonstype == operasjonstype,
        r.hendelse == hendelse,
        r.attempt_no == attempt_no,
        r.melding@ == melding@,
        r.error_code == error_code,
{
    Operasjonstatus {
        command_id: command.command_id,
        correlation_id: command.correlation_id,
        operasjon_id,
        operasjonstype,
        hendelse,
        attempt_no,
        melding: melding.to_owned(),
        error_code,
    }
}

/// The advisory warning for an operation past its deadline: it changes
/// nothing, and the attempts go on.
pub fn varsel_status(command: &CommandMetadata, operasjon_id: u128, operasjonstype: Operasjonstype) -> (r:
    Operasjonstatus)
    ensures
        r.command_id == command.command_id,
        r.correlation_id == command.correlation_id,
        r.operasjon_id == operasjon_id,
        r.operasjonstype == operasjonstype,
        r.hendelse == Operasjonshendelse::Varsel,
        r.attempt_no == 0,
        r.melding@ == VARSEL_MELDING@,
        r.error_code == Some(StatusErrorCode::PrerequisitePending),
{
    operasjon_status(
        command,
        operasjon_id,
        operasjonstype,
        Operasjonshendelse::Varsel,
        0,
        VARSEL_MELDING,
        Some(StatusErrorCode::PrerequisitePending),
    )
}

/// The message for an operation whose outcome became unknown in a restart.
pub fn krever_avklaring_status(
    command: &CommandMetadata,
    operasjon_id: u128,
    operasjonstype: Operasjonstype,
) -> (r: Operasjonstatus)
    ensures
        r.command_id == command.command_id,
        r.correlation_id == command.correlation_id,
        r.operasjon_id == operasjon_id,
        r.operasjonstype == operasjonstype,
        r.hendelse == Operasjonshendelse::KreverAvklaring,
        r.attempt_no == 0,
        r.melding@ == UAVKLART_MELDING@,
        r.error_code == Some(StatusErrorCode::ProcessingFailed),
{
    operasjon_status(
        command,
        operasjon_id,
        operasjonstype,
        Operasjonshendelse::KreverAvklaring,
        0,
        UAVKLART_MELDING,
        Some(StatusErrorCode::ProcessingFailed),
    )
}

/// The command-level message for the fold of its operations, none while the
/// fold is open.
pub fn command_outcome_status(command: &CommandMetadata, outcome: CommandOutcome) -> (r: Option<
    CommandStatus,
>)
    ensures
        match outcome_message(outcome) {
            None => r is None,
            Some((hendelse, melding, error_code)) => r matches Some(s) && s.command_id
                == command.command_id && s.correlation_id == command.correlation_id && s.command_type
                == command.command_type && s.hendelse == hendelse && s.melding@ == melding
                && s.error_code == error_code && s.kontekst@ == command.kontekst@,
        },
{
    match command_outcome_message(outcome) {
        None => None,
        Some((hendelse, melding, error_code)) => Some(
            CommandStatus::new(
                command.command_id,
                command.correlation_id,
                command.command_type,
                hendelse,
                melding,
                error_code,
                command.kontekst.kopi(),
            ),
        ),
    }
}

/// The operation worker's timing, in milliseconds.
#[derive(Debug)]
pub struct WorkerInnstillinger {
    /// How often the advisory deadline warning is checked.
    pub varselintervall_ms: u64,
    /// How long the worker sleeps when the queue is empty.
    pub tomgangspause_ms: u64,
    /// How often an instance that is not the leader tries to take over.
    pub lederforsok_intervall_ms: u64,
    /// How long an operation may stay unsettled before it is warned about.
    pub varselfrist_ms: i64,
}

impl Default for WorkerInnstillinger {
    /// Warnings checked every 30 s, 2 s idle sleep, leadership tried every
    /// 5 s, and a warning after 24 hours.
    fn default() -> (r: Self)
        ensures
            r.varselintervall_ms == 30_000,
            r.tomgangspause_ms == 2_000,
            r.lederforsok_intervall_ms == 5_000,
            r.varselfrist_ms == 86_400_000,
    {
        WorkerInnstillinger {
            varselintervall_ms: 30_000,
            tomgangspause_ms: 2_000,
            lederforsok_intervall_ms: 5_000,
            varselfrist_ms: 86_400_000,
        }
    }
}

/// The instant before which an unsettled operation is warned about: the
/// deadline before now; `None` when it does not fit.
pub fn varselgrense(now_ms: i64, innstillinger: &WorkerInnstillinger) -> (r: Option<i64>)
    ensures
        match r {
            Some(t) => t == now_ms - innstillinger.varselfrist_ms,
            None => now_ms - innstillinger.varselfrist_ms < i64::MIN || now_ms
                - innstillinger.varselfrist_ms > i64::MAX,
        },
{
    now_ms.checked_sub(innstillinger.varselfrist_ms)
}

/// An unclear operation is announced at command level only when the fold
/// itself is unclear: a command that has already failed stays failed.
pub fn skal_publisere_uavklart_command(outcome: CommandOutcome) -> (r: bool)
    ensures
        r == (outcome == CommandOutcome::KreverAvklaring),
{
    outcome == CommandOutcome::KreverAvklaring
}

/// The command-level message for an unclear operation: only while the fold
/// is unclear.
pub fn uavklart_command_status(command: &CommandMetadata, outcome: CommandOutcome) -> (r: Option<
    CommandStatus,
>)
    ensures
        outcome != CommandOutcome::KreverAvklaring ==> r is None,
        outcome == CommandOutcome::KreverAvklaring ==> (r matches Some(s) && s.command_id
            == command.command_id && s.correlation_id == command.correlation_id && s.command_type
            == command.command_type && s.hendelse == CommandEvent::KreverAvklaring && s.melding@
            == UAVKLART_MELDING@ && s.error_code == Some(StatusErrorCode::ProcessingFailed)
            && s.kontekst@ == command.kontekst@),
{
    if !skal_publisere_uavklart_command(outcome) {
        return None;
    }
    Some(
        CommandStatus::new(
            command.command_id,
            command.correlation_id,
            command.command_type,
            CommandEvent::KreverAvklaring,
            UAVKLART_MELDING,
            Some(StatusErrorCode::ProcessingFailed),
            command.kontekst.kopi(),
        ),
    )
}

// ---------------------------------------------------------------------------
// The executor's decision on an operation
// ---------------------------------------------------------------------------

/// What the executor does with an operation after deciding on it.
#[derive(Debug)]
pub enum Handling {
    /// Record the blocking reason; publish nothing.
    MarkerBlokkert { detalj: String },
    /// Complete it as done without an archive call, and publish that.
    FullforUtenKall { melding: String },
    /// Mark it failed with the safe detail, and publish a failure.
    MarkerFeilet { detalj: String, melding: String, error_code: StatusErrorCode },
    /// Make the archive call.
    Utfor,
}

/// The executor's handling of a decision.
pub fn handling_for(beslutning: Beslutning) -> (r: Handling)
    ensures
        match beslutning {
            Beslutning::Blokkert(g) => r matches Handling::MarkerBlokkert { detalj } && detalj@
                == g@,
            Beslutning::AlleredeUtfort => r matches Handling::FullforUtenKall { melding }
                && melding@ == "Allerede utført."@,
            Beslutning::Ugyldig(b) => r matches Handling::MarkerFeilet {
                detalj,
                melding,
                error_code,
            } && detalj@ == b@ && melding@ == "Operasjonen kan ikke utføres."@ && error_code
                == StatusErrorCode::ProcessingFailed,
            Beslutning::Utfor => r is Utfor,
        },
{
    match beslutning {
        Beslutning::Blokkert(grunn) => Handling::MarkerBlokkert { detalj: grunn },
        Beslutning::AlleredeUtfort => Handling::FullforUtenKall {
            melding: "Allerede utført.".to_owned(),
        },
        Beslutning::Ugyldig(brudd) => Handling::MarkerFeilet {
            detalj: brudd,
            melding: "Operasjonen kan ikke utføres.".to_owned(),
            error_code: StatusErrorCode::ProcessingFailed,
        },
        Beslutning::Utfor => Handling::Utfor,
    }
}

/// An archive call's failure, as the executor reads it.
#[derive(Debug)]
pub struct ArkivFeil {
    pub er_recoverable: bool,
    /// What goes to the operation row.
    pub siste_detalj: String,
    /// What goes to the client.
    pub melding: String,
    pub error_code: StatusErrorCode,
}

/// What an archive call came to.
#[derive(Debug)]
pub enum Arkivresultat {
    /// Done.
    Ferdig,
    /// Facts were observed; ask again after `om_ms` milliseconds.
    PollIgjen { om_ms: u64 },
    Feil(ArkivFeil),
}

/// How an attempt is recorded and published.
#[derive(Debug)]
pub enum Forsoksutfall {
    /// Commit success; publish `Utført.`.
    Fullfort,
    /// Commit the observed facts; try again after `om_ms`.
    Poll { om_ms: u64 },
    /// Record the failed attempt; retry after the backoff for `backoff_attempt`.
    Retry { detalj: String, melding: String, error_code: StatusErrorCode, backoff_attempt: u32 },
    /// Record terminal failure.
    Feilet { detalj: String, melding: String, error_code: StatusErrorCode },
}

/// A recoverable failure retries for ever with backoff counted from the
/// attempt before this one; only an irrecoverable failure is terminal.
pub fn forsoksutfall(resultat: Arkivresultat, attempt_no: i32) -> (r: Forsoksutfall)
    ensures
        match resultat {
            Arkivresultat::Ferdig => r is Fullfort,
            Arkivresultat::PollIgjen { om_ms } => r matches Forsoksutfall::Poll { om_ms: o } && o
                == om_ms,
            Arkivresultat::Feil(f) => if f.er_recoverable {
                r matches Forsoksutfall::Retry { detalj, melding, error_code, backoff_attempt }
                    && detalj@ == f.siste_detalj@ && melding@ == f.melding@ && error_code
                    == f.error_code && backoff_attempt == (if attempt_no <= 1 {
                    0
                } else {
                    attempt_no - 1
                })
            } else {
                r matches Forsoksutfall::Feilet { detalj, melding, error_code } && detalj@
                    == f.siste_detalj@ && melding@ == f.melding@ && error_code == f.error_code
            },
        },
{
    match resultat {
        Arkivresultat::Ferdig => Forsoksutfall::Fullfort,
        Arkivresultat::PollIgjen { om_ms } => Forsoksutfall::Poll { om_ms },
        Arkivresultat::Feil(f) => if f.er_recoverable {
            Forsoksutfall::Retry {
                detalj: f.siste_detalj,
                melding: f.melding,
                error_code: f.error_code,
                backoff_attempt: crate::backoff::retry_attempt(attempt_no),
            }
        } else {
            Forsoksutfall::Feilet {
                detalj: f.siste_detalj,
                melding: f.melding,
                error_code: f.error_code,
            }
        },
    }
}

/// The parsed archive id of a journal entry (`str::parse::<i32>`), or the
/// internal error code for a missing or non-numeric one.
pub fn krev_journalpost_arkiv_id(arkiv_id: Option<&str>) -> (r: Result<i32, &'static str>)
    ensures
        match arkiv_id {
            None => r matches Err(c) && c@ == "intern_journalpost_arkiv_id_mangler"@,
            Some(s) => match crate::parse::parse_i32(s@) {
                Some(n) => r == Ok::<i32, &'static str>(n),
                None => r matches Err(c) && c@ == "intern_journalpost_arkiv_id_ikke_numerisk"@,
            },
        },
{
    match arkiv_id {
        None => Err("intern_journalpost_arkiv_id_mangler"),
        Some(s) => match crate::parse::parse_i32_exec(s) {
            Some(n) => Ok(n),
            None => Err("intern_journalpost_arkiv_id_ikke_numerisk"),
        },
    }
}

// ---------------------------------------------------------------------------
// The evaluation pass over blocked operations
// ---------------------------------------------------------------------------

/// The tally of one evaluation pass.
#[derive(PartialEq, Eq, Structural, Clone, Copy, Debug)]
pub struct Evalueringsresultat {
    pub vurdert: u64,
    /// Became runnable in this pass.
    pub frigjort: u64,
    pub allerede_utfort: u64,
    pub ugyldig: u64,
}

impl Evalueringsresultat {
    pub fn new() -> (r: Self)
        ensures
            r.vurdert == 0 && r.frigjort == 0 && r.allerede_utfort == 0 && r.ugyldig == 0,
    {
        Evalueringsresultat { vurdert: 0, frigjort: 0, allerede_utfort: 0, ugyldig: 0 }
    }
}

/// What the evaluation pass does with a blocked operation.
#[derive(Debug)]
pub enum Evalueringshandling {
    MarkerKlar,
    FullforOk,
    MarkerFeilet { detalj: String },
    MarkerBlokkert { detalj: String },
}

/// The action for a decision: release a runnable operation, complete one
/// that is done, fail an invalid one, and record why a blocked one waits.
pub open spec fn handling_av(h: Evalueringshandling, b: Beslutning) -> bool {
    match b {
        Beslutning::Utfor => h is MarkerKlar,
        Beslutning::AlleredeUtfort => h is FullforOk,
        Beslutning::Ugyldig(brudd) => h matches Evalueringshandling::MarkerFeilet { detalj }
            && detalj@ == brudd@,
        Beslutning::Blokkert(grunn) => h matches Evalueringshandling::MarkerBlokkert { detalj }
            && detalj@ == grunn@,
    }
}

/// The tally with one more decision counted.
pub open spec fn tally_after(t: Evalueringsresultat, b: Beslutning) -> Evalueringsresultat {
    let v = Evalueringsresultat { vurdert: (t.vurdert + 1) as u64, ..t };
    match b {
        Beslutning::Utfor => Evalueringsresultat { frigjort: (t.frigjort + 1) as u64, ..v },
        Beslutning::AlleredeUtfort => Evalueringsresultat {
            allerede_utfort: (t.allerede_utfort + 1) as u64,
            ..v
        },
        Beslutning::Ugyldig(_) => Evalueringsresultat { ugyldig: (t.ugyldig + 1) as u64, ..v },
        Beslutning::Blokkert(_) => v,
    }
}

pub open spec fn counts_of(bs: Seq<Beslutning>) -> (nat, nat, nat)
    decreases bs.len(),
{
    if bs.len() == 0 {
        (0, 0, 0)
    } else {
        let (f, a, u) = counts_of(bs.drop_last());
        match bs.last() {
            Beslutning::Utfor => (f + 1, a, u),
            Beslutning::AlleredeUtfort => (f, a + 1, u),
            Beslutning::Ugyldig(_) => (f, a, u + 1),
            Beslutning::Blokkert(_) => (f, a, u),
        }
    }
}

/// A pass re-reads the facts of blocked operations and moves to ready the
/// ones that can run now. It holds its repositories and the most operations
/// one pass looks at.
pub struct EvaluerOperasjonerService<O, F> {
    pub operasjon: O,
    pub fakta: F,
    pub grense: i64,
}

impl<O, F> EvaluerOperasjonerService<O, F> {
    pub fn new(operasjon: O, fakta: F, grense: i64) -> (r: Self)
        ensures
            r.operasjon == operasjon,
            r.fakta == fakta,
            r.grense == grense,
    {
        EvaluerOperasjonerService { operasjon, fakta, grense }
    }

    /// The action for one decision, and the tally with it counted.
    pub fn registrer(&self, resultat: &mut Evalueringsresultat, beslutning: &Beslutning) -> (r:
        Evalueringshandling)
        requires
            old(resultat).vurdert < u64::MAX,
            old(resultat).frigjort < u64::MAX,
            old(resultat).allerede_utfort < u64::MAX,
            old(resultat).ugyldig < u64::MAX,
        ensures
            *final(resultat) == tally_after(*old(resultat), *beslutning),
            handling_av(r, *beslutning),
    {
        resultat.vurdert = resultat.vurdert + 1;
        match beslutning {
            Beslutning::Utfor => {
                resultat.frigjort = resultat.frigjort + 1;
                Evalueringshandling::MarkerKlar
            },
            Beslutning::AlleredeUtfort => {
                resultat.allerede_utfort = resultat.allerede_utfort + 1;
                Evalueringshandling::FullforOk
            },
            Beslutning::Ugyldig(brudd) => {
                resultat.ugyldig = resultat.ugyldig + 1;
                Evalueringshandling::MarkerFeilet { detalj: brudd.clone() }
            },
            Beslutning::Blokkert(grunn) => Evalueringshandling::MarkerBlokkert {
                detalj: grunn.clone(),
            },
        }
    }

    /// One pass over the decisions for the blocked operations, in order: the
    /// action for each, and the tally.
    pub fn evaluer(&self, beslutninger: &Vec<Beslutning>) -> (r: (
        Vec<Evalueringshandling>,
        Evalueringsresultat,
    ))
        ensures
            r.0@.len() == beslutninger@.len(),
            forall|i: int| 0 <= i < beslutninger@.len() ==> handling_av(#[trigger] r.0@[i], beslutninger@[i]),
            r.1.vurdert == beslutninger@.len(),
            r.1.frigjort == counts_of(beslutninger@).0,
            r.1.allerede_utfort == counts_of(beslutninger@).1,
            r.1.ugyldig == counts_of(beslutninger@).2,
    {
        let ghost all = beslutninger@;
        let mut resultat = Evalueringsresultat::new();
        let mut handlinger: Vec<Evalueringshandling> = Vec::new();
        let mut i: usize = 0;
        while i < beslutninger.len()
            invariant
                i <= beslutninger.len(),
                all == beslutninger@,
                handlinger@.len() == i,
                forall|k: int| 0 <= k < i ==> handling_av(#[trigger] handlinger@[k], all[k]),
                resultat.vurdert == i,
                resultat.frigjort == counts_of(all.take(i as int)).0,
                resultat.allerede_utfort == counts_of(all.take(i as int)).1,
                resultat.ugyldig == counts_of(all.take(i as int)).2,
            decreases beslutninger.len() - i,
        {
            proof {
                assert(all.take(i + 1).drop_last() == all.take(i as int));
                assert(all.take(i + 1).last() == all[i as int]);
                lemma_counts_bounded(all.take(i as int));
            }
            let h = self.registrer(&mut resultat, &beslutninger[i]);
            handlinger.push(h);
            i = i + 1;
        }
        proof {
            assert(all.take(i as int) == all);
        }
        (handlinger, resultat)
    }
}

// ---------------------------------------------------------------------------
// Laws
// ---------------------------------------------------------------------------

proof fn lemma_counts_bounded(bs: Seq<Beslutning>)
    ensures
        counts_of(bs).0 + counts_of(bs).1 + counts_of(bs).2 <= bs.len(),
    decreases bs.len(),
{
    if bs.len() > 0 {
        lemma_counts_bounded(bs.drop_last());
    }
}

/// An evaluation pass accounts for every operation it looks at exactly once:
/// released, already done, invalid, or still blocked.
pub proof fn law_evaluation_tally(bs: Seq<Beslutning>)
    ensures
        counts_of(bs).0 + counts_of(bs).1 + counts_of(bs).2 <= bs.len(),
{
    lemma_counts_bounded(bs);
}

/// Only success and terminal failure settle an operation.
pub proof fn law_terminal_events()
    ensures
        is_terminal(Operasjonshendelse::Utfort),
        is_terminal(Operasjonshendelse::Feilet),
        !is_terminal(Operasjonshendelse::ForsokFeilet),
        !is_terminal(Operasjonshendelse::KreverAvklaring),
        !is_terminal(Operasjonshendelse::Varsel),
{
}

} // verus!
