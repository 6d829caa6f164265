//! Validating an incoming command: local screening rules, and whether the
//! case it refers to exists and is open.
//!
//! Validation reads the entity registry and the archive but materialises no
//! execution state.
use vstd::prelude::*;

use crate::command::{names, Command, Korrespondansepart, OpprettJournalpostCommand, SakKey, SakKeyView};
use crate::status::StatusErrorCode;

verus! {

/// The result of validating a command.
#[derive(Debug)]
pub enum ValidationOutcome {
    Valid,
    Blocked { message: String, error_code: StatusErrorCode },
    Recoverable { message: String, error_code: StatusErrorCode },
    Irrecoverable { message: String, error_code: StatusErrorCode },
}

impl ValidationOutcome {
    /// The command is to be delivered again later.
    pub fn is_retryable(&self) -> (r: bool)
        ensures
            r == (self is Recoverable || self is Blocked),
    {
        match self {
            ValidationOutcome::Recoverable { .. } | ValidationOutcome::Blocked { .. } => true,
            _ => false,
        }
    }
}

/// The outcome rejects the command with exactly this message and code.
pub open spec fn rejects(o: ValidationOutcome, message: Seq<char>, code: StatusErrorCode) -> bool {
    o matches ValidationOutcome::Irrecoverable { message: m, error_code: c } && m@ == message && c
        == code
}

pub fn markup_avvist(message: &str) -> (r: ValidationOutcome)
    ensures
        rejects(r, message@, StatusErrorCode::InvalidRequest),
{
    ValidationOutcome::Irrecoverable {
        message: message.to_owned(),
        error_code: StatusErrorCode::InvalidRequest,
    }
}

/// The result of checking a title's screening markup against the entity's
/// screening.
#[derive(PartialEq, Eq, Structural, Clone, Copy, Debug)]
pub enum MarkupSjekk {
    Gyldig,
    SkjermingKrevesMenMangler,
    UbalansertKlamme,
}

/// A case title's markup check as a validation outcome.
pub fn validate_sakstittel_markup(sjekk: MarkupSjekk) -> (r: ValidationOutcome)
    ensures
        match sjekk {
            MarkupSjekk::Gyldig => r is Valid,
            MarkupSjekk::SkjermingKrevesMenMangler => rejects(
                r,
                "Sakstittel har skjermings-markup uten skjerming"@,
                StatusErrorCode::InvalidRequest,
            ),
            MarkupSjekk::UbalansertKlamme => rejects(
                r,
                "Sakstittel har ubalansert skjermings-markup"@,
                StatusErrorCode::InvalidRequest,
            ),
        },
{
    match sjekk {
        MarkupSjekk::Gyldig => ValidationOutcome::Valid,
        MarkupSjekk::SkjermingKrevesMenMangler => markup_avvist(
            "Sakstittel har skjermings-markup uten skjerming",
        ),
        MarkupSjekk::UbalansertKlamme => markup_avvist("Sakstittel har ubalansert skjermings-markup"),
    }
}

/// The correspondent names whose markup is checked: the sender of an
/// incoming entry, the receivers of an outgoing one, none for a note.
pub open spec fn checked_names(command: &OpprettJournalpostCommand) -> Seq<Seq<char>> {
    match command {
        OpprettJournalpostCommand::Inngaende { avsender, .. } => seq![avsender.navn@],
        OpprettJournalpostCommand::Utgaaende { mottakere, .. } => names(mottakere@),
        OpprettJournalpostCommand::UtgaaendeMedUtsending { mottakere, .. } => names(mottakere@),
        OpprettJournalpostCommand::InterntNotat { .. } => Seq::empty(),
    }
}

fn names_of(ps: &Vec<Korrespondansepart>) -> (r: Vec<String>)
    ensures
        crate::command::string_views(r@) == names(ps@),
{
    let mut out: Vec<String> = Vec::new();
    let mut i: usize = 0;
    while i < ps.len()
        invariant
            i <= ps.len(),
            crate::command::string_views(out@) == names(ps@.take(i as int)),
        decreases ps.len() - i,
    {
        let ghost before = out@;
        assert(crate::command::string_views(before).len() == before.len());
        let n = ps[i].navn.clone();
        out.push(n);
        assert(out@ == before.push(n));
        proof {
            crate::command::lemma_string_views_push(before, n);
            crate::command::lemma_names_push(ps@.take(i as int), ps@[i as int]);
            assert(ps@.take(i + 1) == ps@.take(i as int).push(ps@[i as int]));
        }
        i = i + 1;
    }
    assert(ps@.take(ps.len() as int) == ps@);
    out
}

pub fn korrespondanse_navn(command: &OpprettJournalpostCommand) -> (r: Vec<String>)
    ensures
        crate::command::string_views(r@) == checked_names(command),
{
    match command {
        OpprettJournalpostCommand::Inngaende { avsender, .. } => {
            let mut v: Vec<String> = Vec::new();
            v.push(avsender.navn.clone());
            assert(crate::command::string_views(v@) =~= seq![avsender.navn@]);
            v
        },
        OpprettJournalpostCommand::Utgaaende { mottakere, .. } => names_of(mottakere),
        OpprettJournalpostCommand::UtgaaendeMedUtsending { mottakere, .. } => names_of(mottakere),
        OpprettJournalpostCommand::InterntNotat { .. } => {
            let v: Vec<String> = Vec::new();
            assert(crate::command::string_views(v@) =~= Seq::<Seq<char>>::empty());
            v
        },
    }
}

/// The local screening rules of a journal entry command: the title's markup
/// check first, then that every correspondent name is free of markup.
pub fn validate_journalpost_lokalt(tittel: MarkupSjekk, navn_markup_frie: bool) -> (r:
    ValidationOutcome)
    ensures
        match tittel {
            MarkupSjekk::SkjermingKrevesMenMangler => rejects(
                r,
                "Journalposttittel har skjermings-markup uten skjerming"@,
                StatusErrorCode::InvalidRequest,
            ),
            MarkupSjekk::UbalansertKlamme => rejects(
                r,
                "Journalposttittel har ubalansert skjermings-markup"@,
                StatusErrorCode::InvalidRequest,
            ),
            MarkupSjekk::Gyldig => if navn_markup_frie {
                r is Valid
            } else {
                rejects(
                    r,
                    "Korrespondansepart-navn skal ikke inneholde markup"@,
                    StatusErrorCode::InvalidRequest,
                )
            },
        },
{
    match tittel {
        MarkupSjekk::Gyldig => {},
        MarkupSjekk::SkjermingKrevesMenMangler => {
            return markup_avvist("Journalposttittel har skjermings-markup uten skjerming");
        },
        MarkupSjekk::UbalansertKlamme => {
            return markup_avvist("Journalposttittel har ubalansert skjermings-markup");
        },
    }
    if !navn_markup_frie {
        return markup_avvist("Korrespondansepart-navn skal ikke inneholde markup");
    }
    ValidationOutcome::Valid
}

/// What the entity registry answered for a client reference.
#[derive(Debug)]
pub enum EntitetOppslag {
    /// Registered; with the archive id when the archive has the case.
    Funnet { arkiv_id: Option<String> },
    IkkeFunnet,
    /// The lookup failed, with its error text.
    Feil(String),
}

/// The next step of checking a case reference.
#[derive(Debug)]
pub enum SakRefSteg {
    /// Decided.
    Ferdig(ValidationOutcome),
    /// Ask the archive about this case number.
    SjekkArkivet(String),
}

/// A case referred to by case number is checked in the archive. One referred
/// to by client reference must be registered: when the archive knows it, it
/// is checked there; otherwise it is valid. An unknown one is rejected, and a
/// failed lookup is retried.
pub fn validate_sak_ref(sak_key: &SakKey, oppslag: EntitetOppslag) -> (r: SakRefSteg)
    ensures
        match sak_key@ {
            SakKeyView::ArkivId(s) => r matches SakRefSteg::SjekkArkivet(t) && t@ == s,
            SakKeyView::ClientReference(_) => match oppslag {
                EntitetOppslag::Funnet { arkiv_id: Some(a) } => r matches SakRefSteg::SjekkArkivet(
                    t,
                ) && t@ == a@,
                EntitetOppslag::Funnet { arkiv_id: None } => r matches SakRefSteg::Ferdig(o) && o is Valid,
                EntitetOppslag::IkkeFunnet => r matches SakRefSteg::Ferdig(o) && rejects(
                    o,
                    "Sak finnes ikke i Skuffen"@,
                    StatusErrorCode::NotFound,
                ),
                EntitetOppslag::Feil(e) => r matches SakRefSteg::Ferdig(o) && o matches ValidationOutcome::Recoverable {
                    message,
                    error_code,
                } && message@ == e@ && error_code == StatusErrorCode::TemporaryUnavailable,
            },
        },
{
    match sak_key {
        SakKey::ArkivId(saksnummer) => SakRefSteg::SjekkArkivet(saksnummer.clone()),
        SakKey::ClientReference(_) => match oppslag {
            EntitetOppslag::Funnet { arkiv_id: Some(arkiv_id) } => SakRefSteg::SjekkArkivet(arkiv_id),
            EntitetOppslag::Funnet { arkiv_id: None } => SakRefSteg::Ferdig(ValidationOutcome::Valid),
            EntitetOppslag::IkkeFunnet => SakRefSteg::Ferdig(
                ValidationOutcome::Irrecoverable {
                    message: "Sak finnes ikke i Skuffen".to_owned(),
                    error_code: StatusErrorCode::NotFound,
                },
            ),
            EntitetOppslag::Feil(err) => SakRefSteg::Ferdig(
                ValidationOutcome::Recoverable {
                    message: err,
                    error_code: StatusErrorCode::TemporaryUnavailable,
                },
            ),
        },
    }
}

/// How an archive lookup of a case failed, as the archive adapter classified
/// it.
#[derive(Debug)]
pub struct ArkivSakTilstandError {
    pub irrecoverable: bool,
    pub message: String,
    pub error_code: StatusErrorCode,
}

/// A case in the archive: a closed case is rejected as a conflict, an open
/// one is valid; a failed lookup keeps the adapter's message and code and is
/// retried or rejected as the adapter classified it.
pub fn validate_sak_fra_arkivet(oppslag: Result<bool, ArkivSakTilstandError>) -> (r:
    ValidationOutcome)
    ensures
        match oppslag {
            Ok(avsluttet) => if avsluttet {
                rejects(r, "Sak er avsluttet"@, StatusErrorCode::Conflict)
            } else {
                r is Valid
            },
            Err(e) => if e.irrecoverable {
                rejects(r, e.message@, e.error_code)
            } else {
                r matches ValidationOutcome::Recoverable { message, error_code } && message@
                    == e.message@ && error_code == e.error_code
            },
        },
{
    match oppslag {
        Ok(avsluttet) => if avsluttet {
            ValidationOutcome::Irrecoverable {
                message: "Sak er avsluttet".to_owned(),
                error_code: StatusErrorCode::Conflict,
            }
        } else {
            ValidationOutcome::Valid
        },
        Err(err) => if err.irrecoverable {
            ValidationOutcome::Irrecoverable { message: err.message, error_code: err.error_code }
        } else {
            ValidationOutcome::Recoverable { message: err.message, error_code: err.error_code }
        },
    }
}

/// What the validator does once a command's outcome is known.
#[derive(Debug)]
pub enum Valideringshandling {
    /// Forward the command and announce `Validert`.
    DispatchOgMeldValidert { melding: String },
    /// Announce `Avvist` with the reason; the command is not forwarded.
    MeldAvvist { melding: String, error_code: StatusErrorCode },
    /// Nothing: the message is delivered again and validated anew.
    Ingen,
}

/// A valid command is forwarded and announced; a rejected one is announced
/// with its actual reason; a blocked or recoverable one is left for
/// redelivery without any status message.
pub fn etter_validering(outcome: &ValidationOutcome) -> (r: Valideringshandling)
    ensures
        match outcome {
            ValidationOutcome::Valid => r matches Valideringshandling::DispatchOgMeldValidert {
                melding,
            } && melding@ == "Forespørselen er validert."@,
            ValidationOutcome::Irrecoverable { message, error_code } => r matches Valideringshandling::MeldAvvist {
                melding,
                error_code: c,
            } && melding@ == message@ && c == error_code,
            _ => r is Ingen,
        },
{
    match outcome {
        ValidationOutcome::Valid => Valideringshandling::DispatchOgMeldValidert {
            melding: "Forespørselen er validert.".to_owned(),
        },
        ValidationOutcome::Irrecoverable { message, error_code } => Valideringshandling::MeldAvvist {
            melding: message.clone(),
            error_code: *error_code,
        },
        _ => Valideringshandling::Ingen,
    }
}

/// The case title rule: whether it passes, else the rejection's message.
pub open spec fn validate_sakstittel_markup_spec(tittel: MarkupSjekk) -> (bool, Seq<char>) {
    match tittel {
        MarkupSjekk::Gyldig => (true, Seq::empty()),
        MarkupSjekk::SkjermingKrevesMenMangler => (
            false,
            "Sakstittel har skjermings-markup uten skjerming"@,
        ),
        MarkupSjekk::UbalansertKlamme => (false, "Sakstittel har ubalansert skjermings-markup"@),
    }
}

/// The local rules of a journal entry: whether they pass, else the
/// rejection's message.
pub open spec fn journalpost_lokalt_spec(tittel: MarkupSjekk, navn_markup_frie: bool) -> (bool, Seq<char>) {
    match tittel {
        MarkupSjekk::SkjermingKrevesMenMangler => (
            false,
            "Journalposttittel har skjermings-markup uten skjerming"@,
        ),
        MarkupSjekk::UbalansertKlamme => (
            false,
            "Journalposttittel har ubalansert skjermings-markup"@,
        ),
        MarkupSjekk::Gyldig => if navn_markup_frie {
            (true, Seq::empty())
        } else {
            (false, "Korrespondansepart-navn skal ikke inneholde markup"@)
        },
    }
}

/// The case key of a journal entry command.
pub open spec fn journalpost_sak_key(command: Command) -> Option<SakKeyView> {
    match command {
        Command::OpprettInngaaendeJournalpost(c) => Some(c.common().sak_key@),
        Command::OpprettUtgaaendeJournalpost(c) => Some(c.common().sak_key@),
        Command::OpprettInterntNotatJournalpost(c) => Some(c.common().sak_key@),
        _ => None,
    }
}

/// How validating a command starts: decided by its local rules, or on to
/// checking the case it refers to.
#[derive(Debug)]
pub enum Valideringsstart {
    Ferdig(ValidationOutcome),
    SjekkSak(SakKey),
}

/// The validator: it holds the archive case lookup, the entity registry, the
/// dispatcher for validated commands and the status publisher.
pub struct ValidateCommandService<R, E, D, S> {
    pub state_repo: R,
    pub entitet: E,
    pub dispatcher: D,
    pub status_publisher: S,
}

impl<R, E, D, S> ValidateCommandService<R, E, D, S> {
    pub fn new(state_repo: R, entitet: E, dispatcher: D, status_publisher: S) -> (r: Self)
        ensures
            r.state_repo == state_repo,
            r.entitet == entitet,
            r.dispatcher == dispatcher,
            r.status_publisher == status_publisher,
    {
        ValidateCommandService { state_repo, entitet, dispatcher, status_publisher }
    }

    /// A new case is decided by its title's markup; a journal entry command
    /// by its local screening rules and, when they pass, its case; closing a
    /// case and setting its owner by their case. `tittel` is the markup check
    /// of the command's title and `navn_markup_frie` whether its
    /// correspondent names are free of markup; neither is read for a command
    /// without them.
    pub fn start(&self, command: &Command, tittel: MarkupSjekk, navn_markup_frie: bool) -> (r:
        Valideringsstart)
        ensures
            match command {
                Command::OpprettSak(_) => match validate_sakstittel_markup_spec(tittel) {
                    (true, _) => r matches Valideringsstart::Ferdig(o) && o is Valid,
                    (false, m) => r matches Valideringsstart::Ferdig(o) && rejects(
                        o,
                        m,
                        StatusErrorCode::InvalidRequest,
                    ),
                },
                Command::AvsluttSak(c) => r matches Valideringsstart::SjekkSak(k) && k@ == c.sak_key@,
                Command::SettSaksansvarlig(c) => r matches Valideringsstart::SjekkSak(k) && k@
                    == c.sak_key@,
                _ => match journalpost_lokalt_spec(tittel, navn_markup_frie) {
                    (true, _) => r matches Valideringsstart::SjekkSak(k) && Some(k@) == journalpost_sak_key(
                        *command,
                    ),
                    (false, m) => r matches Valideringsstart::Ferdig(o) && rejects(
                        o,
                        m,
                        StatusErrorCode::InvalidRequest,
                    ),
                },
            },
    {
        match command {
            Command::OpprettSak(_) => Valideringsstart::Ferdig(validate_sakstittel_markup(tittel)),
            Command::AvsluttSak(c) => Valideringsstart::SjekkSak(c.sak_key.copy()),
            Command::SettSaksansvarlig(c) => Valideringsstart::SjekkSak(c.sak_key.copy()),
            Command::OpprettInngaaendeJournalpost(c)
            | Command::OpprettUtgaaendeJournalpost(c)
            | Command::OpprettInterntNotatJournalpost(c) => {
                let lokalt = validate_journalpost_lokalt(tittel, navn_markup_frie);
                match lokalt {
                    ValidationOutcome::Valid => Valideringsstart::SjekkSak(c.felles().sak_key.copy()),
                    _ => Valideringsstart::Ferdig(lokalt),
                }
            },
        }
    }

    /// The case key a command's reference check starts from, when it has one:
    /// journal entry commands, closing a case and setting its owner.
    pub fn sak_ref(&self, command: &Command) -> (r: Option<SakKey>)
        ensures
            match command {
                Command::OpprettSak(_) => r is None,
                Command::OpprettInngaaendeJournalpost(c) => r matches Some(k) && k@
                    == c.common().sak_key@,
                Command::OpprettUtgaaendeJournalpost(c) => r matches Some(k) && k@
                    == c.common().sak_key@,
                Command::OpprettInterntNotatJournalpost(c) => r matches Some(k) && k@
                    == c.common().sak_key@,
                Command::AvsluttSak(c) => r matches Some(k) && k@ == c.sak_key@,
                Command::SettSaksansvarlig(c) => r matches Some(k) && k@ == c.sak_key@,
            },
    {
        match command {
            Command::OpprettSak(_) => None,
            Command::OpprettInngaaendeJournalpost(c) => Some(c.felles().sak_key.copy()),
            Command::OpprettUtgaaendeJournalpost(c) => Some(c.felles().sak_key.copy()),
            Command::OpprettInterntNotatJournalpost(c) => Some(c.felles().sak_key.copy()),
            Command::AvsluttSak(c) => Some(c.sak_key.copy()),
            Command::SettSaksansvarlig(c) => Some(c.sak_key.copy()),
        }
    }
}

} // verus!
