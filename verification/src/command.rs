//! The commands that clients send, as the application reads them.
//!
//! Identifiers are UUIDs carried as `u128`. Only the fields that the
//! application's rules read are held.
use vstd::prelude::*;

use crate::ids::{hyphenated, uuid_text};

verus! {

/// How a command names its case: by the client's reference or by the
/// archive's case number.
#[derive(Debug)]
pub enum SakKey {
    ClientReference(u128),
    ArkivId(String),
}

/// The abstract value of a `SakKey`.
pub enum SakKeyView {
    ClientReference(u128),
    ArkivId(Seq<char>),
}

impl View for SakKey {
    type V = SakKeyView;

    open spec fn view(&self) -> SakKeyView {
        match self {
            SakKey::ClientReference(u) => SakKeyView::ClientReference(*u),
            SakKey::ArkivId(s) => SakKeyView::ArkivId(s@),
        }
    }
}

impl SakKey {
    pub fn copy(&self) -> (r: SakKey)
        ensures
            r@ == self@,
    {
        match self {
            SakKey::ClientReference(u) => SakKey::ClientReference(*u),
            SakKey::ArkivId(s) => SakKey::ArkivId(s.clone()),
        }
    }
}

/// Whether an entity is public or screened, with the screening code and its
/// legal basis.
#[derive(Debug)]
pub enum Tilgjengelighet {
    Offentlig,
    Skjermet { tilgangskode: String, tilgangshjemmel: String },
}

/// The access attributes that are stored for an entity.
#[derive(Debug)]
pub struct Tilgang {
    pub tilgangskode: Option<String>,
    pub tilgangshjemmel: Option<String>,
}

/// How a document's content is supplied.
#[derive(Debug)]
pub enum Dokumentform {
    Bytes { dokument_referanse: u128, filtype: String },
    HtmlTemplate { mal_referanse: u128, felter: Vec<String> },
}

/// A document of a journal entry command.
#[derive(Debug)]
pub struct Dokument {
    pub client_reference: u128,
    pub tittel: String,
    pub form: Dokumentform,
}

/// A sender or receiver of a journal entry.
#[derive(Debug)]
pub struct Korrespondansepart {
    pub navn: String,
}

impl Korrespondansepart {
    pub fn copy(&self) -> (r: Korrespondansepart)
        ensures
            r.navn@ == self.navn@,
    {
        Korrespondansepart { navn: self.navn.clone() }
    }
}

/// The fields that every journal entry command has.
#[derive(Debug)]
pub struct JournalpostCommon {
    pub client_reference: u128,
    pub tittel: String,
    pub dokument_dato: String,
    pub saksbehandler: String,
    pub saksbehandler_enhet: String,
    pub tilgjengelighet: Tilgjengelighet,
    pub dokumenter: Vec<Dokument>,
    pub sak_key: SakKey,
    pub kildesystem: Option<String>,
}

/// A command that creates a journal entry, by kind.
#[derive(Debug)]
pub enum OpprettJournalpostCommand {
    Inngaende { felles: JournalpostCommon, avsender: Korrespondansepart },
    Utgaaende { felles: JournalpostCommon, mottakere: Vec<Korrespondansepart> },
    UtgaaendeMedUtsending { felles: JournalpostCommon, mottakere: Vec<Korrespondansepart> },
    InterntNotat { felles: JournalpostCommon },
}

impl OpprettJournalpostCommand {
    pub open spec fn common(&self) -> &JournalpostCommon {
        match self {
            OpprettJournalpostCommand::Inngaende { felles, .. } => felles,
            OpprettJournalpostCommand::Utgaaende { felles, .. } => felles,
            OpprettJournalpostCommand::UtgaaendeMedUtsending { felles, .. } => felles,
            OpprettJournalpostCommand::InterntNotat { felles } => felles,
        }
    }

    pub fn felles(&self) -> (r: &JournalpostCommon)
        ensures
            r == self.common(),
    {
        match self {
            OpprettJournalpostCommand::Inngaende { felles, .. } => felles,
            OpprettJournalpostCommand::Utgaaende { felles, .. } => felles,
            OpprettJournalpostCommand::UtgaaendeMedUtsending { felles, .. } => felles,
            OpprettJournalpostCommand::InterntNotat { felles } => felles,
        }
    }

    /// The entry is to be dispatched to its receivers.
    pub fn med_utsending(&self) -> (r: bool)
        ensures
            r == (self is UtgaaendeMedUtsending),
    {
        match self {
            OpprettJournalpostCommand::UtgaaendeMedUtsending { .. } => true,
            _ => false,
        }
    }
}

#[derive(Debug)]
pub struct OpprettSakCommand {
    pub client_reference: u128,
    pub sakstittel: String,
    pub arkivdel: String,
    pub saksbehandler_id: String,
    pub saksbehandler_enhet: String,
    pub ordningsverdi: String,
    pub tilgjengelighet: Tilgjengelighet,
}

#[derive(Debug)]
pub struct AvsluttSakCommand {
    pub sak_key: SakKey,
}

#[derive(Debug)]
pub struct SettSaksansvarligCommand {
    pub sak_key: SakKey,
    pub saksbehandler_id: String,
    pub saksbehandler_enhet: String,
}

/// A client command.
#[derive(Debug)]
pub enum Command {
    OpprettSak(OpprettSakCommand),
    OpprettInngaaendeJournalpost(OpprettJournalpostCommand),
    OpprettUtgaaendeJournalpost(OpprettJournalpostCommand),
    OpprettInterntNotatJournalpost(OpprettJournalpostCommand),
    AvsluttSak(AvsluttSakCommand),
    SettSaksansvarlig(SettSaksansvarligCommand),
}

/// A command with its identity.
#[derive(Debug)]
pub struct CommandEnvelope<C> {
    pub command_id: u128,
    pub correlation_id: Option<u128>,
    pub payload: C,
}

/// Turns an envelope into the form the validator reads.
pub trait IntoCommandEnvelope {
    fn into_command_envelope(self) -> CommandEnvelope<Command>;
}

impl IntoCommandEnvelope for CommandEnvelope<Command> {
    fn into_command_envelope(self) -> (r: CommandEnvelope<Command>)
        ensures
            r == self,
    {
        self
    }
}

/// Turns an envelope into the form the executor reads.
pub trait IntoExecutorEnvelope {
    fn into_executor_envelope(self) -> CommandEnvelope<Command>;
}

impl IntoExecutorEnvelope for CommandEnvelope<Command> {
    fn into_executor_envelope(self) -> (r: CommandEnvelope<Command>)
        ensures
            r == self,
    {
        self
    }
}

/// The stable code of a command's type.
#[derive(PartialEq, Eq, Structural, Clone, Copy, Debug)]
pub enum CommandTypeCode {
    OpprettSak,
    OpprettInngaaendeJournalpost,
    OpprettUtgaaendeJournalpost,
    OpprettInterntNotatJournalpost,
    AvsluttSak,
    SettSaksansvarlig,
}

pub open spec fn type_of(command: &Command) -> CommandTypeCode {
    match command {
        Command::OpprettSak(_) => CommandTypeCode::OpprettSak,
        Command::OpprettInngaaendeJournalpost(_) => CommandTypeCode::OpprettInngaaendeJournalpost,
        Command::OpprettUtgaaendeJournalpost(_) => CommandTypeCode::OpprettUtgaaendeJournalpost,
        Command::OpprettInterntNotatJournalpost(_) => {
            CommandTypeCode::OpprettInterntNotatJournalpost
        },
        Command::AvsluttSak(_) => CommandTypeCode::AvsluttSak,
        Command::SettSaksansvarlig(_) => CommandTypeCode::SettSaksansvarlig,
    }
}

pub fn command_type(command: &Command) -> (r: CommandTypeCode)
    ensures
        r == type_of(command),
{
    match command {
        Command::OpprettSak(_) => CommandTypeCode::OpprettSak,
        Command::OpprettInngaaendeJournalpost(_) => CommandTypeCode::OpprettInngaaendeJournalpost,
        Command::OpprettUtgaaendeJournalpost(_) => CommandTypeCode::OpprettUtgaaendeJournalpost,
        Command::OpprettInterntNotatJournalpost(_) => {
            CommandTypeCode::OpprettInterntNotatJournalpost
        },
        Command::AvsluttSak(_) => CommandTypeCode::AvsluttSak,
        Command::SettSaksansvarlig(_) => CommandTypeCode::SettSaksansvarlig,
    }
}

/// The journal entry part of a journal entry command.
pub open spec fn journalpost_of(command: &Command) -> Option<&OpprettJournalpostCommand> {
    match command {
        Command::OpprettInngaaendeJournalpost(c) => Some(c),
        Command::OpprettUtgaaendeJournalpost(c) => Some(c),
        Command::OpprettInterntNotatJournalpost(c) => Some(c),
        _ => None,
    }
}

/// The key of the case a command acts on.
pub open spec fn sak_key_of(command: &Command) -> SakKeyView {
    match command {
        Command::OpprettSak(c) => SakKeyView::ClientReference(c.client_reference),
        Command::OpprettInngaaendeJournalpost(c) => c.common().sak_key@,
        Command::OpprettUtgaaendeJournalpost(c) => c.common().sak_key@,
        Command::OpprettInterntNotatJournalpost(c) => c.common().sak_key@,
        Command::AvsluttSak(c) => c.sak_key@,
        Command::SettSaksansvarlig(c) => c.sak_key@,
    }
}

pub fn extract_sak_key(envelope: &CommandEnvelope<Command>) -> (r: SakKey)
    ensures
        r@ == sak_key_of(&envelope.payload),
{
    match &envelope.payload {
        Command::OpprettSak(cmd) => SakKey::ClientReference(cmd.client_reference),
        Command::OpprettInngaaendeJournalpost(cmd) => cmd.felles().sak_key.copy(),
        Command::OpprettUtgaaendeJournalpost(cmd) => cmd.felles().sak_key.copy(),
        Command::OpprettInterntNotatJournalpost(cmd) => cmd.felles().sak_key.copy(),
        Command::AvsluttSak(cmd) => cmd.sak_key.copy(),
        Command::SettSaksansvarlig(cmd) => cmd.sak_key.copy(),
    }
}

/// The client reference of the case that an `OpprettSak` command creates.
pub fn extract_sak_client_reference(envelope: &CommandEnvelope<Command>) -> (r: Option<u128>)
    ensures
        r == match envelope.payload {
            Command::OpprettSak(c) => Some(c.client_reference),
            _ => None,
        },
{
    match &envelope.payload {
        Command::OpprettSak(cmd) => Some(cmd.client_reference),
        _ => None,
    }
}

/// The client reference of the journal entry that a command creates.
pub fn extract_journalpost_client_reference(envelope: &CommandEnvelope<Command>) -> (r: Option<
    u128,
>)
    ensures
        r == match journalpost_of(&envelope.payload) {
            Some(c) => Some(c.common().client_reference),
            None => None,
        },
{
    match &envelope.payload {
        Command::OpprettInngaaendeJournalpost(cmd) => Some(cmd.felles().client_reference),
        Command::OpprettUtgaaendeJournalpost(cmd) => Some(cmd.felles().client_reference),
        Command::OpprettInterntNotatJournalpost(cmd) => Some(cmd.felles().client_reference),
        _ => None,
    }
}

/// The client references of a document list, in order.
pub open spec fn dokument_references(ds: Seq<Dokument>) -> Seq<u128> {
    ds.map_values(|d: Dokument| d.client_reference)
}

fn references_of(ds: &Vec<Dokument>) -> (r: Vec<u128>)
    ensures
        r@ == dokument_references(ds@),
{
    let mut out: Vec<u128> = Vec::new();
    let mut i: usize = 0;
    while i < ds.len()
        invariant
            i <= ds.len(),
            out@ == dokument_references(ds@.take(i as int)),
        decreases ds.len() - i,
    {
        out.push(ds[i].client_reference);
        i = i + 1;
        assert(out@ =~= dokument_references(ds@.take(i as int)));
    }
    assert(ds@.take(ds.len() as int) == ds@);
    out
}

/// The client references of the documents that a command creates, in order.
pub fn extract_dokument_client_references(envelope: &CommandEnvelope<Command>) -> (r: Vec<u128>)
    ensures
        r@ == match journalpost_of(&envelope.payload) {
            Some(c) => dokument_references(c.common().dokumenter@),
            None => Seq::empty(),
        },
{
    match &envelope.payload {
        Command::OpprettInngaaendeJournalpost(cmd) => references_of(&cmd.felles().dokumenter),
        Command::OpprettUtgaaendeJournalpost(cmd) => references_of(&cmd.felles().dokumenter),
        Command::OpprettInterntNotatJournalpost(cmd) => references_of(&cmd.felles().dokumenter),
        _ => Vec::new(),
    }
}

/// The entity is screened.
pub fn er_skjermet(tilgjengelighet: &Tilgjengelighet) -> (r: bool)
    ensures
        r == (tilgjengelighet is Skjermet),
{
    match tilgjengelighet {
        Tilgjengelighet::Skjermet { .. } => true,
        Tilgjengelighet::Offentlig => false,
    }
}

/// The stored access attributes: none for a public entity, the screening
/// code and its basis for a screened one.
pub open spec fn tilgang_av(r: Tilgang, tilgjengelighet: Tilgjengelighet) -> bool {
    match tilgjengelighet {
        Tilgjengelighet::Offentlig => r.tilgangskode is None && r.tilgangshjemmel is None,
        Tilgjengelighet::Skjermet { tilgangskode, tilgangshjemmel } => {
            &&& r.tilgangskode matches Some(k) && k@ == tilgangskode@
            &&& r.tilgangshjemmel matches Some(h) && h@ == tilgangshjemmel@
        },
    }
}

pub fn tilgang(tilgjengelighet: &Tilgjengelighet) -> (r: Tilgang)
    ensures
        tilgang_av(r, *tilgjengelighet),
{
    match tilgjengelighet {
        Tilgjengelighet::Offentlig => Tilgang { tilgangskode: None, tilgangshjemmel: None },
        Tilgjengelighet::Skjermet { tilgangskode, tilgangshjemmel } => Tilgang {
            tilgangskode: Some(tilgangskode.clone()),
            tilgangshjemmel: Some(tilgangshjemmel.clone()),
        },
    }
}

/// The correspondents that are stored with a journal entry.
#[derive(Debug)]
pub enum Korrespondanseparter {
    Avsender(Korrespondansepart),
    Mottakere(Vec<Korrespondansepart>),
    Utsendingsmottakere(Vec<Korrespondansepart>),
    Ingen,
}

pub open spec fn names(ps: Seq<Korrespondansepart>) -> Seq<Seq<char>> {
    ps.map_values(|p: Korrespondansepart| p.navn@)
}

fn copy_parts(ps: &Vec<Korrespondansepart>) -> (r: Vec<Korrespondansepart>)
    ensures
        names(r@) == names(ps@),
{
    let mut out: Vec<Korrespondansepart> = Vec::new();
    let mut i: usize = 0;
    while i < ps.len()
        invariant
            i <= ps.len(),
            names(out@) == names(ps@.take(i as int)),
        decreases ps.len() - i,
    {
        let ghost before = out@;
        assert(names(before).len() == before.len());
        assert(names(ps@.take(i as int)).len() == i);
        let part = ps[i].copy();
        out.push(part);
        assert(out@ == before.push(part));
        assert forall|j: int| 0 <= j <= i implies #[trigger] names(out@)[j] == names(
            ps@.take(i + 1),
        )[j] by {
            if j < i {
                assert(out@[j] == before[j]);
                assert(names(before)[j] == names(ps@.take(i as int))[j]);
            }
        }
        assert(names(out@) =~= names(ps@.take(i + 1)));
        i = i + 1;
    }
    assert(ps@.take(ps.len() as int) == ps@);
    out
}

/// The sender of an incoming entry, the receivers of an outgoing one, no one
/// for an internal note.
pub open spec fn parter_av(r: Korrespondanseparter, command: OpprettJournalpostCommand) -> bool {
    match command {
        OpprettJournalpostCommand::Inngaende { avsender, .. } => r matches Korrespondanseparter::Avsender(a)
            && a.navn@ == avsender.navn@,
        OpprettJournalpostCommand::Utgaaende { mottakere, .. } => r matches Korrespondanseparter::Mottakere(m)
            && names(m@) == names(mottakere@),
        OpprettJournalpostCommand::UtgaaendeMedUtsending { mottakere, .. } => r matches Korrespondanseparter::Utsendingsmottakere(m)
            && names(m@) == names(mottakere@),
        OpprettJournalpostCommand::InterntNotat { .. } => r is Ingen,
    }
}

pub fn korrespondanseparter(command: &OpprettJournalpostCommand) -> (r: Korrespondanseparter)
    ensures
        parter_av(r, *command),
{
    match command {
        OpprettJournalpostCommand::Inngaende { avsender, .. } => {
            Korrespondanseparter::Avsender(avsender.copy())
        },
        OpprettJournalpostCommand::Utgaaende { mottakere, .. } => {
            Korrespondanseparter::Mottakere(copy_parts(mottakere))
        },
        OpprettJournalpostCommand::UtgaaendeMedUtsending { mottakere, .. } => {
            Korrespondanseparter::Utsendingsmottakere(copy_parts(mottakere))
        },
        OpprettJournalpostCommand::InterntNotat { .. } => Korrespondanseparter::Ingen,
    }
}

// ---------------------------------------------------------------------------
// Status context
// ---------------------------------------------------------------------------

/// The references that accompany a command's status messages.
#[derive(Debug)]
pub struct Statuskontekst {
    pub sak_client_reference: Option<String>,
    pub saksnummer: Option<String>,
    pub journalpost_client_reference: Option<String>,
    pub dokument_client_references: Vec<String>,
}

/// The abstract value of a status context.
pub struct StatuskontekstView {
    pub sak_client_reference: Option<Seq<char>>,
    pub saksnummer: Option<Seq<char>>,
    pub journalpost_client_reference: Option<Seq<char>>,
    pub dokument_client_references: Seq<Seq<char>>,
}

pub open spec fn opt_view(o: Option<String>) -> Option<Seq<char>> {
    match o {
        Some(s) => Some(s@),
        None => None,
    }
}

pub open spec fn string_views(v: Seq<String>) -> Seq<Seq<char>> {
    v.map_values(|s: String| s@)
}

pub proof fn lemma_string_views_push(v: Seq<String>, s: String)
    ensures
        string_views(v.push(s)) == string_views(v).push(s@),
{
    assert(string_views(v.push(s)) =~= string_views(v).push(s@));
}

pub proof fn lemma_names_push(v: Seq<Korrespondansepart>, p: Korrespondansepart)
    ensures
        names(v.push(p)) == names(v).push(p.navn@),
{
    assert(names(v.push(p)) =~= names(v).push(p.navn@));
}

impl View for Statuskontekst {
    type V = StatuskontekstView;

    open spec fn view(&self) -> StatuskontekstView {
        StatuskontekstView {
            sak_client_reference: opt_view(self.sak_client_reference),
            saksnummer: opt_view(self.saksnummer),
            journalpost_client_reference: opt_view(self.journalpost_client_reference),
            dokument_client_references: string_views(self.dokument_client_references@),
        }
    }
}

/// A copy of a list of strings.
pub fn copy_strings(v: &Vec<String>) -> (r: Vec<String>)
    ensures
        string_views(r@) == string_views(v@),
{
    let mut out: Vec<String> = Vec::new();
    let mut i: usize = 0;
    while i < v.len()
        invariant
            i <= v.len(),
            string_views(out@) == string_views(v@.take(i as int)),
        decreases v.len() - i,
    {
        let ghost before = out@;
        assert(string_views(before).len() == before.len());
        let s = v[i].clone();
        out.push(s);
        assert(out@ == before.push(s));
        proof {
            lemma_string_views_push(before, s);
            lemma_string_views_push(v@.take(i as int), v@[i as int]);
            assert(v@.take(i + 1) == v@.take(i as int).push(v@[i as int]));
        }
        i = i + 1;
    }
    assert(v@.take(v.len() as int) == v@);
    out
}

impl Statuskontekst {
    /// A copy of the context.
    pub fn kopi(&self) -> (r: Statuskontekst)
        ensures
            r@ == self@,
    {
        Statuskontekst {
            sak_client_reference: self.sak_client_reference.clone(),
            saksnummer: self.saksnummer.clone(),
            journalpost_client_reference: self.journalpost_client_reference.clone(),
            dokument_client_references: copy_strings(&self.dokument_client_references),
        }
    }
}

/// The context for a case key: the client reference or the case number.
pub open spec fn key_context(k: SakKeyView) -> StatuskontekstView {
    match k {
        SakKeyView::ClientReference(u) => StatuskontekstView {
            sak_client_reference: Some(hyphenated(u)),
            saksnummer: None,
            journalpost_client_reference: None,
            dokument_client_references: Seq::empty(),
        },
        SakKeyView::ArkivId(s) => StatuskontekstView {
            sak_client_reference: None,
            saksnummer: Some(s),
            journalpost_client_reference: None,
            dokument_client_references: Seq::empty(),
        },
    }
}

/// The status context of a command: its case key, and for a journal entry
/// command the entry's and the documents' client references.
pub open spec fn context_of(command: &Command) -> StatuskontekstView {
    match journalpost_of(command) {
        Some(c) => {
            let base = key_context(c.common().sak_key@);
            StatuskontekstView {
                journalpost_client_reference: Some(hyphenated(c.common().client_reference)),
                dokument_client_references: dokument_references(c.common().dokumenter@).map_values(
                    |u: u128| hyphenated(u),
                ),
                ..base
            }
        },
        None => key_context(sak_key_of(command)),
    }
}

fn sak_key_kontekst(kontekst: &mut Statuskontekst, sak_key: &SakKey)
    ensures
        final(kontekst)@.sak_client_reference == match sak_key@ {
            SakKeyView::ClientReference(u) => Some(hyphenated(u)),
            SakKeyView::ArkivId(_) => old(kontekst)@.sak_client_reference,
        },
        final(kontekst)@.saksnummer == match sak_key@ {
            SakKeyView::ClientReference(_) => old(kontekst)@.saksnummer,
            SakKeyView::ArkivId(s) => Some(s),
        },
        final(kontekst)@.journalpost_client_reference == old(kontekst)@.journalpost_client_reference,
        final(kontekst)@.dokument_client_references == old(kontekst)@.dokument_client_references,
{
    match sak_key {
        SakKey::ClientReference(client_reference) => {
            kontekst.sak_client_reference = Some(uuid_text(*client_reference));
        },
        SakKey::ArkivId(arkiv_id) => {
            kontekst.saksnummer = Some(arkiv_id.clone());
        },
    }
}

fn uuid_texts(us: &Vec<u128>) -> (r: Vec<String>)
    ensures
        string_views(r@) == us@.map_values(|u: u128| hyphenated(u)),
{
    let mut out: Vec<String> = Vec::new();
    let mut i: usize = 0;
    while i < us.len()
        invariant
            i <= us.len(),
            string_views(out@) == us@.take(i as int).map_values(|u: u128| hyphenated(u)),
        decreases us.len() - i,
    {
        let ghost before = out@;
        assert(string_views(before).len() == before.len());
        let text = uuid_text(us[i]);
        out.push(text);
        assert(out@ == before.push(text));
        assert forall|j: int| 0 <= j <= i implies #[trigger] string_views(out@)[j] == us@.take(
            i + 1,
        ).map_values(|u: u128| hyphenated(u))[j] by {
            if j < i {
                assert(out@[j] == before[j]);
                assert(string_views(before)[j] == us@.take(i as int).map_values(
                    |u: u128| hyphenated(u),
                )[j]);
            }
        }
        assert(string_views(out@) =~= us@.take(i + 1).map_values(|u: u128| hyphenated(u)));
        i = i + 1;
    }
    assert(us@.take(us.len() as int) == us@);
    out
}

pub fn kontekst(command: &Command) -> (r: Statuskontekst)
    ensures
        r@ == context_of(command),
{
    let mut kontekst = Statuskontekst {
        sak_client_reference: None,
        saksnummer: None,
        journalpost_client_reference: None,
        dokument_client_references: Vec::new(),
    };
    assert(string_views(kontekst.dokument_client_references@) =~= Seq::empty());
    match command {
        Command::OpprettSak(inner) => {
            kontekst.sak_client_reference = Some(uuid_text(inner.client_reference));
        },
        Command::AvsluttSak(inner) => sak_key_kontekst(&mut kontekst, &inner.sak_key),
        Command::SettSaksansvarlig(inner) => sak_key_kontekst(&mut kontekst, &inner.sak_key),
        Command::OpprettInngaaendeJournalpost(inner)
        | Command::OpprettUtgaaendeJournalpost(inner)
        | Command::OpprettInterntNotatJournalpost(inner) => {
            let felles = inner.felles();
            sak_key_kontekst(&mut kontekst, &felles.sak_key);
            kontekst.journalpost_client_reference = Some(uuid_text(felles.client_reference));
            let refs = references_of(&felles.dokumenter);
            kontekst.dokument_client_references = uuid_texts(&refs);
        },
    }
    assert(kontekst@ =~= context_of(command));
    kontekst
}

} // verus!
