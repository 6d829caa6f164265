//! Receiving commands: which entities a command brings into the identity
//! model before it is validated, and the message that says it was received.
use vstd::prelude::*;

use crate::command::{
    command_type, context_of, journalpost_of, kontekst, sak_key_of, type_of, Command, CommandEnvelope,
    Dokument, SakKey, SakKeyView,
};
use crate::decomposition::EntitetType;
use crate::ids::{new_v7, nibble};
use crate::operasjon::{CommandEvent, CommandStatus};

verus! {

/// An entity to register, with its new id.
#[derive(Debug)]
pub struct NyEntitet {
    pub skuffen_id: u128,
    pub entitet_type: EntitetType,
    pub client_reference: Option<u128>,
    pub arkiv_id: Option<String>,
}

/// What receiving a command registers: a case number to bring in (an
/// archive id is an outside fact and may be created), then the entities the
/// command creates, each by its kind and the client's reference.
#[derive(Debug)]
pub struct Registreringsplan {
    pub arkiv_id: Option<String>,
    pub nye: Vec<(EntitetType, u128)>,
}

pub open spec fn arkiv_id_av(sak_key: SakKeyView) -> Option<Seq<char>> {
    match sak_key {
        SakKeyView::ArkivId(s) => Some(s),
        SakKeyView::ClientReference(_) => None,
    }
}

/// A command that works on an existing case brings in its case number when
/// it names the case so; a client's reference is never minted here, since
/// only a command that creates the case can bring one.
pub open spec fn koblet_arkiv_id(command: Command) -> Option<Seq<char>> {
    match command {
        Command::OpprettSak(_) => None,
        Command::AvsluttSak(c) => arkiv_id_av(c.sak_key@),
        Command::SettSaksansvarlig(c) => arkiv_id_av(c.sak_key@),
        Command::OpprettInngaaendeJournalpost(c) => arkiv_id_av(c.common().sak_key@),
        Command::OpprettUtgaaendeJournalpost(c) => arkiv_id_av(c.common().sak_key@),
        Command::OpprettInterntNotatJournalpost(c) => arkiv_id_av(c.common().sak_key@),
    }
}

pub open spec fn dokument_entiteter(ds: Seq<Dokument>) -> Seq<(EntitetType, u128)> {
    ds.map_values(|d: Dokument| (EntitetType::Dokument, d.client_reference))
}

/// The entities a command creates: a case, or a journal entry and its
/// documents in payload order; closing a case or setting its owner creates
/// nothing.
pub open spec fn nye_av(command: Command) -> Seq<(EntitetType, u128)> {
    match journalpost_of(&command) {
        Some(c) => seq![(EntitetType::Journalpost, c.common().client_reference)]
            + dokument_entiteter(c.common().dokumenter@),
        None => match command {
            Command::OpprettSak(c) => seq![(EntitetType::Sak, c.client_reference)],
            _ => Seq::empty(),
        },
    }
}

fn arkiv_id_for(sak_key: &SakKey) -> (r: Option<String>)
    ensures
        match r {
            Some(s) => arkiv_id_av(sak_key@) == Some(s@),
            None => arkiv_id_av(sak_key@) is None,
        },
{
    match sak_key {
        SakKey::ArkivId(s) => Some(s.clone()),
        SakKey::ClientReference(_) => None,
    }
}

fn dokument_entiteter_exec(ds: &Vec<Dokument>, out: &mut Vec<(EntitetType, u128)>)
    ensures
        final(out)@ == old(out)@ + dokument_entiteter(ds@),
{
    let ghost start = out@;
    let mut i: usize = 0;
    while i < ds.len()
        invariant
            i <= ds.len(),
            out@ == start + dokument_entiteter(ds@.take(i as int)),
        decreases ds.len() - i,
    {
        out.push((EntitetType::Dokument, ds[i].client_reference));
        assert(dokument_entiteter(ds@.take(i + 1)) =~= dokument_entiteter(ds@.take(i as int)).push(
            (EntitetType::Dokument, ds@[i as int].client_reference),
        ));
        i = i + 1;
    }
    assert(ds@.take(ds.len() as int) =~= ds@);
}

pub fn registreringsplan(command: &Command) -> (r: Registreringsplan)
    ensures
        match r.arkiv_id {
            Some(s) => koblet_arkiv_id(*command) == Some(s@),
            None => koblet_arkiv_id(*command) is None,
        },
        r.nye@ == nye_av(*command),
{
    match command {
        Command::OpprettSak(c) => {
            let mut nye: Vec<(EntitetType, u128)> = Vec::new();
            nye.push((EntitetType::Sak, c.client_reference));
            assert(nye@ =~= nye_av(*command));
            Registreringsplan { arkiv_id: None, nye }
        },
        Command::AvsluttSak(c) => {
            let nye: Vec<(EntitetType, u128)> = Vec::new();
            assert(nye@ =~= nye_av(*command));
            Registreringsplan { arkiv_id: arkiv_id_for(&c.sak_key), nye }
        },
        Command::SettSaksansvarlig(c) => {
            let nye: Vec<(EntitetType, u128)> = Vec::new();
            assert(nye@ =~= nye_av(*command));
            Registreringsplan { arkiv_id: arkiv_id_for(&c.sak_key), nye }
        },
        Command::OpprettInngaaendeJournalpost(c)
        | Command::OpprettUtgaaendeJournalpost(c)
        | Command::OpprettInterntNotatJournalpost(c) => {
            let felles = c.felles();
            let mut nye: Vec<(EntitetType, u128)> = Vec::new();
            nye.push((EntitetType::Journalpost, felles.client_reference));
            dokument_entiteter_exec(&felles.dokumenter, &mut nye);
            assert(nye@ =~= nye_av(*command));
            Registreringsplan { arkiv_id: arkiv_id_for(&felles.sak_key), nye }
        },
    }
}

/// An entity the command creates, under a new time-ordered id.
pub fn ny_entitet(entitet_type: EntitetType, client_reference: u128) -> (r: NyEntitet)
    ensures
        r.entitet_type == entitet_type,
        r.client_reference == Some(client_reference),
        r.arkiv_id is None,
        nibble(r.skuffen_id, 12) == 7,
{
    NyEntitet {
        skuffen_id: new_v7(),
        entitet_type,
        client_reference: Some(client_reference),
        arkiv_id: None,
    }
}

/// The message that a command was received, with its references.
pub fn mottatt_status(envelope: &CommandEnvelope<Command>) -> (r: CommandStatus)
    ensures
        r.command_id == envelope.command_id,
        r.correlation_id == envelope.correlation_id,
        r.command_type == type_of(&envelope.payload),
        r.hendelse == CommandEvent::Mottatt,
        r.melding@ == "Forespørselen er mottatt."@,
        r.error_code is None,
        r.kontekst@ == context_of(&envelope.payload),
{
    CommandStatus::new(
        envelope.command_id,
        envelope.correlation_id,
        command_type(&envelope.payload),
        CommandEvent::Mottatt,
        "Forespørselen er mottatt.",
        None,
        kontekst(&envelope.payload),
    )
}

/// The message that a decomposed command is being carried out, sent the
/// first time it is decomposed.
pub fn utfores_status(envelope: &CommandEnvelope<Command>) -> (r: CommandStatus)
    ensures
        r.command_id == envelope.command_id,
        r.correlation_id == envelope.correlation_id,
        r.command_type == type_of(&envelope.payload),
        r.hendelse == CommandEvent::Utfores,
        r.melding@ == "Forespørselen utføres."@,
        r.error_code is None,
        r.kontekst@ == context_of(&envelope.payload),
{
    CommandStatus::new(
        envelope.command_id,
        envelope.correlation_id,
        command_type(&envelope.payload),
        CommandEvent::Utfores,
        "Forespørselen utføres.",
        None,
        kontekst(&envelope.payload),
    )
}

// ---------------------------------------------------------------------------
// Laws
// ---------------------------------------------------------------------------

/// Only a command that creates a case mints an id for a case, and never
/// brings in a case number; closing a case or setting its owner mints
/// nothing, so validation can still tell an unknown case from one of ours.
pub proof fn law_only_case_creation_mints_a_case(command: Command)
    ensures
        forall|i: int|
            0 <= i < nye_av(command).len() && (#[trigger] nye_av(command)[i]).0 == EntitetType::Sak
                ==> command is OpprettSak,
        (command is AvsluttSak || command is SettSaksansvarlig) ==> nye_av(command).len() == 0,
        command is OpprettSak ==> koblet_arkiv_id(command) is None,
{
    assert forall|i: int|
        0 <= i < nye_av(command).len() && (#[trigger] nye_av(command)[i]).0 == EntitetType::Sak
            implies command is OpprettSak by {
        if let Some(c) = journalpost_of(&command) {
            let ds = dokument_entiteter(c.common().dokumenter@);
            if i > 0 {
                assert(nye_av(command)[i] == ds[i - 1]);
            }
        }
    }
}

/// Receiving a command links the case number it names: every command other
/// than creating a case whose case key is an archive id brings exactly that
/// case number in (closing a case and setting its owner as much as the journal
/// entry commands), and a command that names its case by the client's
/// reference brings none.
pub proof fn law_named_case_numbers_are_linked(command: Command, s: Seq<char>)
    ensures
        !(command is OpprettSak) && sak_key_of(&command) == SakKeyView::ArkivId(s) ==> koblet_arkiv_id(
            command,
        ) == Some(s),
        sak_key_of(&command) is ClientReference ==> koblet_arkiv_id(command) is None,
        command is OpprettSak ==> koblet_arkiv_id(command) is None,
{
}

} // verus!
