//! What an execution step reports: the archive references it learned, and
//! what blocked it.
use vstd::prelude::*;

use crate::command::{opt_view, string_views};
use crate::status::{CommandLifecycleContext, StatusErrorCode};

verus! {

/// A prerequisite that an execution step waits for.
#[derive(PartialEq, Eq, Structural, Clone, Copy, Debug)]
pub enum Prerequisite {
    SakOpprettet { sak_id: u128 },
    SaksnummerTildelt { sak_id: u128 },
    JournalpostOpprettet { journalpost_id: u128 },
    JournalpostnummerTildelt { journalpost_id: u128 },
    JournalpostJournalfoert { journalpost_id: u128 },
}

impl Prerequisite {
    /// Every prerequisite is reported as pending.
    pub fn as_error_code(&self) -> (r: StatusErrorCode)
        ensures
            r == StatusErrorCode::PrerequisitePending,
    {
        StatusErrorCode::PrerequisitePending
    }
}

/// What one execution step came to.
#[derive(Debug)]
pub enum StepOutcome {
    Completed,
    AlreadyCompleted,
    Blocked { prerequisite: Option<Prerequisite>, detail: String },
}

impl StepOutcome {
    pub fn blocked(prerequisite: Option<Prerequisite>, detail: String) -> (r: Self)
        ensures
            r matches StepOutcome::Blocked { prerequisite: p, detail: d } && p == prerequisite
                && d@ == detail@,
    {
        StepOutcome::Blocked { prerequisite, detail }
    }
}

/// Archive references learned while executing.
#[derive(Debug)]
pub struct ExecutionRefs {
    pub saksnummer: Option<String>,
    pub journalpost_id: Option<String>,
    pub dokument_ids: Vec<String>,
}

/// The references learned and, when the step was blocked, why.
#[derive(Debug)]
pub struct ExecutionReport {
    pub refs: ExecutionRefs,
    pub detail: Option<String>,
    pub blocked_by: Option<Prerequisite>,
}

/// `ids` followed by every element of `extra` that is not already among the
/// earlier ones, in order.
pub open spec fn merge_ids(ids: Seq<Seq<char>>, extra: Seq<Seq<char>>) -> Seq<Seq<char>>
    decreases extra.len(),
{
    if extra.len() == 0 {
        ids
    } else {
        let merged = merge_ids(ids, extra.drop_last());
        if merged.contains(extra.last()) {
            merged
        } else {
            merged.push(extra.last())
        }
    }
}

fn contains_string(v: &Vec<String>, s: &String) -> (r: bool)
    ensures
        r == string_views(v@).contains(s@),
{
    let mut i: usize = 0;
    while i < v.len()
        invariant
            i <= v.len(),
            forall|j: int| 0 <= j < i ==> string_views(v@)[j] != s@,
        decreases v.len() - i,
    {
        if v[i] == *s {
            assert(string_views(v@)[i as int] == s@);
            return true;
        }
        i = i + 1;
    }
    false
}

impl ExecutionReport {
    pub fn new() -> (r: Self)
        ensures
            r.refs.saksnummer is None,
            r.refs.journalpost_id is None,
            r.refs.dokument_ids@.len() == 0,
            r.detail is None,
            r.blocked_by is None,
    {
        ExecutionReport {
            refs: ExecutionRefs { saksnummer: None, journalpost_id: None, dokument_ids: Vec::new() },
            detail: None,
            blocked_by: None,
        }
    }

    /// A context holding only the learned references.
    pub fn into_context(self) -> (r: CommandLifecycleContext)
        ensures
            r.sak_client_reference is None,
            r.saksnummer == self.refs.saksnummer,
            r.journalpost_client_reference is None,
            r.journalpost_id == self.refs.journalpost_id,
            r.dokument_client_references@.len() == 0,
            r.dokument_ids == self.refs.dokument_ids,
    {
        CommandLifecycleContext {
            sak_client_reference: None,
            saksnummer: self.refs.saksnummer,
            journalpost_client_reference: None,
            journalpost_id: self.refs.journalpost_id,
            dokument_client_references: Vec::new(),
            dokument_ids: self.refs.dokument_ids,
        }
    }

    /// The given context with the learned references laid over it: a learned
    /// case number or entry id replaces the context's, and learned document
    /// ids are added where missing.
    pub fn merge_context_over(self, context: CommandLifecycleContext) -> (r: CommandLifecycleContext)
        ensures
            opt_view(r.saksnummer) == if self.refs.saksnummer is Some {
                opt_view(self.refs.saksnummer)
            } else {
                opt_view(context.saksnummer)
            },
            opt_view(r.journalpost_id) == if self.refs.journalpost_id is Some {
                opt_view(self.refs.journalpost_id)
            } else {
                opt_view(context.journalpost_id)
            },
            string_views(r.dokument_ids@) == merge_ids(
                string_views(context.dokument_ids@),
                string_views(self.refs.dokument_ids@),
            ),
            r.sak_client_reference == context.sak_client_reference,
            r.journalpost_client_reference == context.journalpost_client_reference,
            r.dokument_client_references == context.dokument_client_references,
    {
        let mut context = context;
        if let Some(saksnummer) = &self.refs.saksnummer {
            context.saksnummer = Some(saksnummer.clone());
        }
        if let Some(journalpost_id) = &self.refs.journalpost_id {
            context.journalpost_id = Some(journalpost_id.clone());
        }
        let ghost start = string_views(context.dokument_ids@);
        let ghost fixed = (
            context.sak_client_reference,
            context.saksnummer,
            context.journalpost_client_reference,
            context.journalpost_id,
            context.dokument_client_references,
        );
        let ghost extra = string_views(self.refs.dokument_ids@);
        let mut i: usize = 0;
        while i < self.refs.dokument_ids.len()
            invariant
                i <= self.refs.dokument_ids.len(),
                extra == string_views(self.refs.dokument_ids@),
                string_views(context.dokument_ids@) == merge_ids(start, extra.take(i as int)),
                fixed == (
                    context.sak_client_reference,
                    context.saksnummer,
                    context.journalpost_client_reference,
                    context.journalpost_id,
                    context.dokument_client_references,
                ),
            decreases self.refs.dokument_ids.len() - i,
        {
            let id = &self.refs.dokument_ids[i];
            assert(extra.take(i + 1).drop_last() == extra.take(i as int));
            assert(extra.take(i + 1).last() == id@);
            if !contains_string(&context.dokument_ids, id) {
                let ghost before = context.dokument_ids@;
                context.dokument_ids.push(id.clone());
                assert(string_views(context.dokument_ids@) =~= string_views(before).push(id@));
            }
            i = i + 1;
        }
        assert(extra.take(self.refs.dokument_ids.len() as int) == extra);
        context
    }

    pub fn set_saksnummer(&mut self, saksnummer: String)
        ensures
            final(self).refs.saksnummer == Some(saksnummer),
            final(self).refs.journalpost_id == old(self).refs.journalpost_id,
            final(self).refs.dokument_ids == old(self).refs.dokument_ids,
            final(self).detail == old(self).detail,
            final(self).blocked_by == old(self).blocked_by,
    {
        self.refs.saksnummer = Some(saksnummer);
    }

    pub fn set_journalpost_id(&mut self, journalpost_id: String)
        ensures
            final(self).refs.journalpost_id == Some(journalpost_id),
            final(self).refs.saksnummer == old(self).refs.saksnummer,
            final(self).refs.dokument_ids == old(self).refs.dokument_ids,
            final(self).detail == old(self).detail,
            final(self).blocked_by == old(self).blocked_by,
    {
        self.refs.journalpost_id = Some(journalpost_id);
    }

    pub fn add_dokument_id(&mut self, dokument_id: String)
        ensures
            final(self).refs.dokument_ids@ == old(self).refs.dokument_ids@.push(dokument_id),
            final(self).refs.saksnummer == old(self).refs.saksnummer,
            final(self).refs.journalpost_id == old(self).refs.journalpost_id,
            final(self).detail == old(self).detail,
            final(self).blocked_by == old(self).blocked_by,
    {
        self.refs.dokument_ids.push(dokument_id);
    }

    pub fn block(&mut self, prerequisite: Option<Prerequisite>, detail: String)
        ensures
            final(self).blocked_by == prerequisite,
            final(self).detail == Some(detail),
            final(self).refs == old(self).refs,
    {
        self.blocked_by = prerequisite;
        self.detail = Some(detail);
    }
}

// ---------------------------------------------------------------------------
// Laws
// ---------------------------------------------------------------------------

/// Merging keeps the existing ids as a prefix, adds every learned id, and
/// adds no id twice: a duplicate-free list stays duplicate-free.
pub proof fn law_merge_ids(ids: Seq<Seq<char>>, extra: Seq<Seq<char>>)
    ensures
        merge_ids(ids, extra).len() >= ids.len(),
        merge_ids(ids, extra).take(ids.len() as int) == ids,
        forall|i: int| 0 <= i < extra.len() ==> merge_ids(ids, extra).contains(#[trigger] extra[i]),
        forall|x: Seq<char>|
            merge_ids(ids, extra).contains(x) ==> ids.contains(x) || extra.contains(x),
        ids.no_duplicates() ==> merge_ids(ids, extra).no_duplicates(),
    decreases extra.len(),
{
    if extra.len() > 0 {
        let rest = extra.drop_last();
        law_merge_ids(ids, rest);
        let merged = merge_ids(ids, rest);
        let x = extra.last();
        if !merged.contains(x) {
            assert(merged.push(x).take(ids.len() as int) =~= merged.take(ids.len() as int));
            assert forall|y: Seq<char>| merged.push(x).contains(y) implies ids.contains(y)
                || extra.contains(y) by {
                if y != x {
                    let k = choose|k: int| 0 <= k < merged.push(x).len() && merged.push(x)[k] == y;
                    assert(merged[k] == y);
                    if rest.contains(y) {
                        let j = choose|j: int| 0 <= j < rest.len() && rest[j] == y;
                        assert(extra[j] == y);
                    }
                } else {
                    assert(extra[extra.len() - 1] == y);
                }
            }
            assert forall|i: int| 0 <= i < extra.len() implies merged.push(x).contains(
                #[trigger] extra[i],
            ) by {
                if i < rest.len() {
                    assert(rest[i] == extra[i]);
                    let k = choose|k: int| 0 <= k < merged.len() && merged[k] == extra[i];
                    assert(merged.push(x)[k] == extra[i]);
                } else {
                    assert(merged.push(x)[merged.len() as int] == x);
                }
            }
        } else {
            assert forall|y: Seq<char>| merged.contains(y) implies ids.contains(y)
                || extra.contains(y) by {
                if rest.contains(y) {
                    let j = choose|j: int| 0 <= j < rest.len() && rest[j] == y;
                    assert(extra[j] == y);
                }
            }
            assert forall|i: int| 0 <= i < extra.len() implies merged.contains(
                #[trigger] extra[i],
            ) by {
                if i < rest.len() {
                    assert(rest[i] == extra[i]);
                }
            }
        }
    }
}

} // verus!
