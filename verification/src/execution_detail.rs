//! Turning raw execution errors into details that are safe to publish.
//!
//! An archive or renderer error may carry request bodies, payloads and
//! credentials. `safe_execution_detail` keeps only a stable `sikri_*` code, or
//! a bounded and redacted diagnostic that starts at a known category marker,
//! or one of two generic codes.
use vstd::prelude::*;

use crate::redaction::{is_sensitive, lemma_redact_from_clean, redact_tokens, redacted, Rules};
use crate::text::{
    append_chars, chars_of, collapse_whitespace, find, find_exec, is_ws, join_words, matches_at,
    matches_at_exec, trim_end, trim_end_exec, whitespace, words, bounded, bounded_exec, contains,
    contains_str, is_code_char, normalize, normalize_exec, remove_all, remove_all_exec, runs, split_runs,
    starts_with, starts_with_str, string_of, trim, trim_exec, views, Sep, controls_to_spaces, lower,
    lemma_find_from, lemma_join_ends, lemma_remove_all_no_match, lemma_runs, lemma_runs_in,
    lemma_trim_clean, lemma_words_join,
};

verus! {

// ---------------------------------------------------------------------------
// Errors of an execution step
// ---------------------------------------------------------------------------

/// How an execution error is to be handled.
#[derive(PartialEq, Eq, Structural, Clone, Copy, Debug)]
pub enum EksekveringFeiltype {
    Recoverable,
    Irrecoverable,
    Blocked,
}

/// An execution error: its kind and its (already sanitised) message.
#[derive(Debug)]
pub struct EksekveringFeil {
    pub feiltype: EksekveringFeiltype,
    pub melding: String,
}

impl EksekveringFeil {
    pub fn recoverable(melding: String) -> (r: Self)
        ensures
            r.feiltype == EksekveringFeiltype::Recoverable,
            r.melding@ == melding@,
    {
        EksekveringFeil { feiltype: EksekveringFeiltype::Recoverable, melding }
    }

    pub fn irrecoverable(melding: String) -> (r: Self)
        ensures
            r.feiltype == EksekveringFeiltype::Irrecoverable,
            r.melding@ == melding@,
    {
        EksekveringFeil { feiltype: EksekveringFeiltype::Irrecoverable, melding }
    }

    pub fn blocked(melding: String) -> (r: Self)
        ensures
            r.feiltype == EksekveringFeiltype::Blocked,
            r.melding@ == melding@,
    {
        EksekveringFeil { feiltype: EksekveringFeiltype::Blocked, melding }
    }
}

// ---------------------------------------------------------------------------
// Category markers
// ---------------------------------------------------------------------------

/// Number of diagnostic category markers.
pub const MARKER_COUNT: usize = 18;

/// The diagnostic category markers, in priority order.
pub open spec fn marker(k: int) -> Seq<char> {
    if k == 0 {
        "blocked_reason="@
    } else if k == 1 {
        "html2pdf_auth_failed"@
    } else if k == 2 {
        "html2pdf_client_error"@
    } else if k == 3 {
        "html2pdf_server_error"@
    } else if k == 4 {
        "html2pdf_request_failed"@
    } else if k == 5 {
        "html2pdf_response_read_failed"@
    } else if k == 6 {
        "render_dokument_mangler"@
    } else if k == 7 {
        "render_journalpost_mangler"@
    } else if k == 8 {
        "render_ikke_html_template"@
    } else if k == 9 {
        "render_saksnummer_mangler"@
    } else if k == 10 {
        "render_html_mal_mangler"@
    } else if k == 11 {
        "render_html_mal_lager_unavailable"@
    } else if k == 12 {
        "render_token_substitution_failed"@
    } else if k == 13 {
        "rendered_dokument_save_failed"@
    } else if k == 14 {
        "render_state_update_failed"@
    } else if k == 15 {
        "arkivmapping_dokument_fact_mangler"@
    } else if k == 16 {
        "arkivmapping_rendered_dokument_mangler"@
    } else {
        "arkivmapping_dokumentform_mismatch"@
    }
}

pub fn marker_chars(k: usize) -> (r: Vec<char>)
    requires
        k < MARKER_COUNT,
    ensures
        r@ == marker(k as int),
{
    if k == 0 {
        chars_of("blocked_reason=")
    } else if k == 1 {
        chars_of("html2pdf_auth_failed")
    } else if k == 2 {
        chars_of("html2pdf_client_error")
    } else if k == 3 {
        chars_of("html2pdf_server_error")
    } else if k == 4 {
        chars_of("html2pdf_request_failed")
    } else if k == 5 {
        chars_of("html2pdf_response_read_failed")
    } else if k == 6 {
        chars_of("render_dokument_mangler")
    } else if k == 7 {
        chars_of("render_journalpost_mangler")
    } else if k == 8 {
        chars_of("render_ikke_html_template")
    } else if k == 9 {
        chars_of("render_saksnummer_mangler")
    } else if k == 10 {
        chars_of("render_html_mal_mangler")
    } else if k == 11 {
        chars_of("render_html_mal_lager_unavailable")
    } else if k == 12 {
        chars_of("render_token_substitution_failed")
    } else if k == 13 {
        chars_of("rendered_dokument_save_failed")
    } else if k == 14 {
        chars_of("render_state_update_failed")
    } else if k == 15 {
        chars_of("arkivmapping_dokument_fact_mangler")
    } else if k == 16 {
        chars_of("arkivmapping_rendered_dokument_mangler")
    } else {
        chars_of("arkivmapping_dokumentform_mismatch")
    }
}

/// The first marker, in priority order from `k` on, that occurs at position `i`.
pub open spec fn first_marker_at(s: Seq<char>, i: int, k: int) -> Option<int>
    decreases MARKER_COUNT - k,
{
    if k < 0 || k >= MARKER_COUNT {
        None
    } else if matches_at(s, i, marker(k)) {
        Some(k)
    } else {
        first_marker_at(s, i, k + 1)
    }
}

/// The earliest position at or after `i` where some marker occurs, with the
/// marker found there: the minimum, over all markers, of their first
/// occurrence.
pub open spec fn earliest_marker_from(s: Seq<char>, i: int) -> Option<(int, int)>
    decreases s.len() + 1 - i,
{
    if i < 0 || i > s.len() {
        None
    } else {
        match first_marker_at(s, i, 0) {
            Some(k) => Some((i, k)),
            None => earliest_marker_from(s, i + 1),
        }
    }
}

fn first_marker_at_exec(s: &Vec<char>, i: usize) -> (r: Option<usize>)
    ensures
        r matches Some(k) ==> first_marker_at(s@, i as int, 0) == Some(k as int),
        r is None ==> first_marker_at(s@, i as int, 0) is None,
{
    let mut k: usize = 0;
    while k < MARKER_COUNT
        invariant
            k <= MARKER_COUNT,
            first_marker_at(s@, i as int, 0) == first_marker_at(s@, i as int, k as int),
        decreases MARKER_COUNT - k,
    {
        let m = marker_chars(k);
        if matches_at_exec(s, i, &m) {
            return Some(k);
        }
        k = k + 1;
    }
    None
}

fn earliest_marker(s: &Vec<char>) -> (r: Option<(usize, usize)>)
    ensures
        r matches Some((i, k)) ==> earliest_marker_from(s@, 0) == Some((i as int, k as int)),
        r is None ==> earliest_marker_from(s@, 0) is None,
{
    let mut i: usize = 0;
    while i < s.len()
        invariant
            i <= s.len(),
            earliest_marker_from(s@, 0) == earliest_marker_from(s@, i as int),
        decreases s.len() - i,
    {
        if let Some(k) = first_marker_at_exec(s, i) {
            return Some((i, k));
        }
        i = i + 1;
    }
    if let Some(k) = first_marker_at_exec(s, i) {
        return Some((i, k));
    }
    assert(earliest_marker_from(s@, i + 1) is None);
    None
}

// ---------------------------------------------------------------------------
// Stripping embedded payloads and renderer bodies
// ---------------------------------------------------------------------------

/// Everything from the first `{` on is replaced by a fixed marker.
pub open spec fn strip_payload(d: Seq<char>) -> Seq<char> {
    match find(d, seq!['{']) {
        None => d,
        Some(idx) => {
            let prefix = trim_end(d.take(idx));
            if prefix.len() == 0 {
                "[payload stripped]"@
            } else {
                prefix + " [payload stripped]"@
            }
        },
    }
}

pub fn strip_embedded_execution_payload(detail: &Vec<char>) -> (r: Vec<char>)
    ensures
        r@ == strip_payload(detail@),
{
    let brace = vec!['{'];
    assert(brace@ == seq!['{']);
    match find_exec(detail, &brace, 0) {
        None => detail.clone(),
        Some(idx) => {
            proof {
                crate::text::lemma_find_from(detail@, seq!['{'], 0);
            }
            let mut head: Vec<char> = Vec::new();
            let mut i: usize = 0;
            while i < idx
                invariant
                    i <= idx <= detail.len(),
                    head@ == detail@.take(i as int),
                decreases idx - i,
            {
                head.push(detail[i]);
                i = i + 1;
                assert(head@ =~= detail@.take(i as int));
            }
            let prefix = trim_end_exec(&head);
            if prefix.len() == 0 {
                chars_of("[payload stripped]")
            } else {
                let mut out = prefix;
                let tail = chars_of(" [payload stripped]");
                append_chars(&mut out, &tail);
                out
            }
        },
    }
}

/// A renderer body field `field=` starts at `i`: at the start of the detail or
/// right after whitespace.
pub open spec fn starts_field(d: Seq<char>, i: int, f: Seq<char>) -> bool {
    &&& 0 <= i < d.len()
    &&& (i == 0 || is_ws(d[i - 1]))
    &&& matches_at(d, i, f)
    &&& matches_at(d, i + f.len(), seq!['='])
}

/// Position just after the closing quote at or after `j`, or the end.
pub open spec fn quote_end(d: Seq<char>, j: int) -> int
    decreases d.len() - j,
{
    if j >= d.len() {
        d.len() as int
    } else if d[j] == '"' {
        j + 1
    } else {
        quote_end(d, j + 1)
    }
}

/// Position of the first whitespace at or after `j`, or the end.
pub open spec fn ws_end(d: Seq<char>, j: int) -> int
    decreases d.len() - j,
{
    if j >= d.len() {
        j
    } else if is_ws(d[j]) {
        j
    } else {
        ws_end(d, j + 1)
    }
}

/// Position just after the value of the field that starts at `i`: a quoted
/// value through its closing quote, otherwise up to the next whitespace.
pub open spec fn skip_field(d: Seq<char>, i: int, f: Seq<char>) -> int {
    let j = i + f.len() + 1;
    if j < d.len() && d[j] == '"' {
        quote_end(d, j + 1)
    } else {
        ws_end(d, j)
    }
}

pub proof fn lemma_quote_end(d: Seq<char>, j: int)
    requires
        j <= d.len(),
    ensures
        j <= quote_end(d, j) <= d.len(),
    decreases d.len() - j,
{
    if j < d.len() && d[j] != '"' {
        lemma_quote_end(d, j + 1);
    }
}

pub proof fn lemma_ws_end(d: Seq<char>, j: int)
    requires
        j <= d.len(),
    ensures
        j <= ws_end(d, j) <= d.len(),
    decreases d.len() - j,
{
    if j < d.len() && !is_ws(d[j]) {
        lemma_ws_end(d, j + 1);
    }
}

pub proof fn lemma_skip_field(d: Seq<char>, i: int, f: Seq<char>)
    requires
        starts_field(d, i, f),
    ensures
        i < skip_field(d, i, f) <= d.len(),
{
    let j = i + f.len() + 1;
    if j < d.len() && d[j] == '"' {
        lemma_quote_end(d, j + 1);
    } else {
        lemma_ws_end(d, j);
    }
}

/// The detail from position `i` on with every `body=` and `error_body=` field
/// removed.
pub open spec fn strip_fields_from(d: Seq<char>, i: int) -> Seq<char>
    decreases d.len() - i,
{
    if i < 0 || i >= d.len() {
        Seq::empty()
    } else if starts_field(d, i, "body"@) {
        proof {
            lemma_skip_field(d, i, "body"@);
        }
        strip_fields_from(d, skip_field(d, i, "body"@))
    } else if starts_field(d, i, "error_body"@) {
        proof {
            lemma_skip_field(d, i, "error_body"@);
        }
        strip_fields_from(d, skip_field(d, i, "error_body"@))
    } else {
        seq![d[i]] + strip_fields_from(d, i + 1)
    }
}

/// Renderer bodies removed and whitespace collapsed.
pub open spec fn strip_renderer(d: Seq<char>) -> Seq<char> {
    join_words(words(strip_fields_from(d, 0)))
}

fn starts_field_exec(d: &Vec<char>, i: usize, f: &Vec<char>) -> (r: bool)
    requires
        i < d.len(),
    ensures
        r == starts_field(d@, i as int, f@),
{
    if i > 0 && !whitespace(d[i - 1]) {
        return false;
    }
    if !matches_at_exec(d, i, f) {
        return false;
    }
    let eq = vec!['='];
    assert(eq@ == seq!['=']);
    matches_at_exec(d, i + f.len(), &eq)
}

fn skip_field_exec(d: &Vec<char>, i: usize, f: &Vec<char>) -> (r: usize)
    requires
        starts_field(d@, i as int, f@),
    ensures
        r as int == skip_field(d@, i as int, f@),
{
    let n = d.len();
    let fl = f.len();
    assert(seq!['='].len() == 1);
    assert(i + fl + 1 <= n);
    let mut j: usize = i + fl + 1;
    if j < d.len() && d[j] == '"' {
        j = j + 1;
        while j < d.len()
            invariant
                j <= d.len(),
                quote_end(d@, j as int) == skip_field(d@, i as int, f@),
            decreases d.len() - j,
        {
            let c = d[j];
            j = j + 1;
            if c == '"' {
                return j;
            }
        }
        return j;
    }
    while j < d.len()
        invariant
            j <= d.len(),
            ws_end(d@, j as int) == skip_field(d@, i as int, f@),
        decreases d.len() - j,
    {
        if whitespace(d[j]) {
            return j;
        }
        j = j + 1;
    }
    j
}

pub fn strip_renderer_body_fields(detail: &Vec<char>) -> (r: Vec<char>)
    ensures
        r@ == strip_renderer(detail@),
{
    let body = chars_of("body");
    let error_body = chars_of("error_body");
    let mut out: Vec<char> = Vec::new();
    let mut index: usize = 0;
    while index < detail.len()
        invariant
            index <= detail.len(),
            body@ == "body"@,
            error_body@ == "error_body"@,
            out@ + strip_fields_from(detail@, index as int) == strip_fields_from(detail@, 0),
        decreases detail.len() - index,
    {
        if starts_field_exec(detail, index, &body) {
            proof {
                lemma_skip_field(detail@, index as int, body@);
            }
            index = skip_field_exec(detail, index, &body);
        } else if starts_field_exec(detail, index, &error_body) {
            proof {
                lemma_skip_field(detail@, index as int, error_body@);
            }
            index = skip_field_exec(detail, index, &error_body);
        } else {
            let ghost before = out@;
            out.push(detail[index as usize]);
            assert(out@ + strip_fields_from(detail@, index + 1) == before + (seq![detail@[index as int]]
                + strip_fields_from(detail@, index + 1)));
            index = index + 1;
        }
    }
    assert(out@ + strip_fields_from(detail@, index as int) == out@);
    collapse_whitespace(&out)
}


// ---------------------------------------------------------------------------
// The safe detail
// ---------------------------------------------------------------------------

/// Longest diagnostic kept, in characters, before `...` is appended.
pub const MAX_EXECUTION_DETAIL: usize = 500;

/// The diagnostic that starts at the earliest category marker: embedded
/// payloads stripped, renderer bodies stripped for `html2pdf_*` categories,
/// credentials redacted, and the length bounded.
pub open spec fn safe_internal(d: Seq<char>) -> Option<Seq<char>> {
    match earliest_marker_from(d, 0) {
        None => None,
        Some((start, k)) => {
            let stripped = strip_payload(d.skip(start));
            let candidate = if starts_with(marker(k), "html2pdf_"@) {
                strip_renderer(stripped)
            } else {
                stripped
            };
            let b = bounded(
                trim(redacted(Rules::Execution, candidate)),
                MAX_EXECUTION_DETAIL as nat,
                "..."@,
            );
            if b.len() == 0 {
                None
            } else {
                Some(b)
            }
        },
    }
}

/// The first token of `ts` that starts with `p`.
pub open spec fn first_with_prefix(ts: Seq<Seq<char>>, p: Seq<char>) -> Option<Seq<char>>
    decreases ts.len(),
{
    if ts.len() == 0 {
        None
    } else if starts_with(ts[0], p) {
        Some(ts[0])
    } else {
        first_with_prefix(ts.drop_first(), p)
    }
}

/// The detail with both recoverability markers removed and whitespace
/// normalised.
pub open spec fn normalized_detail(d: Seq<char>) -> Seq<char> {
    normalize(
        remove_all(
            remove_all(d, "sikri_recoverability=irrecoverable"@),
            "sikri_recoverability=recoverable"@,
        ),
    )
}

/// What `safe_execution_detail` publishes for a raw detail `d`: the first
/// `sikri_*` code, else the safe diagnostic, else a generic upstream or
/// execution error code.
pub open spec fn safe_detail(d: Seq<char>) -> Seq<char> {
    let normalized = normalized_detail(d);
    match first_with_prefix(runs(normalized, Sep::NonCode), "sikri_"@) {
        Some(code) => code,
        None => match safe_internal(normalized) {
            Some(diagnostic) => diagnostic,
            None => if contains(d, "sikri_recoverability="@) {
                "execution_upstream_error"@
            } else {
                "execution_error"@
            },
        },
    }
}

/// `safe_internal`, on a normalised detail.
pub fn safe_internal_execution_detail(detail: &Vec<char>) -> (r: Option<Vec<char>>)
    ensures
        r matches Some(v) ==> safe_internal(detail@) == Some(v@),
        r is None ==> safe_internal(detail@) is None,
{
    let (start, k) = match earliest_marker(detail) {
        None => return None,
        Some(found) => found,
    };
    proof {
        lemma_earliest_marker_from(detail@, 0);
    }
    let mut tail: Vec<char> = Vec::new();
    let mut i: usize = start;
    while i < detail.len()
        invariant
            start <= i <= detail.len(),
            tail@ == detail@.subrange(start as int, i as int),
        decreases detail.len() - i,
    {
        tail.push(detail[i]);
        i = i + 1;
        assert(tail@ =~= detail@.subrange(start as int, i as int));
    }
    assert(tail@ =~= detail@.skip(start as int));
    let stripped = strip_embedded_execution_payload(&tail);
    let m = marker_chars(k);
    let candidate = if starts_with_str(&m, "html2pdf_") {
        strip_renderer_body_fields(&stripped)
    } else {
        stripped
    };
    let red = redact_tokens(Rules::Execution, &candidate);
    let trimmed = trim_exec(&red);
    let b = bounded_exec(&trimmed, MAX_EXECUTION_DETAIL, "...");
    if b.len() == 0 {
        None
    } else {
        Some(b)
    }
}

pub proof fn lemma_earliest_marker_from(s: Seq<char>, i: int)
    requires
        0 <= i,
    ensures
        earliest_marker_from(s, i) matches Some((p, k)) ==> i <= p <= s.len() && 0 <= k
            < MARKER_COUNT,
    decreases s.len() + 1 - i,
{
    if i <= s.len() {
        lemma_first_marker_at(s, i, 0);
        if first_marker_at(s, i, 0) is None {
            lemma_earliest_marker_from(s, i + 1);
        }
    }
}

pub proof fn lemma_first_marker_at(s: Seq<char>, i: int, k: int)
    requires
        0 <= k,
    ensures
        first_marker_at(s, i, k) matches Some(m) ==> k <= m < MARKER_COUNT,
    decreases MARKER_COUNT - k,
{
    if k < MARKER_COUNT && !matches_at(s, i, marker(k)) {
        lemma_first_marker_at(s, i, k + 1);
    }
}

fn first_code_with_prefix(ts: &Vec<Vec<char>>, prefix: &str) -> (r: Option<Vec<char>>)
    ensures
        r matches Some(v) ==> first_with_prefix(views(ts@), prefix@) == Some(v@),
        r is None ==> first_with_prefix(views(ts@), prefix@) is None,
{
    let ghost all = views(ts@);
    let mut i: usize = 0;
    assert(all.skip(0) == all);
    while i < ts.len()
        invariant
            i <= ts.len(),
            all == views(ts@),
            first_with_prefix(all, prefix@) == first_with_prefix(all.skip(i as int), prefix@),
        decreases ts.len() - i,
    {
        assert(all.skip(i as int)[0] == ts@[i as int]@);
        assert(all.skip(i as int).drop_first() == all.skip(i + 1));
        if starts_with_str(&ts[i], prefix) {
            return Some(ts[i].clone());
        }
        i = i + 1;
    }
    None
}

/// The detail that is safe to publish for a raw execution error.
pub fn safe_execution_detail(detail: &str) -> (r: String)
    ensures
        r@ == safe_detail(detail@),
{
    let d = chars_of(detail);
    let once = remove_all_exec(&d, &chars_of("sikri_recoverability=irrecoverable"));
    let twice = remove_all_exec(&once, &chars_of("sikri_recoverability=recoverable"));
    let normalized = normalize_exec(&twice);
    let codes = split_runs(&normalized, Sep::NonCode);
    if let Some(code) = first_code_with_prefix(&codes, "sikri_") {
        return string_of(&code);
    }
    if let Some(diagnostic) = safe_internal_execution_detail(&normalized) {
        return string_of(&diagnostic);
    }
    if contains_str(&d, "sikri_recoverability=") {
        return string_of(&chars_of("execution_upstream_error"));
    }
    string_of(&chars_of("execution_error"))
}

/// The raw detail marks the failure as irrecoverable.
pub open spec fn marked_irrecoverable(raw_error: Seq<char>) -> bool {
    contains(raw_error, "sikri_recoverability=irrecoverable"@)
}

/// An archive error: irrecoverable exactly when the raw detail carries the
/// irrecoverable marker, recoverable otherwise, with `message` as its text.
pub fn map_arkiv_feil_detail(raw_error: &str, message: String) -> (r: EksekveringFeil)
    ensures
        r.melding@ == message@,
        marked_irrecoverable(raw_error@) ==> r.feiltype == EksekveringFeiltype::Irrecoverable,
        !marked_irrecoverable(raw_error@) ==> r.feiltype == EksekveringFeiltype::Recoverable,
{
    let o = chars_of(raw_error);
    if contains_str(&o, "sikri_recoverability=irrecoverable") {
        return EksekveringFeil::irrecoverable(message);
    }
    EksekveringFeil::recoverable(message)
}

/// An archive error from its raw detail: the published message is the safe
/// detail, and the kind follows the irrecoverable marker.
pub fn map_arkiv_feil(raw_error: &str) -> (r: EksekveringFeil)
    ensures
        r.melding@ == safe_detail(raw_error@),
        marked_irrecoverable(raw_error@) ==> r.feiltype == EksekveringFeiltype::Irrecoverable,
        !marked_irrecoverable(raw_error@) ==> r.feiltype == EksekveringFeiltype::Recoverable,
{
    let message = safe_execution_detail(raw_error);
    map_arkiv_feil_detail(raw_error, message)
}


// ---------------------------------------------------------------------------
// Laws
// ---------------------------------------------------------------------------

/// A `sikri_*` code: it starts with `sikri_` and holds only ASCII letters,
/// digits and `_`.
pub open spec fn is_sikri_code(r: Seq<char>) -> bool {
    &&& starts_with(r, "sikri_"@)
    &&& forall|i: int| 0 <= i < r.len() ==> is_code_char(#[trigger] r[i])
}

proof fn lemma_first_with_prefix_code(ts: Seq<Seq<char>>, p: Seq<char>)
    requires
        forall|i: int, j: int|
            0 <= i < ts.len() && 0 <= j < ts[i].len() ==> is_code_char(#[trigger] ts[i][j]),
    ensures
        first_with_prefix(ts, p) matches Some(x) ==> starts_with(x, p) && forall|j: int|
            0 <= j < x.len() ==> is_code_char(#[trigger] x[j]),
    decreases ts.len(),
{
    if ts.len() > 0 && !starts_with(ts[0], p) {
        assert forall|i: int, j: int|
            0 <= i < ts.drop_first().len() && 0 <= j < ts.drop_first()[i].len() implies is_code_char(
            #[trigger] ts.drop_first()[i][j]) by {
            assert(ts.drop_first()[i] == ts[i + 1]);
        }
        lemma_first_with_prefix_code(ts.drop_first(), p);
    } else if ts.len() > 0 {
        assert forall|j: int| 0 <= j < ts[0].len() implies is_code_char(#[trigger] ts[0][j]) by {
            assert(is_code_char(ts[0][j]));
        }
    }
}

/// What is published for an execution error is never raw text: it is a
/// `sikri_*` code, or a non-empty diagnostic of at most 503 characters, or
/// one of the two generic codes.
pub proof fn law_safe_detail_shape(d: Seq<char>)
    ensures
        is_sikri_code(safe_detail(d)) || (0 < safe_detail(d).len() <= MAX_EXECUTION_DETAIL + 3)
            || safe_detail(d) == "execution_upstream_error"@ || safe_detail(d)
            == "execution_error"@,
{
    let normalized = normalized_detail(d);
    let ts = runs(normalized, Sep::NonCode);
    crate::text::lemma_runs(normalized, Sep::NonCode);
    assert forall|i: int, j: int| 0 <= i < ts.len() && 0 <= j < ts[i].len() implies is_code_char(
        #[trigger] ts[i][j]) by {
        assert(!crate::text::is_sep(Sep::NonCode, ts[i][j]));
    }
    lemma_first_with_prefix_code(ts, "sikri_"@);
    match safe_internal(normalized) {
        Some(x) => {
            if let Some((start, k)) = earliest_marker_from(normalized, 0) {
                let stripped = strip_payload(normalized.skip(start));
                let candidate = if starts_with(marker(k), "html2pdf_"@) {
                    strip_renderer(stripped)
                } else {
                    stripped
                };
                crate::text::lemma_bounded_len(
                    trim(redacted(Rules::Execution, candidate)),
                    MAX_EXECUTION_DETAIL as nat,
                    "..."@,
                );
                reveal_strlit("...");
            }
        },
        None => {},
    }
}

/// A `sikri_*` code is its own safe detail: a code that is made safe again,
/// as each published execution error is, comes out unchanged.
pub proof fn law_sikri_code_is_stable(c: Seq<char>)
    requires
        is_sikri_code(c),
    ensures
        safe_detail(c) == c,
{
    reveal_strlit("sikri_recoverability=irrecoverable");
    reveal_strlit("sikri_recoverability=recoverable");
    reveal_strlit("sikri_");
    let p1 = "sikri_recoverability=irrecoverable"@;
    let p2 = "sikri_recoverability=recoverable"@;
    assert forall|i: int| 0 <= i < c.len() implies #[trigger] c[i] != p1[20] && c[i] != p2[20]
        && !crate::text::is_control(c[i]) && !is_ws(c[i]) && is_code_char(c[i]) by {
        assert(is_code_char(c[i]));
    }
    crate::text::lemma_remove_all_absent(c, p1, 20);
    crate::text::lemma_remove_all_absent(c, p2, 20);
    assert(crate::text::controls_to_spaces(c) =~= c);
    crate::text::lemma_split_state_without_sep(c, Sep::Whitespace);
    assert(words(c) =~= seq![c]);
    assert(normalized_detail(c) == c);
    crate::text::lemma_split_state_without_sep(c, Sep::NonCode);
    assert(runs(c, Sep::NonCode) =~= seq![c]);
    assert(first_with_prefix(seq![c], "sikri_"@) == Some(c));
}

proof fn lemma_marker_nonempty(k: int)
    ensures
        marker(k).len() > 0,
{
    reveal_strlit("blocked_reason=");
    reveal_strlit("html2pdf_auth_failed");
    reveal_strlit("html2pdf_client_error");
    reveal_strlit("html2pdf_server_error");
    reveal_strlit("html2pdf_request_failed");
    reveal_strlit("html2pdf_response_read_failed");
    reveal_strlit("render_dokument_mangler");
    reveal_strlit("render_journalpost_mangler");
    reveal_strlit("render_ikke_html_template");
    reveal_strlit("render_saksnummer_mangler");
    reveal_strlit("render_html_mal_mangler");
    reveal_strlit("render_html_mal_lager_unavailable");
    reveal_strlit("render_token_substitution_failed");
    reveal_strlit("rendered_dokument_save_failed");
    reveal_strlit("render_state_update_failed");
    reveal_strlit("arkivmapping_dokument_fact_mangler");
    reveal_strlit("arkivmapping_rendered_dokument_mangler");
    reveal_strlit("arkivmapping_dokumentform_mismatch");
}

proof fn lemma_first_marker_found(s: Seq<char>, i: int, j: int, k: int)
    requires
        0 <= j <= k < MARKER_COUNT,
        matches_at(s, i, marker(k)),
    ensures
        first_marker_at(s, i, j) is Some,
    decreases k - j,
{
    if j < k && !matches_at(s, i, marker(j)) {
        lemma_first_marker_found(s, i, j + 1, k);
    }
}

proof fn lemma_first_with_prefix_none(ts: Seq<Seq<char>>, p: Seq<char>)
    requires
        forall|i: int| 0 <= i < ts.len() ==> !starts_with(#[trigger] ts[i], p),
    ensures
        first_with_prefix(ts, p) is None,
    decreases ts.len(),
{
    if ts.len() > 0 {
        assert(!starts_with(ts[0], p));
        assert forall|i: int| 0 <= i < ts.drop_first().len() implies !starts_with(
            #[trigger] ts.drop_first()[i],
            p,
        ) by {
            assert(ts.drop_first()[i] == ts[i + 1]);
        }
        lemma_first_with_prefix_none(ts.drop_first(), p);
    }
}

proof fn lemma_strip_fields_clean(d: Seq<char>, i: int)
    requires
        0 <= i <= d.len(),
        forall|j: int| !starts_field(d, j, "body"@) && !starts_field(d, j, "error_body"@),
    ensures
        strip_fields_from(d, i) == d.skip(i),
    decreases d.len() - i,
{
    if i >= d.len() {
        assert(d.skip(i) =~= Seq::<char>::empty());
    } else {
        assert(!starts_field(d, i, "body"@) && !starts_field(d, i, "error_body"@));
        lemma_strip_fields_clean(d, i + 1);
        assert(seq![d[i]] + d.skip(i + 1) =~= d.skip(i));
    }
}

/// Where `p` occurs in `d` at `q`, so does every prefix of `p`.
proof fn lemma_prefix_occurs(d: Seq<char>, q: int, x: Seq<char>, p: Seq<char>)
    requires
        matches_at(d, q, x),
        starts_with(x, p),
    ensures
        matches_at(d, q, p),
{
    assert forall|j: int| 0 <= j < p.len() implies #[trigger] d[q + j] == p[j] by {
        assert(x[0 + j] == p[j]);
        assert(d[q + j] == x[j]);
    }
}

/// A diagnostic that is already safe is published as it stands: one that
/// begins with a category marker, holds no `sikri_` text and no embedded
/// payload, is already normalised, has no sensitive word and no renderer body
/// field, and is within the length bound.
pub proof fn law_safe_diagnostic_is_stable(d: Seq<char>, k: int)
    requires
        0 <= k < MARKER_COUNT,
        starts_with(d, marker(k)),
        !contains(d, "sikri_"@),
        !contains(d, seq!['{']),
        normalize(d) == d,
        forall|i: int| 0 <= i < words(d).len() ==> !is_sensitive(lower(#[trigger] words(d)[i])),
        forall|i: int| !starts_field(d, i, "body"@) && !starts_field(d, i, "error_body"@),
        d.len() <= MAX_EXECUTION_DETAIL,
    ensures
        safe_detail(d) == d,
{
    reveal_strlit("sikri_recoverability=irrecoverable");
    reveal_strlit("sikri_recoverability=recoverable");
    reveal_strlit("sikri_");
    let sk = "sikri_"@;
    let p1 = "sikri_recoverability=irrecoverable"@;
    let p2 = "sikri_recoverability=recoverable"@;
    assert(starts_with(p1, sk));
    assert(starts_with(p2, sk));
    assert forall|i: int| !matches_at(d, i, p1) by {
        if matches_at(d, i, p1) {
            lemma_prefix_occurs(d, i, p1, sk);
        }
    }
    lemma_remove_all_no_match(d, p1);
    assert forall|i: int| !matches_at(d, i, p2) by {
        if matches_at(d, i, p2) {
            lemma_prefix_occurs(d, i, p2, sk);
        }
    }
    lemma_remove_all_no_match(d, p2);
    assert(normalized_detail(d) == d);

    let ts = runs(d, Sep::NonCode);
    lemma_runs_in(d, Sep::NonCode);
    assert forall|i: int| 0 <= i < ts.len() implies !starts_with(#[trigger] ts[i], sk) by {
        if starts_with(ts[i], sk) {
            assert(contains(d, ts[i]));
            let q = choose|q: int| matches_at(d, q, ts[i]);
            lemma_prefix_occurs(d, q, ts[i], sk);
        }
    }
    lemma_first_with_prefix_none(ts, sk);

    lemma_first_marker_found(d, 0, 0, k);
    assert(earliest_marker_from(d, 0) == Some((0int, first_marker_at(d, 0, 0)->0)));
    assert(d.skip(0) =~= d);
    lemma_find_from(d, seq!['{'], 0);
    assert(find(d, seq!['{']) is None);
    assert(strip_payload(d) == d);

    let cs = controls_to_spaces(d);
    let w = words(cs);
    lemma_runs(cs, Sep::Whitespace);
    assert forall|i: int, j: int| 0 <= i < w.len() && 0 <= j < w[i].len() implies !is_ws(
        #[trigger] w[i][j],
    ) by {
        assert(!crate::text::is_sep(Sep::Whitespace, w[i][j]));
    }
    lemma_words_join(w);
    assert(words(d) == w);
    assert(join_words(words(d)) == d);
    lemma_strip_fields_clean(d, 0);
    assert(strip_renderer(d) == d);
    lemma_redact_from_clean(Rules::Execution, words(d));
    assert(redacted(Rules::Execution, d) == d);
    lemma_marker_nonempty(k);
    assert(d.len() > 0);
    assert(w.len() > 0);
    lemma_join_ends(w);
    lemma_trim_clean(d);
    assert(bounded(d, MAX_EXECUTION_DETAIL as nat, "..."@) == d);
    assert(safe_internal(d) == Some(d));
}

} // verus!
