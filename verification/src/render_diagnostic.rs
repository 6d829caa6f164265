//! Diagnostics for rendering HTML-template documents.
//!
//! Error texts from storage and state updates are sanitised before they are
//! embedded (normalised, credentials redacted, bounded to 240 characters) and
//! quoted, and every failure is reported under a stable category marker.
use vstd::prelude::*;

use crate::execution_detail::EksekveringFeil;
use crate::ids::{hyphenated, uuid_text};
use crate::redaction::{redact_tokens, redacted, Rules};
use crate::text::{append_chars, bounded, bounded_exec, chars_of, normalize, normalize_exec, string_of};

verus! {

/// Longest sanitised render error kept, in characters, before `…` is appended.
pub const MAX_RENDER_ERROR_DETAIL: usize = 240;

/// A render error text: normalised, redacted and bounded.
pub open spec fn sanitized_render_error(d: Seq<char>) -> Seq<char> {
    bounded(redacted(Rules::Diagnostic, normalize(d)), MAX_RENDER_ERROR_DETAIL as nat, "…"@)
}

pub fn sanitize_render_error(detail: &str) -> (r: String)
    ensures
        r@ == sanitized_render_error(detail@),
{
    let d = chars_of(detail);
    let normalized = normalize_exec(&d);
    let red = redact_tokens(Rules::Diagnostic, &normalized);
    let b = bounded_exec(&red, MAX_RENDER_ERROR_DETAIL, "…");
    string_of(&b)
}

/// Every `c` in `s` replaced by `r`.
pub open spec fn replace_char(s: Seq<char>, c: char, r: Seq<char>) -> Seq<char>
    decreases s.len(),
{
    if s.len() == 0 {
        Seq::empty()
    } else {
        replace_char(s.drop_last(), c, r) + if s.last() == c {
            r
        } else {
            seq![s.last()]
        }
    }
}

/// A value made safe to embed between double quotes: backslashes doubled,
/// then double quotes escaped.
pub open spec fn quoted(s: Seq<char>) -> Seq<char> {
    replace_char(replace_char(s, '\\', seq!['\\', '\\']), '"', seq!['\\', '"'])
}

fn replace_char_exec(s: &Vec<char>, c: char, r: &Vec<char>) -> (out: Vec<char>)
    ensures
        out@ == replace_char(s@, c, r@),
{
    let mut out: Vec<char> = Vec::new();
    let mut i: usize = 0;
    while i < s.len()
        invariant
            i <= s.len(),
            out@ == replace_char(s@.take(i as int), c, r@),
        decreases s.len() - i,
    {
        assert(s@.take(i + 1).drop_last() == s@.take(i as int));
        if s[i] == c {
            append_chars(&mut out, r);
        } else {
            out.push(s[i]);
        }
        i = i + 1;
    }
    assert(s@.take(s.len() as int) == s@);
    out
}

pub fn quote_diagnostic_value(value: &str) -> (r: String)
    ensures
        r@ == quoted(value@),
{
    let v = chars_of(value);
    let two_backslashes = vec!['\\', '\\'];
    let escaped_quote = vec!['\\', '"'];
    assert(two_backslashes@ == seq!['\\', '\\']);
    assert(escaped_quote@ == seq!['\\', '"']);
    let once = replace_char_exec(&v, '\\', &two_backslashes);
    let twice = replace_char_exec(&once, '"', &escaped_quote);
    string_of(&twice)
}

/// The error text of a render failure as it is embedded in a diagnostic:
/// sanitised, then quoted.
pub open spec fn embedded_error(err: Seq<char>) -> Seq<char> {
    quoted(sanitized_render_error(err))
}

fn embedded_error_exec(err: &str) -> (r: Vec<char>)
    ensures
        r@ == embedded_error(err@),
{
    let s = sanitize_render_error(err);
    let q = quote_diagnostic_value(s.as_str());
    chars_of(q.as_str())
}

// ---------------------------------------------------------------------------
// Template errors
// ---------------------------------------------------------------------------

/// Why substituting the fields of an HTML template failed.
#[derive(PartialEq, Eq, Structural, Clone, Copy, Debug)]
pub enum HtmlTemplateFeil {
    ForStor,
    UgyldigUtf8,
    UkjentToken,
    ManglerToken,
    DuplikatToken,
    DuplikatFelt,
    TommeFelter,
    ManglerSaksnummer,
}

/// The human-readable message for a template error.
pub open spec fn template_message(err: HtmlTemplateFeil) -> Seq<char> {
    match err {
        HtmlTemplateFeil::ForStor => "HTML-mal er for stor"@,
        HtmlTemplateFeil::UgyldigUtf8 => "HTML-mal er ikke gyldig UTF-8"@,
        HtmlTemplateFeil::UkjentToken => "HTML-mal inneholder ukjent token"@,
        HtmlTemplateFeil::ManglerToken => "HTML-mal mangler deklarert token"@,
        HtmlTemplateFeil::DuplikatToken => "HTML-mal inneholder duplikat token"@,
        HtmlTemplateFeil::DuplikatFelt => "Deklarerte felter inneholder duplikat"@,
        HtmlTemplateFeil::TommeFelter => "Deklarerte felter kan ikke være tomme"@,
        HtmlTemplateFeil::ManglerSaksnummer => "Saksnummer mangler"@,
    }
}

/// The stable code for a template error.
pub open spec fn template_code(err: HtmlTemplateFeil) -> Seq<char> {
    match err {
        HtmlTemplateFeil::ForStor => "for_stor"@,
        HtmlTemplateFeil::UgyldigUtf8 => "ugyldig_utf8"@,
        HtmlTemplateFeil::UkjentToken => "ukjent_token"@,
        HtmlTemplateFeil::ManglerToken => "mangler_token"@,
        HtmlTemplateFeil::DuplikatToken => "duplikat_token"@,
        HtmlTemplateFeil::DuplikatFelt => "duplikat_felt"@,
        HtmlTemplateFeil::TommeFelter => "tomme_felter"@,
        HtmlTemplateFeil::ManglerSaksnummer => "mangler_saksnummer"@,
    }
}

pub fn template_feil_melding(err: HtmlTemplateFeil) -> (r: &'static str)
    ensures
        r@ == template_message(err),
{
    match err {
        HtmlTemplateFeil::ForStor => "HTML-mal er for stor",
        HtmlTemplateFeil::UgyldigUtf8 => "HTML-mal er ikke gyldig UTF-8",
        HtmlTemplateFeil::UkjentToken => "HTML-mal inneholder ukjent token",
        HtmlTemplateFeil::ManglerToken => "HTML-mal mangler deklarert token",
        HtmlTemplateFeil::DuplikatToken => "HTML-mal inneholder duplikat token",
        HtmlTemplateFeil::DuplikatFelt => "Deklarerte felter inneholder duplikat",
        HtmlTemplateFeil::TommeFelter => "Deklarerte felter kan ikke være tomme",
        HtmlTemplateFeil::ManglerSaksnummer => "Saksnummer mangler",
    }
}

pub fn template_feil_kode(err: HtmlTemplateFeil) -> (r: &'static str)
    ensures
        r@ == template_code(err),
{
    match err {
        HtmlTemplateFeil::ForStor => "for_stor",
        HtmlTemplateFeil::UgyldigUtf8 => "ugyldig_utf8",
        HtmlTemplateFeil::UkjentToken => "ukjent_token",
        HtmlTemplateFeil::ManglerToken => "mangler_token",
        HtmlTemplateFeil::DuplikatToken => "duplikat_token",
        HtmlTemplateFeil::DuplikatFelt => "duplikat_felt",
        HtmlTemplateFeil::TommeFelter => "tomme_felter",
        HtmlTemplateFeil::ManglerSaksnummer => "mangler_saksnummer",
    }
}

// ---------------------------------------------------------------------------
// Render failure diagnostics
// ---------------------------------------------------------------------------

/// The diagnostic for a state update that failed after rendering.
pub open spec fn state_update_failed_text(operation: Seq<char>, err: Seq<char>) -> Seq<char> {
    "render_state_update_failed operation="@ + operation + " error=\""@ + embedded_error(err)
        + "\""@
}

/// A recoverable error for a failed state update, naming the operation and
/// carrying the sanitised, quoted error text.
pub fn render_state_update_failed(operation: &str, err: &str) -> (r: EksekveringFeil)
    ensures
        r.feiltype == crate::execution_detail::EksekveringFeiltype::Recoverable,
        r.melding@ == state_update_failed_text(operation@, err@),
{
    let mut out = chars_of("render_state_update_failed operation=");
    append_chars(&mut out, &chars_of(operation));
    append_chars(&mut out, &chars_of(" error=\""));
    append_chars(&mut out, &embedded_error_exec(err));
    append_chars(&mut out, &chars_of("\""));
    EksekveringFeil::recoverable(string_of(&out))
}

/// The diagnostic for a template whose fields could not be substituted.
pub open spec fn substitution_failed_text(err: HtmlTemplateFeil) -> Seq<char> {
    "render_token_substitution_failed reason="@ + template_code(err)
}

pub fn render_token_substitution_failed(err: HtmlTemplateFeil) -> (r: EksekveringFeil)
    ensures
        r.feiltype == crate::execution_detail::EksekveringFeiltype::Irrecoverable,
        r.melding@ == substitution_failed_text(err),
{
    let mut out = chars_of("render_token_substitution_failed reason=");
    append_chars(&mut out, &chars_of(template_feil_kode(err)));
    EksekveringFeil::irrecoverable(string_of(&out))
}

/// The diagnostic for a template that is missing from storage.
pub open spec fn template_missing_text(mal_referanse: u128) -> Seq<char> {
    "render_html_mal_mangler mal_referanse="@ + hyphenated(mal_referanse)
}

pub fn render_html_mal_mangler(mal_referanse: u128) -> (r: EksekveringFeil)
    ensures
        r.feiltype == crate::execution_detail::EksekveringFeiltype::Recoverable,
        r.melding@ == template_missing_text(mal_referanse),
{
    let mut out = chars_of("render_html_mal_mangler mal_referanse=");
    append_chars(&mut out, &chars_of(uuid_text(mal_referanse).as_str()));
    EksekveringFeil::recoverable(string_of(&out))
}

/// The diagnostic for a template storage that could not be read.
pub open spec fn template_store_unavailable_text(mal_referanse: u128, err: Seq<char>) -> Seq<
    char,
> {
    "render_html_mal_lager_unavailable mal_referanse="@ + hyphenated(mal_referanse) + " error=\""@
        + embedded_error(err) + "\""@
}

pub fn render_html_mal_lager_unavailable(mal_referanse: u128, err: &str) -> (r: EksekveringFeil)
    ensures
        r.feiltype == crate::execution_detail::EksekveringFeiltype::Recoverable,
        r.melding@ == template_store_unavailable_text(mal_referanse, err@),
{
    let mut out = chars_of("render_html_mal_lager_unavailable mal_referanse=");
    append_chars(&mut out, &chars_of(uuid_text(mal_referanse).as_str()));
    append_chars(&mut out, &chars_of(" error=\""));
    append_chars(&mut out, &embedded_error_exec(err));
    append_chars(&mut out, &chars_of("\""));
    EksekveringFeil::recoverable(string_of(&out))
}

/// The diagnostic for a rendered PDF that could not be stored.
pub open spec fn save_failed_text(rendered_id: u128, err: Seq<char>) -> Seq<char> {
    "rendered_dokument_save_failed rendered_id="@ + hyphenated(rendered_id) + " error=\""@
        + embedded_error(err) + "\""@
}

pub fn rendered_dokument_save_failed(rendered_id: u128, err: &str) -> (r: EksekveringFeil)
    ensures
        r.feiltype == crate::execution_detail::EksekveringFeiltype::Recoverable,
        r.melding@ == save_failed_text(rendered_id, err@),
{
    let mut out = chars_of("rendered_dokument_save_failed rendered_id=");
    append_chars(&mut out, &chars_of(uuid_text(rendered_id).as_str()));
    append_chars(&mut out, &chars_of(" error=\""));
    append_chars(&mut out, &embedded_error_exec(err));
    append_chars(&mut out, &chars_of("\""));
    EksekveringFeil::recoverable(string_of(&out))
}

/// The diagnostic for a document whose source is not an HTML template.
pub open spec fn not_template_text(dokument_id: u128, journalpost_id: u128) -> Seq<char> {
    "render_ikke_html_template dokument_id="@ + hyphenated(dokument_id) + " journalpost_id="@
        + hyphenated(journalpost_id)
}

pub fn render_ikke_html_template(dokument_id: u128, journalpost_id: u128) -> (r: EksekveringFeil)
    ensures
        r.feiltype == crate::execution_detail::EksekveringFeiltype::Irrecoverable,
        r.melding@ == not_template_text(dokument_id, journalpost_id),
{
    let mut out = chars_of("render_ikke_html_template dokument_id=");
    append_chars(&mut out, &chars_of(uuid_text(dokument_id).as_str()));
    append_chars(&mut out, &chars_of(" journalpost_id="));
    append_chars(&mut out, &chars_of(uuid_text(journalpost_id).as_str()));
    EksekveringFeil::irrecoverable(string_of(&out))
}

// ---------------------------------------------------------------------------
// Laws
// ---------------------------------------------------------------------------

/// A sanitised render error is at most 241 characters: 240 kept and `…`.
pub proof fn law_sanitized_render_error_bounded(d: Seq<char>)
    ensures
        sanitized_render_error(d).len() <= MAX_RENDER_ERROR_DETAIL + 1,
{
    crate::text::lemma_bounded_len(
        redacted(Rules::Diagnostic, normalize(d)),
        MAX_RENDER_ERROR_DETAIL as nat,
        "…"@,
    );
    reveal_strlit("…");
}

proof fn lemma_replace_char_escapes(s: Seq<char>, c: char, r: Seq<char>)
    requires
        r.len() == 2,
        r[0] != c,
        r[1] == c,
    ensures
        forall|i: int|
            0 <= i < replace_char(s, c, r).len() && #[trigger] replace_char(s, c, r)[i] == c ==> i
                > 0 && replace_char(s, c, r)[i - 1] == r[0],
    decreases s.len(),
{
    if s.len() > 0 {
        lemma_replace_char_escapes(s.drop_last(), c, r);
        let pre = replace_char(s.drop_last(), c, r);
        let tail = if s.last() == c {
            r
        } else {
            seq![s.last()]
        };
        let all = replace_char(s, c, r);
        assert(all == pre + tail);
        assert forall|i: int| 0 <= i < all.len() && #[trigger] all[i] == c implies i > 0 && all[i
            - 1] == r[0] by {
            if i < pre.len() {
                assert(all[i] == pre[i]);
                assert(all[i - 1] == pre[i - 1]);
            } else {
                assert(all[i] == tail[i - pre.len()]);
                if s.last() == c {
                    assert(i - pre.len() == 1);
                    assert(all[i - 1] == tail[0]);
                }
            }
        }
    }
}

/// In a quoted value every double quote is preceded by a backslash, so the
/// value cannot end the surrounding quotes early.
pub proof fn law_quoted_has_no_bare_quote(s: Seq<char>)
    ensures
        forall|i: int|
            0 <= i < quoted(s).len() && #[trigger] quoted(s)[i] == '"' ==> i > 0 && quoted(s)[i
                - 1] == '\\',
{
    lemma_replace_char_escapes(replace_char(s, '\\', seq!['\\', '\\']), '"', seq!['\\', '"']);
}

} // verus!
