//! Redacting credentials from whitespace-separated diagnostics.
//!
//! A token is sensitive when its lower-case form names a credential. A
//! sensitive token keeps at most its key (the part up to `=` or `:`), and the
//! tokens that follow `Bearer`, `Basic` or a `key:` are replaced as well.
use vstd::prelude::*;

use crate::text::{
    append_chars, chars_of, contains, contains_str, ends_with, ends_with_exec, equals_str,
    join_runs, join_words, lower, lower_exec, split_runs, starts_with, starts_with_str, views,
    words, Sep,
};

verus! {

/// The two rule sets in use: execution details and render diagnostics. They
/// agree on which tokens are sensitive, and differ in how many following
/// tokens are redacted and in how a sensitive token keeps its key.
#[derive(PartialEq, Eq, Structural, Clone, Copy, Debug)]
pub enum Rules {
    Execution,
    Diagnostic,
}

/// The lower-case token names a credential.
pub open spec fn is_sensitive(lower: Seq<char>) -> bool {
    ||| contains(lower, "authorization"@)
    ||| lower == "bearer"@
    ||| starts_with(lower, "bearer="@)
    ||| lower == "basic"@
    ||| starts_with(lower, "basic="@)
    ||| contains(lower, "password"@)
    ||| contains(lower, "passwd"@)
    ||| contains(lower, "credential"@)
    ||| contains(lower, "token"@)
    ||| contains(lower, "api_key"@)
    ||| contains(lower, "apikey"@)
    ||| contains(lower, "x-api-key"@)
    ||| contains(lower, "secret"@)
}

/// How many tokens after a sensitive token are replaced as well.
pub open spec fn following_count(rules: Rules, token: Seq<char>, lower: Seq<char>) -> nat {
    match rules {
        Rules::Execution => {
            if lower == "bearer"@ || lower == "basic"@ {
                1
            } else if contains(lower, "authorization"@) && ends_with(token, seq![':']) {
                2
            } else if ends_with(token, seq![':']) || token == seq!['='] {
                1
            } else {
                0
            }
        },
        Rules::Diagnostic => {
            if contains(lower, "authorization"@) && ends_with(token, seq![':']) {
                2
            } else if ends_with(token, seq![':']) || lower == "bearer"@ || lower == "basic"@ {
                1
            } else {
                0
            }
        },
    }
}

/// Position of the first `a` or `b` in `s` at or after `i`.
pub open spec fn first_of(s: Seq<char>, a: char, b: char, i: int) -> Option<int>
    decreases s.len() - i,
{
    if i < 0 || i >= s.len() {
        None
    } else if s[i] == a || s[i] == b {
        Some(i)
    } else {
        first_of(s, a, b, i + 1)
    }
}

/// The replacement for a sensitive token: its key and separator followed by
/// `redacted`, or `redacted` alone.
pub open spec fn redact_token(rules: Rules, token: Seq<char>) -> Seq<char> {
    match rules {
        Rules::Execution => match first_of(token, '=', ':', 0) {
            Some(idx) => token.take(idx + 1) + "redacted"@,
            None => "redacted"@,
        },
        Rules::Diagnostic => match first_of(token, '=', '=', 0) {
            Some(idx) => token.take(idx) + "=redacted"@,
            None => match first_of(token, ':', ':', 0) {
                Some(idx) => token.take(idx) + ":redacted"@,
                None => "redacted"@,
            },
        },
    }
}

/// Redaction of a token sequence, with `pending` tokens still to be replaced
/// after an earlier sensitive token.
pub open spec fn redact_from(rules: Rules, ts: Seq<Seq<char>>, pending: nat) -> Seq<Seq<char>>
    decreases ts.len(),
{
    if ts.len() == 0 {
        Seq::empty()
    } else if pending > 0 {
        seq!["redacted"@] + redact_from(rules, ts.drop_first(), (pending - 1) as nat)
    } else {
        let t = ts[0];
        let l = lower(t);
        if is_sensitive(l) {
            seq![redact_token(rules, t)] + redact_from(
                rules,
                ts.drop_first(),
                following_count(rules, t, l),
            )
        } else {
            seq![t] + redact_from(rules, ts.drop_first(), 0)
        }
    }
}

/// The detail split at whitespace, redacted token by token and joined with
/// single spaces.
pub open spec fn redacted(rules: Rules, d: Seq<char>) -> Seq<char> {
    join_words(redact_from(rules, words(d), 0))
}

pub fn is_sensitive_token(lower: &Vec<char>) -> (r: bool)
    ensures
        r == is_sensitive(lower@),
{
    contains_str(lower, "authorization") || equals_str(lower, "bearer") || starts_with_str(
        lower,
        "bearer=",
    ) || equals_str(lower, "basic") || starts_with_str(lower, "basic=") || contains_str(
        lower,
        "password",
    ) || contains_str(lower, "passwd") || contains_str(lower, "credential") || contains_str(
        lower,
        "token",
    ) || contains_str(lower, "api_key") || contains_str(lower, "apikey") || contains_str(
        lower,
        "x-api-key",
    ) || contains_str(lower, "secret")
}

pub fn sensitive_following_token_count(rules: Rules, token: &Vec<char>, lower: &Vec<char>) -> (r:
    usize)
    ensures
        r as nat == following_count(rules, token@, lower@),
{
    let colon = vec![':'];
    assert(colon@ == seq![':']);
    let ends_colon = ends_with_exec(token, &colon);
    let is_bearer = equals_str(lower, "bearer");
    let is_basic = equals_str(lower, "basic");
    match rules {
        Rules::Execution => {
            if is_bearer || is_basic {
                1
            } else if contains_str(lower, "authorization") && ends_colon {
                2
            } else {
                let is_eq = token.len() == 1 && token[0] == '=';
                assert(is_eq == (token@ == seq!['='])) by {
                    if token@ == seq!['='] {
                        assert(token@[0] == '=');
                    }
                    if is_eq {
                        assert(token@ =~= seq!['=']);
                    }
                }
                if ends_colon || is_eq {
                    1
                } else {
                    0
                }
            }
        },
        Rules::Diagnostic => {
            if contains_str(lower, "authorization") && ends_colon {
                2
            } else if ends_colon || is_bearer || is_basic {
                1
            } else {
                0
            }
        },
    }
}

fn first_of_exec(s: &Vec<char>, a: char, b: char) -> (r: Option<usize>)
    ensures
        r matches Some(k) ==> first_of(s@, a, b, 0) == Some(k as int),
        r is None ==> first_of(s@, a, b, 0) is None,
{
    let mut i: usize = 0;
    while i < s.len()
        invariant
            i <= s.len(),
            first_of(s@, a, b, 0) == first_of(s@, a, b, i as int),
        decreases s.len() - i,
    {
        if s[i] == a || s[i] == b {
            return Some(i);
        }
        i = i + 1;
    }
    None
}

proof fn lemma_first_of(s: Seq<char>, a: char, b: char, i: int)
    requires
        0 <= i,
    ensures
        first_of(s, a, b, i) matches Some(k) ==> i <= k < s.len(),
    decreases s.len() - i,
{
    if i < s.len() && !(s[i] == a || s[i] == b) {
        lemma_first_of(s, a, b, i + 1);
    }
}

fn take_chars(s: &Vec<char>, n: usize) -> (r: Vec<char>)
    requires
        n <= s.len(),
    ensures
        r@ == s@.take(n as int),
{
    let mut out: Vec<char> = Vec::new();
    let mut i: usize = 0;
    while i < n
        invariant
            i <= n <= s.len(),
            out@ == s@.take(i as int),
        decreases n - i,
    {
        out.push(s[i]);
        i = i + 1;
        assert(out@ =~= s@.take(i as int));
    }
    out
}

pub fn redact_sensitive_token(rules: Rules, token: &Vec<char>) -> (r: Vec<char>)
    ensures
        r@ == redact_token(rules, token@),
{
    let n = token.len();
    match rules {
        Rules::Execution => match first_of_exec(token, '=', ':') {
            Some(idx) => {
                proof {
                    lemma_first_of(token@, '=', ':', 0);
                }
                let mut out = take_chars(token, idx + 1);
                append_chars(&mut out, &chars_of("redacted"));
                out
            },
            None => chars_of("redacted"),
        },
        Rules::Diagnostic => match first_of_exec(token, '=', '=') {
            Some(idx) => {
                proof {
                    lemma_first_of(token@, '=', '=', 0);
                }
                let mut out = take_chars(token, idx);
                append_chars(&mut out, &chars_of("=redacted"));
                out
            },
            None => match first_of_exec(token, ':', ':') {
                Some(idx) => {
                    proof {
                        lemma_first_of(token@, ':', ':', 0);
                    }
                    let mut out = take_chars(token, idx);
                    append_chars(&mut out, &chars_of(":redacted"));
                    out
                },
                None => chars_of("redacted"),
            },
        },
    }
}

/// Redacts the whitespace-separated tokens of `detail` and joins them with
/// single spaces.
pub fn redact_tokens(rules: Rules, detail: &Vec<char>) -> (r: Vec<char>)
    ensures
        r@ == redacted(rules, detail@),
{
    let tokens = split_runs(detail, Sep::Whitespace);
    let ghost ts = views(tokens@);
    let mut out: Vec<Vec<char>> = Vec::new();
    let mut pending: usize = 0;
    let mut i: usize = 0;
    assert(ts.skip(0) == ts);
    while i < tokens.len()
        invariant
            i <= tokens.len(),
            ts == views(tokens@),
            ts == words(detail@),
            views(out@) + redact_from(rules, ts.skip(i as int), pending as nat) == redact_from(
                rules,
                ts,
                0,
            ),
        decreases tokens.len() - i,
    {
        let ghost rest = ts.skip(i as int);
        assert(rest.drop_first() == ts.skip(i + 1));
        assert(rest[0] == tokens@[i as int]@);
        let ghost before = views(out@);
        if pending > 0 {
            out.push(chars_of("redacted"));
            pending = pending - 1;
        } else {
            let token = &tokens[i];
            let low = lower_exec(token);
            if is_sensitive_token(&low) {
                out.push(redact_sensitive_token(rules, token));
                pending = sensitive_following_token_count(rules, token, &low);
            } else {
                out.push(token.clone());
            }
        }
        assert(views(out@) == before.push(views(out@).last()));
        assert(views(out@) + redact_from(rules, ts.skip(i + 1), pending as nat) == before + (seq![
            views(out@).last()] + redact_from(rules, ts.skip(i + 1), pending as nat)));
        i = i + 1;
    }
    assert(views(out@) + redact_from(rules, ts.skip(i as int), pending as nat) == views(out@));
    join_runs(&out)
}


// ---------------------------------------------------------------------------
// Laws
// ---------------------------------------------------------------------------

proof fn lemma_ends_with_suffix(x: Seq<char>, r: Seq<char>)
    ensures
        ends_with(x + r, r),
{
    let s = x + r;
    assert forall|j: int| 0 <= j < r.len() implies #[trigger] s[(s.len() - r.len()) + j] == r[j] by {
        assert(s[x.len() + j] == r[j]);
    }
}

/// A sensitive token's replacement always ends in `redacted`.
pub proof fn lemma_redact_token_ends(rules: Rules, t: Seq<char>)
    ensures
        ends_with(redact_token(rules, t), "redacted"@),
{
    reveal_strlit("redacted");
    reveal_strlit("=redacted");
    reveal_strlit(":redacted");
    assert("redacted"@ =~= Seq::<char>::empty() + "redacted"@);
    lemma_ends_with_suffix(Seq::<char>::empty(), "redacted"@);
    match rules {
        Rules::Execution => match first_of(t, '=', ':', 0) {
            Some(idx) => lemma_ends_with_suffix(t.take(idx + 1), "redacted"@),
            None => {},
        },
        Rules::Diagnostic => match first_of(t, '=', '=', 0) {
            Some(idx) => {
                assert(t.take(idx) + "=redacted"@ =~= (t.take(idx) + seq!['=']) + "redacted"@);
                lemma_ends_with_suffix(t.take(idx) + seq!['='], "redacted"@);
            },
            None => match first_of(t, ':', ':', 0) {
                Some(idx) => {
                    assert(t.take(idx) + ":redacted"@ =~= (t.take(idx) + seq![':'])
                        + "redacted"@);
                    lemma_ends_with_suffix(t.take(idx) + seq![':'], "redacted"@);
                },
                None => {},
            },
        },
    }
}

proof fn lemma_redact_from(rules: Rules, ts: Seq<Seq<char>>, pending: nat)
    ensures
        redact_from(rules, ts, pending).len() == ts.len(),
        forall|i: int|
            0 <= i < ts.len() && i < pending ==> #[trigger] redact_from(rules, ts, pending)[i]
                == "redacted"@,
        forall|i: int|
            0 <= i < ts.len() && is_sensitive(lower(#[trigger] ts[i])) ==> ends_with(
                redact_from(rules, ts, pending)[i],
                "redacted"@,
            ),
        forall|i: int|
            0 <= i < ts.len() ==> #[trigger] redact_from(rules, ts, pending)[i] == ts[i] || ends_with(
                redact_from(rules, ts, pending)[i],
                "redacted"@,
            ),
    decreases ts.len(),
{
    if ts.len() > 0 {
        let t = ts[0];
        let l = lower(t);
        let next = if pending > 0 {
            (pending - 1) as nat
        } else if is_sensitive(l) {
            following_count(rules, t, l)
        } else {
            0
        };
        lemma_redact_from(rules, ts.drop_first(), next);
        let out = redact_from(rules, ts, pending);
        let rest = redact_from(rules, ts.drop_first(), next);
        let head = if pending > 0 {
            "redacted"@
        } else if is_sensitive(l) {
            redact_token(rules, t)
        } else {
            t
        };
        assert(out == seq![head] + rest);
        lemma_redact_token_ends(rules, t);
        lemma_redact_token_ends(rules, "redacted"@);
        reveal_strlit("redacted");
        assert(ends_with("redacted"@, "redacted"@)) by {
            assert("redacted"@ =~= Seq::<char>::empty() + "redacted"@);
            lemma_ends_with_suffix(Seq::<char>::empty(), "redacted"@);
        }
        assert forall|i: int| 0 < i < ts.len() implies out[i] == rest[i - 1] && ts[i]
            == ts.drop_first()[i - 1] by {}
    }
}

/// Redaction replaces the tokens one for one; the first `pending` tokens
/// become `redacted`; every sensitive token comes out ending in `redacted`;
/// and every other token comes out unchanged or ending in `redacted`.
pub proof fn law_redaction(rules: Rules, ts: Seq<Seq<char>>, pending: nat)
    ensures
        redact_from(rules, ts, pending).len() == ts.len(),
        forall|i: int|
            0 <= i < ts.len() && i < pending ==> #[trigger] redact_from(rules, ts, pending)[i]
                == "redacted"@,
        forall|i: int|
            0 <= i < ts.len() && is_sensitive(lower(#[trigger] ts[i])) ==> ends_with(
                redact_from(rules, ts, pending)[i],
                "redacted"@,
            ),
        forall|i: int|
            0 <= i < ts.len() ==> #[trigger] redact_from(rules, ts, pending)[i] == ts[i] || ends_with(
                redact_from(rules, ts, pending)[i],
                "redacted"@,
            ),
{
    lemma_redact_from(rules, ts, pending);
}

/// Tokens none of which is sensitive pass through unchanged.
pub proof fn lemma_redact_from_clean(rules: Rules, ts: Seq<Seq<char>>)
    requires
        forall|i: int| 0 <= i < ts.len() ==> !is_sensitive(lower(#[trigger] ts[i])),
    ensures
        redact_from(rules, ts, 0) == ts,
    decreases ts.len(),
{
    if ts.len() > 0 {
        let rest = ts.drop_first();
        assert forall|i: int| 0 <= i < rest.len() implies !is_sensitive(lower(#[trigger] rest[i])) by {
            assert(rest[i] == ts[i + 1]);
        }
        lemma_redact_from_clean(rules, rest);
        assert(!is_sensitive(lower(ts[0])));
        assert(seq![ts[0]] + rest =~= ts);
    }
}

proof fn lemma_first_of_found(s: Seq<char>, a: char, b: char, i: int)
    requires
        0 <= i,
    ensures
        first_of(s, a, b, i) matches Some(k) ==> i <= k < s.len() && (s[k] == a || s[k] == b) && forall|j: int|
            i <= j < k ==> s[j] != a && s[j] != b,
        first_of(s, a, b, i) is None ==> forall|j: int| i <= j < s.len() ==> s[j] != a && s[j] != b,
    decreases s.len() - i,
{
    if i < s.len() && !(s[i] == a || s[i] == b) {
        lemma_first_of_found(s, a, b, i + 1);
    }
}

/// A sensitive token comes out as `redacted` or as its own replacement.
proof fn lemma_redact_from_sensitive(rules: Rules, ts: Seq<Seq<char>>, pending: nat)
    ensures
        redact_from(rules, ts, pending).len() == ts.len(),
        forall|i: int|
            0 <= i < ts.len() && is_sensitive(lower(#[trigger] ts[i])) ==> redact_from(rules, ts, pending)[i]
                == "redacted"@ || redact_from(rules, ts, pending)[i] == redact_token(rules, ts[i]),
    decreases ts.len(),
{
    if ts.len() > 0 {
        let t = ts[0];
        let l = lower(t);
        let next = if pending > 0 {
            (pending - 1) as nat
        } else if is_sensitive(l) {
            following_count(rules, t, l)
        } else {
            0
        };
        lemma_redact_from_sensitive(rules, ts.drop_first(), next);
        let out = redact_from(rules, ts, pending);
        let rest = redact_from(rules, ts.drop_first(), next);
        let head = if pending > 0 {
            "redacted"@
        } else if is_sensitive(l) {
            redact_token(rules, t)
        } else {
            t
        };
        assert(out == seq![head] + rest);
        assert forall|i: int| 0 < i < ts.len() implies out[i] == rest[i - 1] && ts[i]
            == ts.drop_first()[i - 1] by {}
    }
}

/// A credential is never published. Every token whose lower-case form names
/// a credential (it contains `authorization`, `password`, `passwd`,
/// `credential`, `token`, `api_key`, `apikey`, `x-api-key` or `secret`, or it
/// is `bearer` or `basic`, alone or with `=`) comes out of execution-error
/// redaction, in its place, as nothing but its key up to and including the
/// first `=` or `:`, followed by `redacted`: whatever followed that separator
/// is gone.
pub proof fn law_credentials_are_redacted(ts: Seq<Seq<char>>, pending: nat, i: int)
    requires
        0 <= i < ts.len(),
        ({
            let l = lower(ts[i]);
            ||| contains(l, "authorization"@)
            ||| contains(l, "password"@)
            ||| contains(l, "passwd"@)
            ||| contains(l, "credential"@)
            ||| contains(l, "token"@)
            ||| contains(l, "api_key"@)
            ||| contains(l, "apikey"@)
            ||| contains(l, "x-api-key"@)
            ||| contains(l, "secret"@)
            ||| l == "bearer"@
            ||| l == "basic"@
            ||| starts_with(l, "bearer="@)
            ||| starts_with(l, "basic="@)
        }),
    ensures
        redact_from(Rules::Execution, ts, pending).len() == ts.len(),
        exists|k: int|
            0 <= k <= ts[i].len() && #[trigger] redact_from(Rules::Execution, ts, pending)[i] == ts[i].take(k)
                + "redacted"@ && (forall|j: int| 0 <= j < k - 1 ==> ts[i][j] != '=' && ts[i][j] != ':') && (k > 0
                ==> (ts[i][k - 1] == '=' || ts[i][k - 1] == ':')),
{
    let t = ts[i];
    assert(is_sensitive(lower(t)));
    lemma_redact_from_sensitive(Rules::Execution, ts, pending);
    let out = redact_from(Rules::Execution, ts, pending)[i];
    lemma_first_of_found(t, '=', ':', 0);
    if out == "redacted"@ {
        assert(t.take(0) + "redacted"@ =~= "redacted"@);
        assert(out == t.take(0) + "redacted"@);
    } else {
        assert(out == redact_token(Rules::Execution, t));
        match first_of(t, '=', ':', 0) {
            Some(idx) => {
                assert(out == t.take(idx + 1) + "redacted"@);
                assert(t[(idx + 1) - 1] == '=' || t[(idx + 1) - 1] == ':');
            },
            None => {
                assert(t.take(0) + "redacted"@ =~= "redacted"@);
                assert(out == t.take(0) + "redacted"@);
            },
        }
    }
}

} // verus!
