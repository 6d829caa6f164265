//! Character-level text operations with exact specifications.
//!
//! Every operation works on the character sequence of a string (`Seq<char>`),
//! and each executable function is proved equal to its spec counterpart.
use vstd::prelude::*;

verus! {

/// Appending one character to a `String` (`String::push`) extends its
/// character sequence by exactly that character.
pub assume_specification[ String::push ](s: &mut String, ch: char)
    ensures
        final(s)@ == old(s)@.push(ch),
;

// ---------------------------------------------------------------------------
// Character classes
// ---------------------------------------------------------------------------

/// Unicode `White_Space`, the property behind `char::is_whitespace`.
pub open spec fn is_ws(c: char) -> bool {
    let n = c as u32;
    ||| 0x09 <= n <= 0x0D
    ||| n == 0x20
    ||| n == 0x85
    ||| n == 0xA0
    ||| n == 0x1680
    ||| 0x2000 <= n <= 0x200A
    ||| n == 0x2028
    ||| n == 0x2029
    ||| n == 0x202F
    ||| n == 0x205F
    ||| n == 0x3000
}

/// Unicode general category `Cc`, the property behind `char::is_control`.
pub open spec fn is_control(c: char) -> bool {
    let n = c as u32;
    n <= 0x1F || (0x7F <= n <= 0x9F)
}

/// ASCII letters, ASCII digits and `_`.
pub open spec fn is_code_char(c: char) -> bool {
    ||| ('a' <= c && c <= 'z')
    ||| ('A' <= c && c <= 'Z')
    ||| ('0' <= c && c <= '9')
    ||| c == '_'
}

/// `char::to_ascii_lowercase`.
pub open spec fn lower_char(c: char) -> char {
    if 'A' <= c && c <= 'Z' {
        ((c as u32) + 32) as char
    } else {
        c
    }
}

pub fn whitespace(c: char) -> (r: bool)
    ensures
        r == is_ws(c),
{
    let n = c as u32;
    (0x09 <= n && n <= 0x0D) || n == 0x20 || n == 0x85 || n == 0xA0 || n == 0x1680 || (0x2000
        <= n && n <= 0x200A) || n == 0x2028 || n == 0x2029 || n == 0x202F || n == 0x205F || n
        == 0x3000
}

pub fn control(c: char) -> (r: bool)
    ensures
        r == is_control(c),
{
    let n = c as u32;
    n <= 0x1F || (0x7F <= n && n <= 0x9F)
}

pub fn code_char(c: char) -> (r: bool)
    ensures
        r == is_code_char(c),
{
    ('a' <= c && c <= 'z') || ('A' <= c && c <= 'Z') || ('0' <= c && c <= '9') || c == '_'
}

pub fn to_lower(c: char) -> (r: char)
    ensures
        r == lower_char(c),
{
    if 'A' <= c && c <= 'Z' {
        let b: u8 = c as u8;
        (b + 32) as char
    } else {
        c
    }
}

// ---------------------------------------------------------------------------
// Conversions between strings and character vectors
// ---------------------------------------------------------------------------

/// The characters of a string slice, in order.
pub fn chars_of(s: &str) -> (v: Vec<char>)
    ensures
        v@ == s@,
{
    let mut v: Vec<char> = Vec::new();
    for c in it: s.chars()
        invariant
            v@ == it.seq().take(it.index() as int),
            it.seq() == s@,
    {
        v.push(c);
    }
    v
}

/// A `String` holding exactly the given characters.
pub fn string_of(v: &Vec<char>) -> (s: String)
    ensures
        s@ == v@,
{
    let mut s = String::new();
    let mut i: usize = 0;
    while i < v.len()
        invariant
            i <= v.len(),
            s@ == v@.take(i as int),
        decreases v.len() - i,
    {
        s.push(v[i]);
        i = i + 1;
        assert(v@.take(i as int) == v@.take((i - 1) as int).push(v@[i - 1]));
    }
    assert(v@.take(v.len() as int) == v@);
    s
}

/// Appends all of `b` to `a`.
pub fn append_chars(a: &mut Vec<char>, b: &Vec<char>)
    ensures
        final(a)@ == old(a)@ + b@,
{
    let mut i: usize = 0;
    while i < b.len()
        invariant
            i <= b.len(),
            a@ == old(a)@ + b@.take(i as int),
        decreases b.len() - i,
    {
        a.push(b[i]);
        i = i + 1;
        assert(b@.take(i as int) == b@.take((i - 1) as int).push(b@[i - 1]));
    }
    assert(b@.take(b.len() as int) == b@);
}

// ---------------------------------------------------------------------------
// Matching
// ---------------------------------------------------------------------------

/// `p` occurs in `s` starting at position `i`.
pub open spec fn matches_at(s: Seq<char>, i: int, p: Seq<char>) -> bool {
    &&& 0 <= i
    &&& i + p.len() <= s.len()
    &&& forall|j: int| 0 <= j < p.len() ==> #[trigger] s[i + j] == p[j]
}

/// `str::starts_with`.
pub open spec fn starts_with(s: Seq<char>, p: Seq<char>) -> bool {
    matches_at(s, 0, p)
}

/// `str::ends_with`.
pub open spec fn ends_with(s: Seq<char>, p: Seq<char>) -> bool {
    matches_at(s, s.len() - p.len(), p)
}

/// `str::contains`.
pub open spec fn contains(s: Seq<char>, p: Seq<char>) -> bool {
    exists|i: int| matches_at(s, i, p)
}

/// The first position at or after `i` where `p` occurs (`str::find` when
/// `i` is zero).
pub open spec fn find_from(s: Seq<char>, p: Seq<char>, i: int) -> Option<int>
    decreases s.len() + 1 - i,
{
    if i < 0 || i > s.len() {
        None
    } else if matches_at(s, i, p) {
        Some(i)
    } else {
        find_from(s, p, i + 1)
    }
}

pub open spec fn find(s: Seq<char>, p: Seq<char>) -> Option<int> {
    find_from(s, p, 0)
}

pub fn matches_at_exec(s: &Vec<char>, i: usize, p: &Vec<char>) -> (r: bool)
    ensures
        r == matches_at(s@, i as int, p@),
{
    if p.len() > s.len() || i > s.len() - p.len() {
        return false;
    }
    let mut j: usize = 0;
    while j < p.len()
        invariant
            j <= p.len(),
            i + p.len() <= s.len(),
            forall|k: int| 0 <= k < j ==> #[trigger] s@[i + k] == p@[k],
        decreases p.len() - j,
    {
        if s[i + j] != p[j] {
            assert(s@[i + j as int] != p@[j as int]);
            return false;
        }
        j = j + 1;
    }
    true
}

pub fn starts_with_exec(s: &Vec<char>, p: &Vec<char>) -> (r: bool)
    ensures
        r == starts_with(s@, p@),
{
    matches_at_exec(s, 0, p)
}

pub fn ends_with_exec(s: &Vec<char>, p: &Vec<char>) -> (r: bool)
    ensures
        r == ends_with(s@, p@),
{
    if p.len() > s.len() {
        return false;
    }
    matches_at_exec(s, s.len() - p.len(), p)
}

/// `find_from` is `None` exactly when no match lies at or after `i`.
pub proof fn lemma_find_from(s: Seq<char>, p: Seq<char>, i: int)
    requires
        0 <= i <= s.len() + 1,
    ensures
        find_from(s, p, i) matches Some(k) ==> i <= k && matches_at(s, k, p) && forall|m: int|
            i <= m < k ==> !matches_at(s, m, p),
        find_from(s, p, i) is None ==> forall|m: int| i <= m ==> !matches_at(s, m, p),
    decreases s.len() + 1 - i,
{
    if i > s.len() {
    } else if matches_at(s, i, p) {
    } else {
        lemma_find_from(s, p, i + 1);
    }
}

/// The first occurrence of `p` in `s` at or after `start`.
pub fn find_exec(s: &Vec<char>, p: &Vec<char>, start: usize) -> (r: Option<usize>)
    requires
        start <= s.len(),
    ensures
        r matches Some(k) ==> find_from(s@, p@, start as int) == Some(k as int),
        r is None ==> find_from(s@, p@, start as int) is None,
{
    let mut i: usize = start;
    while i < s.len()
        invariant
            start <= i <= s.len(),
            find_from(s@, p@, start as int) == find_from(s@, p@, i as int),
        decreases s.len() - i,
    {
        if matches_at_exec(s, i, p) {
            return Some(i);
        }
        i = i + 1;
    }
    if matches_at_exec(s, i, p) {
        return Some(i);
    }
    assert(find_from(s@, p@, i + 1) is None);
    None
}

pub fn contains_exec(s: &Vec<char>, p: &Vec<char>) -> (r: bool)
    ensures
        r == contains(s@, p@),
{
    let found = find_exec(s, p, 0);
    proof {
        lemma_find_from(s@, p@, 0);
    }
    found.is_some()
}

pub fn contains_str(s: &Vec<char>, p: &str) -> (r: bool)
    ensures
        r == contains(s@, p@),
{
    let pv = chars_of(p);
    contains_exec(s, &pv)
}

pub fn starts_with_str(s: &Vec<char>, p: &str) -> (r: bool)
    ensures
        r == starts_with(s@, p@),
{
    let pv = chars_of(p);
    starts_with_exec(s, &pv)
}

pub fn equals_str(s: &Vec<char>, p: &str) -> (r: bool)
    ensures
        r == (s@ == p@),
{
    let pv = chars_of(p);
    if s.len() != pv.len() {
        return false;
    }
    let r = starts_with_exec(s, &pv);
    if r {
        assert forall|j: int| 0 <= j < s@.len() implies s@[j] == pv@[j] by {
            assert(s@[0 + j] == pv@[j]);
        }
        assert(s@ =~= pv@);
    }
    r
}

// ---------------------------------------------------------------------------
// Replacing
// ---------------------------------------------------------------------------

/// `s.replace(p, "")`: every non-overlapping occurrence of `p`, scanning from
/// the left, is removed.
pub open spec fn remove_all(s: Seq<char>, p: Seq<char>) -> Seq<char>
    decreases s.len(),
{
    if s.len() == 0 {
        s
    } else if p.len() > 0 && starts_with(s, p) {
        remove_all(s.skip(p.len() as int), p)
    } else {
        seq![s[0]] + remove_all(s.skip(1), p)
    }
}

pub fn remove_all_exec(s: &Vec<char>, p: &Vec<char>) -> (r: Vec<char>)
    ensures
        r@ == remove_all(s@, p@),
{
    let mut out: Vec<char> = Vec::new();
    let mut i: usize = 0;
    assert(s@.skip(0) == s@);
    assert(out@ + remove_all(s@, p@) == remove_all(s@, p@));
    while i < s.len()
        invariant
            i <= s.len(),
            out@ + remove_all(s@.skip(i as int), p@) == remove_all(s@, p@),
        decreases s.len() - i,
    {
        let ghost rest = s@.skip(i as int);
        if p.len() > 0 && matches_at_exec(s, i, p) {
            assert(starts_with(rest, p@)) by {
                assert forall|j: int| 0 <= j < p@.len() implies #[trigger] rest[0 + j] == p@[j] by {
                    assert(s@[i + j] == p@[j]);
                }
            }
            assert(rest.skip(p@.len() as int) == s@.skip(i + p.len()));
            i = i + p.len();
        } else {
            assert(!(p@.len() > 0 && starts_with(rest, p@))) by {
                if p@.len() > 0 && starts_with(rest, p@) {
                    assert(matches_at(s@, i as int, p@)) by {
                        assert forall|j: int| 0 <= j < p@.len() implies #[trigger] s@[i + j]
                            == p@[j] by {
                            assert(rest[0 + j] == p@[j]);
                        }
                    }
                }
            }
            assert(rest.skip(1) == s@.skip(i + 1));
            assert(seq![s@[i as int]] == seq![rest[0]]);
            out.push(s[i]);
            assert(out@ + remove_all(s@.skip(i + 1), p@) == (out@.drop_last() + seq![rest[0]])
                + remove_all(rest.skip(1), p@));
            i = i + 1;
        }
    }
    assert(s@.skip(i as int).len() == 0);
    assert(out@ + remove_all(s@.skip(i as int), p@) == out@);
    out
}

// ---------------------------------------------------------------------------
// Splitting into runs and joining
// ---------------------------------------------------------------------------

/// Which characters separate runs.
pub enum Sep {
    /// `str::split_whitespace`.
    Whitespace,
    /// Everything but ASCII letters, digits and `_`.
    NonCode,
}

pub open spec fn is_sep(m: Sep, c: char) -> bool {
    match m {
        Sep::Whitespace => is_ws(c),
        Sep::NonCode => !is_code_char(c),
    }
}

/// Left-to-right scan: the finished runs and the run under construction.
pub open spec fn split_state(s: Seq<char>, m: Sep) -> (Seq<Seq<char>>, Seq<char>)
    decreases s.len(),
{
    if s.len() == 0 {
        (Seq::empty(), Seq::empty())
    } else {
        let (done, cur) = split_state(s.drop_last(), m);
        if is_sep(m, s.last()) {
            if cur.len() > 0 {
                (done.push(cur), Seq::empty())
            } else {
                (done, Seq::empty())
            }
        } else {
            (done, cur.push(s.last()))
        }
    }
}

/// The maximal non-empty runs of non-separator characters, in order.
pub open spec fn runs(s: Seq<char>, m: Sep) -> Seq<Seq<char>> {
    let (done, cur) = split_state(s, m);
    if cur.len() > 0 {
        done.push(cur)
    } else {
        done
    }
}

/// `str::split_whitespace`.
pub open spec fn words(s: Seq<char>) -> Seq<Seq<char>> {
    runs(s, Sep::Whitespace)
}

/// The runs joined with one space between consecutive runs.
pub open spec fn join_words(ws: Seq<Seq<char>>) -> Seq<char>
    decreases ws.len(),
{
    if ws.len() == 0 {
        Seq::empty()
    } else if ws.len() == 1 {
        ws[0]
    } else {
        join_words(ws.drop_last()) + seq![' '] + ws.last()
    }
}

pub open spec fn views(v: Seq<Vec<char>>) -> Seq<Seq<char>> {
    v.map_values(|w: Vec<char>| w@)
}

pub fn split_runs(s: &Vec<char>, m: Sep) -> (r: Vec<Vec<char>>)
    ensures
        views(r@) == runs(s@, m),
{
    let mut done: Vec<Vec<char>> = Vec::new();
    let mut cur: Vec<char> = Vec::new();
    let mut i: usize = 0;
    while i < s.len()
        invariant
            i <= s.len(),
            split_state(s@.take(i as int), m) == (views(done@), cur@),
        decreases s.len() - i,
    {
        let c = s[i];
        let sep = match m {
            Sep::Whitespace => whitespace(c),
            Sep::NonCode => !code_char(c),
        };
        assert(s@.take(i + 1).drop_last() == s@.take(i as int));
        assert(s@.take(i + 1).last() == c);
        if sep {
            if cur.len() > 0 {
                let finished = cur;
                cur = Vec::new();
                let ghost before = done@;
                done.push(finished);
                assert(views(done@) == views(before).push(finished@));
            }
        } else {
            cur.push(c);
        }
        i = i + 1;
    }
    assert(s@.take(s.len() as int) == s@);
    if cur.len() > 0 {
        let ghost before = done@;
        done.push(cur);
        assert(views(done@) == views(before).push(cur@));
    }
    done
}

pub fn join_runs(ws: &Vec<Vec<char>>) -> (r: Vec<char>)
    ensures
        r@ == join_words(views(ws@)),
{
    let mut out: Vec<char> = Vec::new();
    let mut i: usize = 0;
    while i < ws.len()
        invariant
            i <= ws.len(),
            out@ == join_words(views(ws@).take(i as int)),
        decreases ws.len() - i,
    {
        let ghost vs = views(ws@);
        assert(vs.take(i + 1).drop_last() == vs.take(i as int));
        assert(vs.take(i + 1).last() == ws@[i as int]@);
        if i > 0 {
            out.push(' ');
        } else {
            assert(vs.take(1)[0] == ws@[0]@);
        }
        append_chars(&mut out, &ws[i]);
        i = i + 1;
    }
    assert(views(ws@).take(ws.len() as int) == views(ws@));
    out
}

// ---------------------------------------------------------------------------
// Normalising whitespace
// ---------------------------------------------------------------------------

/// Every control character replaced by a space.
pub open spec fn controls_to_spaces(s: Seq<char>) -> Seq<char> {
    s.map_values(|c: char| if is_control(c) { ' ' } else { c })
}

/// Control characters become spaces, whitespace runs collapse to one space,
/// and leading and trailing whitespace is dropped.
pub open spec fn normalize(s: Seq<char>) -> Seq<char> {
    join_words(words(controls_to_spaces(s)))
}

pub fn normalize_exec(s: &Vec<char>) -> (r: Vec<char>)
    ensures
        r@ == normalize(s@),
{
    let mut mapped: Vec<char> = Vec::new();
    let mut i: usize = 0;
    while i < s.len()
        invariant
            i <= s.len(),
            mapped@ == controls_to_spaces(s@.take(i as int)),
        decreases s.len() - i,
    {
        let c = s[i];
        if control(c) {
            mapped.push(' ');
        } else {
            mapped.push(c);
        }
        i = i + 1;
        assert(mapped@ =~= controls_to_spaces(s@.take(i as int)));
    }
    assert(s@.take(s.len() as int) == s@);
    let ws = split_runs(&mapped, Sep::Whitespace);
    join_runs(&ws)
}

/// `split_whitespace` followed by joining with single spaces.
pub fn collapse_whitespace(s: &Vec<char>) -> (r: Vec<char>)
    ensures
        r@ == join_words(words(s@)),
{
    let ws = split_runs(s, Sep::Whitespace);
    join_runs(&ws)
}

// ---------------------------------------------------------------------------
// Trimming, truncating, lower-casing
// ---------------------------------------------------------------------------

/// `str::trim_end`.
pub open spec fn trim_end(s: Seq<char>) -> Seq<char>
    decreases s.len(),
{
    if s.len() > 0 && is_ws(s.last()) {
        trim_end(s.drop_last())
    } else {
        s
    }
}

/// `str::trim_start`.
pub open spec fn trim_start(s: Seq<char>) -> Seq<char>
    decreases s.len(),
{
    if s.len() > 0 && is_ws(s[0]) {
        trim_start(s.drop_first())
    } else {
        s
    }
}

/// `str::trim`.
pub open spec fn trim(s: Seq<char>) -> Seq<char> {
    trim_start(trim_end(s))
}

pub fn trim_end_exec(s: &Vec<char>) -> (r: Vec<char>)
    ensures
        r@ == trim_end(s@),
{
    let mut n: usize = s.len();
    assert(s@.take(n as int) == s@);
    while n > 0 && whitespace(s[n - 1])
        invariant
            n <= s.len(),
            trim_end(s@) == trim_end(s@.take(n as int)),
        decreases n,
    {
        assert(s@.take(n as int).drop_last() == s@.take(n - 1));
        n = n - 1;
    }
    assert(s@.take(n as int) == s@.subrange(0, n as int));
    let mut out: Vec<char> = Vec::new();
    let mut i: usize = 0;
    while i < n
        invariant
            i <= n <= s.len(),
            out@ == s@.take(i as int),
        decreases n - i,
    {
        out.push(s[i]);
        i = i + 1;
        assert(out@ =~= s@.take(i as int));
    }
    out
}

pub fn trim_exec(s: &Vec<char>) -> (r: Vec<char>)
    ensures
        r@ == trim(s@),
{
    let e = trim_end_exec(s);
    let mut k: usize = 0;
    assert(e@.skip(0) == e@);
    while k < e.len() && whitespace(e[k])
        invariant
            k <= e.len(),
            trim_start(e@) == trim_start(e@.skip(k as int)),
        decreases e.len() - k,
    {
        assert(e@.skip(k as int).drop_first() == e@.skip(k + 1));
        k = k + 1;
    }
    let mut out: Vec<char> = Vec::new();
    let mut i: usize = k;
    while i < e.len()
        invariant
            k <= i <= e.len(),
            out@ == e@.subrange(k as int, i as int),
        decreases e.len() - i,
    {
        out.push(e[i]);
        i = i + 1;
        assert(out@ =~= e@.subrange(k as int, i as int));
    }
    assert(out@ =~= e@.skip(k as int));
    out
}

/// The first `max` characters, followed by `marker` when characters were cut.
pub open spec fn bounded(s: Seq<char>, max: nat, marker: Seq<char>) -> Seq<char> {
    if s.len() > max {
        s.take(max as int) + marker
    } else {
        s
    }
}

pub fn bounded_exec(s: &Vec<char>, max: usize, marker: &str) -> (r: Vec<char>)
    ensures
        r@ == bounded(s@, max as nat, marker@),
{
    let mut out: Vec<char> = Vec::new();
    let mut i: usize = 0;
    while i < max && i < s.len()
        invariant
            i <= s.len(),
            i <= max,
            out@ == s@.take(i as int),
        decreases s.len() - i,
    {
        out.push(s[i]);
        i = i + 1;
        assert(out@ =~= s@.take(i as int));
    }
    if s.len() > max {
        let m = chars_of(marker);
        append_chars(&mut out, &m);
    } else {
        assert(s@.take(i as int) =~= s@);
    }
    out
}

/// `str::to_ascii_lowercase`.
pub open spec fn lower(s: Seq<char>) -> Seq<char> {
    s.map_values(|c: char| lower_char(c))
}

pub fn lower_exec(s: &Vec<char>) -> (r: Vec<char>)
    ensures
        r@ == lower(s@),
{
    let mut out: Vec<char> = Vec::new();
    let mut i: usize = 0;
    while i < s.len()
        invariant
            i <= s.len(),
            out@ == lower(s@.take(i as int)),
        decreases s.len() - i,
    {
        out.push(to_lower(s[i]));
        i = i + 1;
        assert(out@ =~= lower(s@.take(i as int)));
    }
    assert(s@.take(s.len() as int) == s@);
    out
}

} // verus!

verus! {

// ---------------------------------------------------------------------------
// Facts about runs
// ---------------------------------------------------------------------------

/// Every finished run is non-empty, and no run holds a separator.
pub proof fn lemma_split_state(s: Seq<char>, m: Sep)
    ensures
        forall|i: int|
            0 <= i < split_state(s, m).0.len() ==> #[trigger] split_state(s, m).0[i].len() > 0,
        forall|i: int, j: int|
            0 <= i < split_state(s, m).0.len() && 0 <= j < split_state(s, m).0[i].len()
                ==> !is_sep(m, #[trigger] split_state(s, m).0[i][j]),
        forall|j: int|
            0 <= j < split_state(s, m).1.len() ==> !is_sep(m, #[trigger] split_state(s, m).1[j]),
    decreases s.len(),
{
    if s.len() > 0 {
        lemma_split_state(s.drop_last(), m);
        let (done, cur) = split_state(s.drop_last(), m);
        let (d2, c2) = split_state(s, m);
        if is_sep(m, s.last()) {
            if cur.len() > 0 {
                assert(d2 == done.push(cur));
                assert forall|i: int| 0 <= i < d2.len() implies #[trigger] d2[i].len() > 0 by {
                    if i < done.len() {
                        assert(d2[i] == done[i]);
                    }
                }
                assert forall|i: int, j: int| 0 <= i < d2.len() && 0 <= j < d2[i].len() implies !is_sep(
                    m,
                    #[trigger] d2[i][j],
                ) by {
                    if i < done.len() {
                        assert(d2[i] == done[i]);
                    } else {
                        assert(d2[i] == cur);
                    }
                }
            }
        } else {
            assert(c2 == cur.push(s.last()));
            assert forall|j: int| 0 <= j < c2.len() implies !is_sep(m, #[trigger] c2[j]) by {
                if j < cur.len() {
                    assert(c2[j] == cur[j]);
                }
            }
        }
    }
}

/// Every run is non-empty and holds no separator.
pub proof fn lemma_runs(s: Seq<char>, m: Sep)
    ensures
        forall|i: int| 0 <= i < runs(s, m).len() ==> #[trigger] runs(s, m)[i].len() > 0,
        forall|i: int, j: int|
            0 <= i < runs(s, m).len() && 0 <= j < runs(s, m)[i].len() ==> !is_sep(
                m,
                #[trigger] runs(s, m)[i][j],
            ),
{
    lemma_split_state(s, m);
    let (done, cur) = split_state(s, m);
    if cur.len() > 0 {
        let r = done.push(cur);
        assert forall|i: int| 0 <= i < r.len() implies #[trigger] r[i].len() > 0 by {
            if i < done.len() {
                assert(r[i] == done[i]);
            }
        }
        assert forall|i: int, j: int| 0 <= i < r.len() && 0 <= j < r[i].len() implies !is_sep(
            m,
            #[trigger] r[i][j],
        ) by {
            if i < done.len() {
                assert(r[i] == done[i]);
            }
        }
    }
}

/// A bounded text is at most `max` characters plus the marker.
pub proof fn lemma_bounded_len(s: Seq<char>, max: nat, marker: Seq<char>)
    ensures
        bounded(s, max, marker).len() <= max + marker.len(),
        s.len() > 0 ==> bounded(s, max, marker).len() > 0 || max == 0 && marker.len() == 0,
{
}

/// With no separator in it, a text is one run under construction.
pub proof fn lemma_split_state_without_sep(s: Seq<char>, m: Sep)
    requires
        forall|i: int| 0 <= i < s.len() ==> !is_sep(m, #[trigger] s[i]),
    ensures
        split_state(s, m) == (Seq::<Seq<char>>::empty(), s),
    decreases s.len(),
{
    if s.len() > 0 {
        assert forall|i: int| 0 <= i < s.drop_last().len() implies !is_sep(
            m,
            #[trigger] s.drop_last()[i],
        ) by {
            assert(s.drop_last()[i] == s[i]);
        }
        lemma_split_state_without_sep(s.drop_last(), m);
        assert(!is_sep(m, s[s.len() - 1]));
        assert(s.drop_last().push(s.last()) =~= s);
    } else {
        assert(s =~= Seq::<char>::empty());
    }
}

/// A text lacking one of the pattern's characters has nothing removed.
pub proof fn lemma_remove_all_absent(s: Seq<char>, p: Seq<char>, k: int)
    requires
        0 <= k < p.len(),
        forall|i: int| 0 <= i < s.len() ==> #[trigger] s[i] != p[k],
    ensures
        remove_all(s, p) == s,
    decreases s.len(),
{
    if s.len() > 0 {
        if starts_with(s, p) {
            assert(s[0 + k] == p[k]);
        }
        assert forall|i: int| 0 <= i < s.skip(1).len() implies #[trigger] s.skip(1)[i] != p[k] by {
            assert(s.skip(1)[i] == s[i + 1]);
        }
        lemma_remove_all_absent(s.skip(1), p, k);
        assert(seq![s[0]] + s.skip(1) =~= s);
    }
}


/// A text in which the pattern never occurs has nothing removed.
pub proof fn lemma_remove_all_no_match(s: Seq<char>, p: Seq<char>)
    requires
        p.len() > 0,
        forall|i: int| !matches_at(s, i, p),
    ensures
        remove_all(s, p) == s,
    decreases s.len(),
{
    if s.len() > 0 {
        assert(!matches_at(s, 0, p));
        assert forall|i: int| !matches_at(s.skip(1), i, p) by {
            if matches_at(s.skip(1), i, p) {
                assert forall|j: int| 0 <= j < p.len() implies #[trigger] s[(i + 1) + j] == p[j] by {
                    assert(s.skip(1)[i + j] == p[j]);
                }
                assert(matches_at(s, i + 1, p));
            }
        }
        lemma_remove_all_no_match(s.skip(1), p);
        assert(seq![s[0]] + s.skip(1) =~= s);
    }
}

/// What occurs in a text occurs in every longer text that begins with it.
pub proof fn lemma_matches_at_prefix(s: Seq<char>, t: Seq<char>, q: int, x: Seq<char>)
    requires
        matches_at(s, q, x),
        s.len() <= t.len(),
        forall|j: int| 0 <= j < s.len() ==> #[trigger] t[j] == s[j],
    ensures
        matches_at(t, q, x),
{
    assert forall|j: int| 0 <= j < x.len() implies #[trigger] t[q + j] == x[j] by {
        assert(s[q + j] == x[j]);
    }
}

/// Each finished run of the scan occurs in the text, and the run under
/// construction ends the text.
pub proof fn lemma_split_state_in(s: Seq<char>, m: Sep)
    ensures
        forall|i: int|
            0 <= i < split_state(s, m).0.len() ==> contains(s, #[trigger] split_state(s, m).0[i]),
        matches_at(s, s.len() - split_state(s, m).1.len(), split_state(s, m).1),
    decreases s.len(),
{
    if s.len() > 0 {
        let s0 = s.drop_last();
        lemma_split_state_in(s0, m);
        let (done, cur) = split_state(s0, m);
        let (d2, c2) = split_state(s, m);
        assert forall|i: int| 0 <= i < done.len() implies contains(s, #[trigger] done[i]) by {
            assert(contains(s0, done[i]));
            let q = choose|q: int| matches_at(s0, q, done[i]);
            lemma_matches_at_prefix(s0, s, q, done[i]);
        }
        lemma_matches_at_prefix(s0, s, s0.len() - cur.len(), cur);
        if is_sep(m, s.last()) {
            if cur.len() > 0 {
                assert forall|i: int| 0 <= i < d2.len() implies contains(s, #[trigger] d2[i]) by {
                    if i < done.len() {
                        assert(d2[i] == done[i]);
                    } else {
                        assert(d2[i] == cur);
                        assert(matches_at(s, s0.len() - cur.len(), cur));
                    }
                }
            } else {
                assert(d2 == done);
            }
        } else {
            assert(d2 == done);
            assert(c2 == cur.push(s.last()));
            assert forall|j: int| 0 <= j < c2.len() implies #[trigger] s[(s.len() - c2.len()) + j]
                == c2[j] by {
                if j < cur.len() {
                    assert(s[(s0.len() - cur.len()) + j] == cur[j]);
                }
            }
        }
    }
}

/// Each run occurs in the text.
pub proof fn lemma_runs_in(s: Seq<char>, m: Sep)
    ensures
        forall|i: int| 0 <= i < runs(s, m).len() ==> contains(s, #[trigger] runs(s, m)[i]),
{
    lemma_split_state_in(s, m);
    let (done, cur) = split_state(s, m);
    if cur.len() > 0 {
        let r = done.push(cur);
        assert forall|i: int| 0 <= i < r.len() implies contains(s, #[trigger] r[i]) by {
            if i < done.len() {
                assert(r[i] == done[i]);
            } else {
                assert(r[i] == cur);
                assert(matches_at(s, s.len() - cur.len(), cur));
            }
        }
        assert(runs(s, m) == r);
    } else {
        assert(runs(s, m) == done);
    }
}

/// Appending characters that separate nothing extends the run under
/// construction.
pub proof fn lemma_split_state_append(s: Seq<char>, t: Seq<char>, m: Sep)
    requires
        forall|j: int| 0 <= j < t.len() ==> !is_sep(m, #[trigger] t[j]),
    ensures
        split_state(s + t, m) == (split_state(s, m).0, split_state(s, m).1 + t),
    decreases t.len(),
{
    if t.len() == 0 {
        assert(s + t =~= s);
        assert(split_state(s, m).1 + t =~= split_state(s, m).1);
    } else {
        let t0 = t.drop_last();
        assert forall|j: int| 0 <= j < t0.len() implies !is_sep(m, #[trigger] t0[j]) by {
            assert(t0[j] == t[j]);
        }
        lemma_split_state_append(s, t0, m);
        assert((s + t).drop_last() =~= s + t0);
        assert((s + t).last() == t.last());
        assert(!is_sep(m, t[t.len() - 1]));
        assert((split_state(s, m).1 + t0).push(t.last()) =~= split_state(s, m).1 + t);
    }
}

/// Words that hold no whitespace, joined with single spaces, split back into
/// the same words.
pub proof fn lemma_words_join(w: Seq<Seq<char>>)
    requires
        forall|i: int| 0 <= i < w.len() ==> #[trigger] w[i].len() > 0,
        forall|i: int, j: int| 0 <= i < w.len() && 0 <= j < w[i].len() ==> !is_ws(#[trigger] w[i][j]),
    ensures
        words(join_words(w)) == w,
    decreases w.len(),
{
    if w.len() == 0 {
        assert(words(join_words(w)) =~= w);
    } else if w.len() == 1 {
        assert forall|j: int| 0 <= j < w[0].len() implies !is_sep(Sep::Whitespace, #[trigger] w[0][j]) by {
            assert(!is_ws(w[0][j]));
        }
        lemma_split_state_without_sep(w[0], Sep::Whitespace);
        assert(words(join_words(w)) =~= w);
    } else {
        let w0 = w.drop_last();
        assert forall|i: int| 0 <= i < w0.len() implies #[trigger] w0[i].len() > 0 by {
            assert(w0[i] == w[i]);
        }
        assert forall|i: int, j: int| 0 <= i < w0.len() && 0 <= j < w0[i].len() implies !is_ws(
            #[trigger] w0[i][j],
        ) by {
            assert(w0[i] == w[i]);
        }
        lemma_words_join(w0);
        let s = join_words(w0);
        let last = w.last();
        assert(join_words(w) == s + seq![' '] + last);
        let sp = s + seq![' '];
        assert(sp.drop_last() =~= s);
        assert(is_ws(sp.last()));
        assert(split_state(sp, Sep::Whitespace) == (runs(s, Sep::Whitespace), Seq::<char>::empty()));
        assert forall|j: int| 0 <= j < last.len() implies !is_sep(Sep::Whitespace, #[trigger] last[j]) by {
            assert(!is_ws(w[w.len() - 1][j]));
        }
        lemma_split_state_append(sp, last, Sep::Whitespace);
        assert(Seq::<char>::empty() + last =~= last);
        assert(w[w.len() - 1].len() > 0);
        assert(words(join_words(w)) =~= w0.push(last));
        assert(w0.push(last) =~= w);
    }
}

/// Joined words that hold no whitespace begin with the first word's first
/// character and end with the last word's last one.
pub proof fn lemma_join_ends(w: Seq<Seq<char>>)
    requires
        w.len() > 0,
        forall|i: int| 0 <= i < w.len() ==> #[trigger] w[i].len() > 0,
    ensures
        join_words(w).len() > 0,
        join_words(w)[0] == w[0][0],
        join_words(w).last() == w.last().last(),
    decreases w.len(),
{
    if w.len() > 1 {
        let w0 = w.drop_last();
        assert forall|i: int| 0 <= i < w0.len() implies #[trigger] w0[i].len() > 0 by {
            assert(w0[i] == w[i]);
        }
        lemma_join_ends(w0);
        assert(w[w.len() - 1].len() > 0);
        assert(w0[0] == w[0]);
    } else {
        assert(w[0].len() > 0);
    }
}

/// A text that neither begins nor ends with whitespace is its own trim.
pub proof fn lemma_trim_clean(s: Seq<char>)
    requires
        s.len() == 0 || (!is_ws(s[0]) && !is_ws(s.last())),
    ensures
        trim(s) == s,
{
    assert(trim_end(s) == s);
    assert(trim_start(s) == s);
}

} // verus!
