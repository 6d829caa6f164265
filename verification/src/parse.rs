//! Decimal integer text. Parsing goes as `str::parse::<i32>` does it: an
//! optional `+` or `-`, then one or more ASCII digits, within the range of
//! `i32`. Writing goes as `to_string` does it for a signed integer: a `-` for
//! a negative value, then the digits without leading zeros.
use vstd::prelude::*;

use crate::text::{chars_of, string_of};

verus! {

pub open spec fn is_digit(c: char) -> bool {
    '0' <= c && c <= '9'
}

pub open spec fn digit_value(c: char) -> int {
    (c as u32) - ('0' as u32)
}

pub open spec fn all_digits(ds: Seq<char>) -> bool {
    forall|i: int| 0 <= i < ds.len() ==> is_digit(#[trigger] ds[i])
}

/// The value of a digit sequence, most significant first.
pub open spec fn digits_value(ds: Seq<char>) -> int
    decreases ds.len(),
{
    if ds.len() == 0 {
        0
    } else {
        digits_value(ds.drop_last()) * 10 + digit_value(ds.last())
    }
}

/// The sign and the digits of a decimal text.
pub open spec fn split_sign(s: Seq<char>) -> (bool, Seq<char>) {
    if s.len() > 0 && s[0] == '-' {
        (true, s.drop_first())
    } else if s.len() > 0 && s[0] == '+' {
        (false, s.drop_first())
    } else {
        (false, s)
    }
}

/// `str::parse::<i32>`: `None` for an empty text, a sign alone, a character
/// that is not an ASCII digit, or a value out of range.
pub open spec fn parse_i32(s: Seq<char>) -> Option<i32> {
    let (neg, ds) = split_sign(s);
    if ds.len() == 0 || !all_digits(ds) {
        None
    } else {
        let v = if neg {
            -digits_value(ds)
        } else {
            digits_value(ds)
        };
        if i32::MIN <= v <= i32::MAX {
            Some(v as i32)
        } else {
            None
        }
    }
}

proof fn lemma_digits_value_grows(ds: Seq<char>, i: int)
    requires
        0 <= i <= ds.len(),
        all_digits(ds),
    ensures
        digits_value(ds) >= digits_value(ds.take(i)) >= 0,
    decreases ds.len(),
{
    if ds.len() > 0 {
        if i == ds.len() {
            assert(ds.take(i) == ds);
            lemma_digits_value_grows(ds.drop_last(), ds.len() - 1);
            assert(ds.drop_last().take(ds.len() - 1) == ds.drop_last());
        } else {
            lemma_digits_value_grows(ds.drop_last(), i);
            assert(ds.drop_last().take(i) == ds.take(i));
            assert(all_digits(ds.drop_last()));
            lemma_digits_value_grows(ds.drop_last(), ds.len() - 1);
            assert(ds.drop_last().take(ds.len() - 1) == ds.drop_last());
        }
    } else {
        assert(ds.take(i) == ds);
    }
}

pub fn parse_i32_exec(text: &str) -> (r: Option<i32>)
    ensures
        r == parse_i32(text@),
{
    let s = chars_of(text);
    let mut start: usize = 0;
    let mut neg = false;
    if s.len() > 0 && s[0] == '-' {
        start = 1;
        neg = true;
    } else if s.len() > 0 && s[0] == '+' {
        start = 1;
    }
    let ghost ds = split_sign(s@).1;
    assert(ds == s@.skip(start as int));
    assert(neg == split_sign(s@).0);
    if start >= s.len() {
        return None;
    }
    let mut acc: i64 = 0;
    let mut i: usize = start;
    while i < s.len()
        invariant
            start <= i <= s.len(),
            start < s.len(),
            s@ == text@,
            ds == split_sign(s@).1,
            neg == split_sign(s@).0,
            ds == s@.skip(start as int),
            all_digits(ds.take(i - start)),
            acc == digits_value(ds.take(i - start)),
            0 <= acc <= 2147483648,
        decreases s.len() - i,
    {
        let c = s[i];
        assert(ds.take(i - start + 1).drop_last() == ds.take(i - start));
        assert(ds.take(i - start + 1).last() == c);
        assert(ds[i - start] == s@[i as int]);
        if !('0' <= c && c <= '9') {
            assert(!is_digit(ds[i - start]));
            assert(!all_digits(ds));
            return None;
        }
        let d = (c as u32 - '0' as u32) as i64;
        assert(0 <= d <= 9);
        assert(d == digit_value(c));
        let ghost prev = ds.take(i - start);
        acc = acc * 10 + d;
        i = i + 1;
        assert(ds.take(i - start).drop_last() == prev);
        assert(acc == digits_value(ds.take(i - start)));
        assert(all_digits(ds.take(i - start))) by {
            assert forall|j: int| 0 <= j < ds.take(i - start).len() implies is_digit(
                #[trigger] ds.take(i - start)[j],
            ) by {
                if j < i - start - 1 {
                    assert(ds.take(i - start)[j] == ds.take(i - start - 1)[j]);
                }
            }
        }
        if acc > 2147483648 {
            if i < s.len() {
                let rest = all_digits_from(&s, i);
                if !rest {
                    proof {
                        let j = choose|j: int| i <= j < s@.len() && !is_digit(#[trigger] s@[j]);
                        assert(ds[j - start] == s@[j]);
                        assert(!all_digits(ds));
                    }
                }
                if rest {
                    proof {
                        assert(ds.take(ds.len() as int) == ds);
                        assert forall|j: int| 0 <= j < ds.len() implies is_digit(#[trigger] ds[j]) by {
                            if j < i - start {
                                assert(ds.take(i - start)[j] == ds[j]);
                            } else {
                                assert(ds[j] == s@[start + j]);
                            }
                        }
                        lemma_digits_value_grows(ds, i - start);
                        assert(all_digits(ds));
                    }
                }
                return None;
            } else {
                proof {
                    assert(ds.take(i - start) == ds);
                    assert(all_digits(ds));
                    assert(digits_value(ds) > 2147483648);
                }
                return None;
            }
        }
    }
    assert(ds.take(i - start) == ds);
    if neg {
        Some((-acc) as i32)
    } else if acc > 2147483647 {
        None
    } else {
        Some(acc as i32)
    }
}

/// Every character from `i` on is an ASCII digit.
fn all_digits_from(s: &Vec<char>, i: usize) -> (r: bool)
    requires
        i <= s.len(),
    ensures
        r == forall|j: int| i <= j < s.len() ==> is_digit(#[trigger] s@[j]),
{
    let mut k: usize = i;
    while k < s.len()
        invariant
            i <= k <= s.len(),
            forall|j: int| i <= j < k ==> is_digit(#[trigger] s@[j]),
        decreases s.len() - k,
    {
        if !('0' <= s[k] && s[k] <= '9') {
            return false;
        }
        k = k + 1;
    }
    true
}

// ---------------------------------------------------------------------------
// Writing
// ---------------------------------------------------------------------------

/// The ASCII digit of a value below ten.
pub open spec fn digit_char(d: int) -> char {
    if d == 0 {
        '0'
    } else if d == 1 {
        '1'
    } else if d == 2 {
        '2'
    } else if d == 3 {
        '3'
    } else if d == 4 {
        '4'
    } else if d == 5 {
        '5'
    } else if d == 6 {
        '6'
    } else if d == 7 {
        '7'
    } else if d == 8 {
        '8'
    } else {
        '9'
    }
}

/// The digits of a natural number, most significant first, with no leading
/// zero.
pub open spec fn digits(m: nat) -> Seq<char>
    decreases m,
{
    if m < 10 {
        seq![digit_char(m as int)]
    } else {
        digits(m / 10).push(digit_char((m % 10) as int))
    }
}

/// The decimal text of an integer.
pub open spec fn decimal(n: int) -> Seq<char> {
    if n < 0 {
        seq!['-'] + digits((-n) as nat)
    } else {
        digits(n as nat)
    }
}

fn digit_exec(d: u64) -> (c: char)
    requires
        d < 10,
    ensures
        c == digit_char(d as int),
{
    if d == 0 {
        '0'
    } else if d == 1 {
        '1'
    } else if d == 2 {
        '2'
    } else if d == 3 {
        '3'
    } else if d == 4 {
        '4'
    } else if d == 5 {
        '5'
    } else if d == 6 {
        '6'
    } else if d == 7 {
        '7'
    } else if d == 8 {
        '8'
    } else {
        '9'
    }
}

fn push_digits(out: &mut Vec<char>, m: u64)
    ensures
        final(out)@ == old(out)@ + digits(m as nat),
    decreases m,
{
    if m >= 10 {
        push_digits(out, m / 10);
    }
    let ghost mid = out@;
    out.push(digit_exec(m % 10));
    proof {
        if m >= 10 {
            assert(mid == old(out)@ + digits((m / 10) as nat));
            assert(out@ =~= old(out)@ + digits(m as nat));
        } else {
            assert(out@ =~= old(out)@ + digits(m as nat));
        }
    }
}

/// The decimal text of a signed integer, as `to_string` writes it.
pub fn decimal_i64(n: i64) -> (r: String)
    ensures
        r@ == decimal(n as int),
{
    let mut out: Vec<char> = Vec::new();
    let m: u64 = if n < 0 {
        out.push('-');
        if n == i64::MIN {
            9223372036854775808u64
        } else {
            (-n) as u64
        }
    } else {
        n as u64
    };
    push_digits(&mut out, m);
    proof {
        if n < 0 {
            assert(out@ =~= seq!['-'] + digits((-n) as nat));
        } else {
            assert(out@ =~= digits(n as nat));
        }
    }
    string_of(&out)
}

proof fn lemma_digit_char(d: int)
    requires
        0 <= d < 10,
    ensures
        is_digit(digit_char(d)),
        digit_value(digit_char(d)) == d,
{
}

/// The digits of a number are ASCII digits that read back as the number.
pub proof fn lemma_digits(m: nat)
    ensures
        digits(m).len() > 0,
        all_digits(digits(m)),
        digits_value(digits(m)) == m,
    decreases m,
{
    if m < 10 {
        lemma_digit_char(m as int);
        assert(digits(m).drop_last() =~= Seq::<char>::empty());
        assert(digits_value(digits(m)) == digits_value(Seq::<char>::empty()) * 10 + digit_value(
            digits(m).last(),
        ));
    } else {
        lemma_digits(m / 10);
        lemma_digit_char((m % 10) as int);
        assert(digits(m).drop_last() =~= digits(m / 10));
        assert(digits(m).last() == digit_char((m % 10) as int));
        assert(digits_value(digits(m)) == digits_value(digits(m / 10)) * 10 + digit_value(
            digits(m).last(),
        ));
        assert((m / 10) * 10 + m % 10 == m);
        assert forall|i: int| 0 <= i < digits(m).len() implies is_digit(#[trigger] digits(m)[i]) by {
            if i < digits(m / 10).len() {
                assert(digits(m)[i] == digits(m / 10)[i]);
            }
        }
    }
}

/// Writing an `i32` and parsing the text gives the number back.
pub proof fn law_decimal_parse_roundtrip(n: i32)
    ensures
        parse_i32(decimal(n as int)) == Some(n),
{
    if n < 0 {
        lemma_digits((-n) as nat);
        let s = decimal(n as int);
        assert(s[0] == '-');
        assert(s.drop_first() =~= digits((-n) as nat));
    } else {
        lemma_digits(n as nat);
        let s = decimal(n as int);
        assert(is_digit(s[0]));
        assert(split_sign(s).1 == s);
    }
}

} // verus!
