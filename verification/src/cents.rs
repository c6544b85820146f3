//! Amounts of money as integers scaled by 10,000, and their decimal text.

use vstd::prelude::*;
use crate::error::LedgerError;

verus! {

/// An amount of money in units of one ten-thousandth: four implied decimal digits.
pub type Cents = i64;

/// How many units make one whole.
pub const CENTS_PER_AMOUNT: Cents = 10_000;

/// Whether `c` is one of the ten decimal digits.
pub open spec fn is_digit(c: char) -> bool {
    '0' <= c && c <= '9'
}

/// The number that the digit `c` stands for.
pub open spec fn digit_value(c: char) -> int {
    c as int - '0' as int
}

/// Whether every character of `s` is a decimal digit.
pub open spec fn all_digits(s: Seq<char>) -> bool {
    forall|i: int| 0 <= i < s.len() ==> is_digit(#[trigger] s[i])
}

/// The number that `s` denotes when read as a run of decimal digits; the empty run denotes 0.
pub open spec fn digits_value(s: Seq<char>) -> int
    decreases s.len(),
{
    if s.len() == 0 {
        0
    } else {
        digits_value(s.drop_last()) * 10 + digit_value(s.last())
    }
}

/// The position of the first decimal point in `s`, or the length of `s` where it has none.
pub open spec fn dot_position(s: Seq<char>) -> int
    decreases s.len(),
{
    if s.len() == 0 || s[0] == '.' {
        0
    } else {
        1 + dot_position(s.drop_first())
    }
}

/// Whether `s` starts with a minus sign.
pub open spec fn has_sign(s: Seq<char>) -> bool {
    s.len() > 0 && s[0] == '-'
}

/// `s` without its leading minus sign, if it has one.
pub open spec fn unsigned_part(s: Seq<char>) -> Seq<char> {
    if has_sign(s) {
        s.drop_first()
    } else {
        s
    }
}

/// The integer part of the unsigned text `body`: what stands before the first decimal point.
pub open spec fn whole_part(body: Seq<char>) -> Seq<char> {
    body.subrange(0, dot_position(body))
}

/// Whether the unsigned text `body` holds a decimal point.
pub open spec fn has_fraction(body: Seq<char>) -> bool {
    dot_position(body) < body.len()
}

/// The decimal part of the unsigned text `body`: what stands after the first decimal point.
pub open spec fn fraction_part(body: Seq<char>) -> Seq<char> {
    if has_fraction(body) {
        body.subrange(dot_position(body) + 1, body.len() as int)
    } else {
        Seq::empty()
    }
}

/// What one unit of a decimal part of `digits` digits is worth, in ten-thousandths.
pub open spec fn fraction_scale(digits: nat) -> int {
    if digits == 1 {
        1000
    } else if digits == 2 {
        100
    } else if digits == 3 {
        10
    } else {
        1
    }
}

/// Whether `s` is written as an amount: an optional minus sign, one or more digits,
/// and optionally a decimal point followed by one to four digits.
pub open spec fn is_amount_text(s: Seq<char>) -> bool {
    let body = unsigned_part(s);
    &&& whole_part(body).len() > 0
    &&& all_digits(whole_part(body))
    &&& has_fraction(body) ==> 1 <= fraction_part(body).len() <= 4
    &&& all_digits(fraction_part(body))
}

/// The number of ten-thousandths that the amount text `s` denotes.
pub open spec fn amount_value(s: Seq<char>) -> int {
    let body = unsigned_part(s);
    let frac = fraction_part(body);
    let magnitude = digits_value(whole_part(body)) * CENTS_PER_AMOUNT + digits_value(frac)
        * fraction_scale(frac.len());
    if has_sign(s) {
        -magnitude
    } else {
        magnitude
    }
}

/// The amount that the text `s` is parsed to: its value where `s` is written as an
/// amount and the value can be represented, and nothing otherwise.
pub open spec fn parse_amount(s: Seq<char>) -> Option<Cents> {
    if is_amount_text(s) && i64::MIN <= amount_value(s) <= i64::MAX {
        Some(amount_value(s) as i64)
    } else {
        None
    }
}

/// The digit that stands for the number `d`, which is from 0 to 9.
pub open spec fn digit_char(d: int) -> char {
    ('0' as int + d) as char
}

/// The decimal digits of `n`, without leading zeros; for 0 the single digit `0`.
pub open spec fn decimal_text(n: nat) -> Seq<char>
    decreases n,
{
    if n < 10 {
        seq![digit_char(n as int)]
    } else {
        decimal_text(n / 10).push(digit_char(n as int % 10))
    }
}

/// The digits of a decimal part of `f` ten-thousandths, where `f` is from 1 to 9999:
/// its four digits without the zeros at their end.
pub open spec fn fraction_text(f: int) -> Seq<char> {
    let d1 = digit_char(f / 1000);
    let d2 = digit_char(f / 100 % 10);
    let d3 = digit_char(f / 10 % 10);
    let d4 = digit_char(f % 10);
    if f % 1000 == 0 {
        seq![d1]
    } else if f % 100 == 0 {
        seq![d1, d2]
    } else if f % 10 == 0 {
        seq![d1, d2, d3]
    } else {
        seq![d1, d2, d3, d4]
    }
}

/// The text of the amount `c`: a minus sign where it is negative, the integer part,
/// and, where the decimal part is not zero, a decimal point and its digits.
pub open spec fn amount_text(c: int) -> Seq<char> {
    let magnitude = if c < 0 {
        -c
    } else {
        c
    };
    let sign = if c < 0 {
        seq!['-']
    } else {
        Seq::empty()
    };
    let fraction = if magnitude % (CENTS_PER_AMOUNT as int) != 0 {
        seq!['.'] + fraction_text(magnitude % (CENTS_PER_AMOUNT as int))
    } else {
        Seq::empty()
    };
    sign + decimal_text((magnitude / (CENTS_PER_AMOUNT as int)) as nat) + fraction
}

/// The first decimal point of `s` stands at `dot_position(s)`, and none stands before it.
pub proof fn lemma_dot_position(s: Seq<char>)
    ensures
        0 <= dot_position(s) <= s.len(),
        forall|j: int| 0 <= j < dot_position(s) ==> s[j] != '.',
        dot_position(s) < s.len() ==> s[dot_position(s)] == '.',
    decreases s.len(),
{
    if s.len() != 0 && s[0] != '.' {
        let rest = s.drop_first();
        lemma_dot_position(rest);
        assert forall|j: int| 0 <= j < dot_position(s) implies s[j] != '.' by {
            if j > 0 {
                assert(s[j] == rest[j - 1]);
            }
        }
    }
}

/// A run of digits denotes a number that is not negative, and no less than any of
/// its prefixes denotes.
pub proof fn lemma_digits_value_prefix(s: Seq<char>, k: int)
    requires
        all_digits(s),
        0 <= k <= s.len(),
    ensures
        0 <= digits_value(s.subrange(0, k)) <= digits_value(s),
    decreases s.len(),
{
    if s.len() > 0 {
        if k == s.len() {
            assert(s.subrange(0, k) =~= s);
            lemma_digits_value_prefix(s.drop_last(), s.len() - 1);
        } else {
            lemma_digits_value_prefix(s.drop_last(), k);
            assert(s.drop_last().subrange(0, k) =~= s.subrange(0, k));
        }
    }
}

/// A run of at most four digits denotes a number of at most that many digits: below
/// 10,000 for four, below 1,000 for three, and so on.
pub proof fn lemma_digits_value_short(s: Seq<char>)
    requires
        all_digits(s),
        s.len() <= 4,
    ensures
        0 <= digits_value(s) <= 9999,
        s.len() <= 3 ==> digits_value(s) <= 999,
        s.len() <= 2 ==> digits_value(s) <= 99,
        s.len() <= 1 ==> digits_value(s) <= 9,
    decreases s.len(),
{
    if s.len() > 0 {
        lemma_digits_value_short(s.drop_last());
    }
}

/// The digit for a number from 0 to 9 is a digit, and stands for that number.
pub proof fn lemma_digit_char(d: int)
    requires
        0 <= d <= 9,
    ensures
        is_digit(digit_char(d)),
        digit_value(digit_char(d)) == d,
        digit_char(d) != '.',
        digit_char(d) != '-',
{
}

/// The decimal digits of a number are one digit or more, and denote that number.
pub proof fn lemma_decimal_text(n: nat)
    ensures
        decimal_text(n).len() > 0,
        all_digits(decimal_text(n)),
        digits_value(decimal_text(n)) == n,
    decreases n,
{
    let text = decimal_text(n);
    if n < 10 {
        lemma_digit_char(n as int);
        assert(digits_value(text.drop_last()) == 0);
    } else {
        lemma_decimal_text(n / 10);
        lemma_digit_char(n as int % 10);
        assert(text.drop_last() =~= decimal_text(n / 10));
        assert forall|i: int| 0 <= i < text.len() implies is_digit(#[trigger] text[i]) by {
            if i < text.len() - 1 {
                assert(text[i] == decimal_text(n / 10)[i]);
            }
        }
    }
}

/// The digits of a decimal part are one to four digits, and denote that part.
pub proof fn lemma_fraction_text(f: int)
    requires
        1 <= f <= 9999,
    ensures
        1 <= fraction_text(f).len() <= 4,
        all_digits(fraction_text(f)),
        digits_value(fraction_text(f)) * fraction_scale(fraction_text(f).len()) == f,
{
    let text = fraction_text(f);
    lemma_digit_char(f / 1000);
    lemma_digit_char(f / 100 % 10);
    lemma_digit_char(f / 10 % 10);
    lemma_digit_char(f % 10);
    let t1 = seq![digit_char(f / 1000)];
    let t2 = t1.push(digit_char(f / 100 % 10));
    let t3 = t2.push(digit_char(f / 10 % 10));
    let t4 = t3.push(digit_char(f % 10));
    assert(digits_value(t1.drop_last()) == 0);
    assert(digits_value(t1) == f / 1000);
    assert(t2.drop_last() =~= t1);
    assert(digits_value(t2) == f / 100);
    assert(t3.drop_last() =~= t2);
    assert(digits_value(t3) == f / 10);
    assert(t4.drop_last() =~= t3);
    if f % 1000 == 0 {
        assert(text =~= t1);
    } else if f % 100 == 0 {
        assert(text =~= t2);
    } else if f % 10 == 0 {
        assert(text =~= t3);
    } else {
        assert(text =~= t4);
    }
}

/// The text of an amount parses to that amount.
pub proof fn lemma_amount_text_parses(c: Cents)
    ensures
        parse_amount(amount_text(c as int)) == Some(c),
{
    let text = amount_text(c as int);
    let magnitude: int = if c < 0 {
        -c
    } else {
        c as int
    };
    let whole = decimal_text((magnitude / 10_000) as nat);
    let f = magnitude % 10_000;
    let fraction = if f != 0 {
        seq!['.'] + fraction_text(f)
    } else {
        Seq::empty()
    };
    lemma_decimal_text((magnitude / 10_000) as nat);
    if f != 0 {
        lemma_fraction_text(f);
    }
    let body = unsigned_part(text);
    assert(body =~= whole + fraction);
    lemma_dot_position(body);
    let p = dot_position(body);
    assert(p == whole.len()) by {
        if p < whole.len() {
            assert(is_digit(whole[p]));
        }
        if p > whole.len() {
            assert(body[whole.len() as int] == '.');
        }
    }
    assert(whole_part(body) =~= whole);
    if f != 0 {
        assert(fraction_part(body) =~= fraction_text(f));
    }
}

/// An accepted amount text, parsed and written again, parses to the same amount.
pub proof fn lemma_round_trip(s: Seq<char>)
    requires
        parse_amount(s) is Some,
    ensures
        parse_amount(amount_text(parse_amount(s)->Some_0 as int)) == parse_amount(s),
{
    lemma_amount_text_parses(parse_amount(s)->Some_0);
}

/// A text with a character that is neither a digit, nor a decimal point, nor a minus
/// sign at its start, is not parsed.
pub proof fn lemma_rejects_non_numeric(s: Seq<char>, i: int)
    requires
        0 <= i < s.len(),
        !is_digit(s[i]),
        s[i] != '.',
        i > 0 || s[i] != '-',
    ensures
        parse_amount(s) is None,
{
    let body = unsigned_part(s);
    let j = if has_sign(s) {
        i - 1
    } else {
        i
    };
    lemma_dot_position(body);
    let p = dot_position(body);
    if j < p {
        assert(whole_part(body)[j] == body[j]);
    } else {
        assert(fraction_part(body)[j - p - 1] == body[j]);
    }
}

/// A text with more than one decimal point is not parsed.
pub proof fn lemma_rejects_second_point(s: Seq<char>, i: int, j: int)
    requires
        0 <= i < j < s.len(),
        s[i] == '.',
        s[j] == '.',
    ensures
        parse_amount(s) is None,
{
    let body = unsigned_part(s);
    let k = if has_sign(s) {
        j - 1
    } else {
        j
    };
    assert(body[k - (j - i)] == s[i]);
    lemma_dot_position(body);
    let p = dot_position(body);
    assert(fraction_part(body)[k - p - 1] == body[k]);
}

/// A text with more than four characters after a decimal point is not parsed.
pub proof fn lemma_rejects_long_fraction(s: Seq<char>, i: int)
    requires
        0 <= i < s.len(),
        s[i] == '.',
        s.len() - i - 1 > 4,
    ensures
        parse_amount(s) is None,
{
    let body = unsigned_part(s);
    let k = if has_sign(s) {
        i - 1
    } else {
        i
    };
    assert(body[k] == s[i]);
    lemma_dot_position(body);
}

fn is_digit_char(c: char) -> (b: bool)
    ensures
        b == is_digit(c),
{
    '0' <= c && c <= '9'
}

fn digit_of(c: char) -> (d: u64)
    requires
        is_digit(c),
    ensures
        d == digit_value(c),
        d <= 9,
{
    (c as u64) - ('0' as u64)
}

/// The largest integer part whose amount may still be representable.
const WHOLE_LIMIT: u64 = 922_337_203_685_477;

/// Finds where the run of digits that starts at `from` ends.
fn digits_end(s: &str, from: usize, len: usize) -> (end: usize)
    requires
        from <= len,
        len == s@.len(),
    ensures
        from <= end <= len,
        all_digits(s@.subrange(from as int, end as int)),
        end < len ==> !is_digit(s@[end as int]),
{
    let mut i: usize = from;
    while i < len
        invariant
            from <= i <= len,
            len == s@.len(),
            all_digits(s@.subrange(from as int, i as int)),
        decreases len - i,
    {
        if !is_digit_char(s.get_char(i)) {
            return i;
        }
        proof {
            let next = s@.subrange(from as int, i + 1);
            assert forall|j: int| 0 <= j < next.len() implies is_digit(#[trigger] next[j]) by {
                if j < i - from {
                    assert(next[j] == s@.subrange(from as int, i as int)[j]);
                }
            }
        }
        i += 1;
    }
    i
}

/// Reads the digits of `s` from `from` up to `to` as a number, unless it is above `limit`.
fn digits_to_number(s: &str, from: usize, to: usize, limit: u64) -> (r: Option<u64>)
    requires
        from <= to <= s@.len(),
        all_digits(s@.subrange(from as int, to as int)),
        limit <= 1_000_000_000_000_000_000,
    ensures
        match r {
            Some(v) => v == digits_value(s@.subrange(from as int, to as int)) && v <= limit,
            None => digits_value(s@.subrange(from as int, to as int)) > limit,
        },
{
    let ghost run = s@.subrange(from as int, to as int);
    let mut i: usize = from;
    let mut value: u64 = 0;
    while i < to
        invariant
            from <= i <= to <= s@.len(),
            run == s@.subrange(from as int, to as int),
            all_digits(run),
            value == digits_value(s@.subrange(from as int, i as int)),
            value <= limit <= 1_000_000_000_000_000_000,
        decreases to - i,
    {
        let c = s.get_char(i);
        assert(c == run[i - from]);
        let next = value * 10 + digit_of(c);
        proof {
            let seen = s@.subrange(from as int, i + 1);
            assert(seen.drop_last() =~= s@.subrange(from as int, i as int));
            assert(run.subrange(0, i + 1 - from) =~= seen);
            lemma_digits_value_prefix(run, i + 1 - from);
        }
        if next > limit {
            return None;
        }
        value = next;
        i += 1;
    }
    Some(value)
}

/// Parses an amount text: an optional minus sign, an integer part, and optionally a
/// decimal point followed by one to four decimal digits.
///
/// Fails where the text is not written so, and where the amount cannot be represented.
pub fn string_to_cents(s: &str) -> (r: Result<Cents, LedgerError>)
    ensures
        r == (match parse_amount(s@) {
            Some(c) => Ok::<Cents, LedgerError>(c),
            None => Err(LedgerError::Parse),
        }),
{
    let len = s.unicode_len();
    let negative = len > 0 && s.get_char(0) == '-';
    let start: usize = if negative {
        1
    } else {
        0
    };
    let ghost body = unsigned_part(s@);
    let dot = digits_end(s, start, len);
    proof {
        assert(body =~= s@.subrange(start as int, len as int));
        lemma_dot_position(body);
        assert forall|j: int| 0 <= j < dot - start implies body[j] != '.' by {
            assert(is_digit(s@.subrange(start as int, dot as int)[j]));
        }
        if dot < len && s@[dot as int] != '.' {
            assert(whole_part(body)[dot - start] == body[dot - start]);
        }
        if dot == len || s@[dot as int] == '.' {
            if dot < len {
                assert(body[dot - start] == s@[dot as int]);
            }
            assert(whole_part(body) =~= s@.subrange(start as int, dot as int));
        }
    }
    if dot == start {
        return Err(LedgerError::Parse);
    }
    let mut fraction: u64 = 0;
    if dot < len {
        if s.get_char(dot) != '.' {
            return Err(LedgerError::Parse);
        }
        let digits = len - dot - 1;
        assert(fraction_part(body) =~= s@.subrange(dot + 1, len as int));
        if digits == 0 || digits > 4 {
            return Err(LedgerError::Parse);
        }
        let end = digits_end(s, dot + 1, len);
        if end < len {
            assert(fraction_part(body)[end - dot - 1] == s@[end as int]);
            return Err(LedgerError::Parse);
        }
        proof {
            lemma_digits_value_short(fraction_part(body));
        }
        let scale: u64 = if digits == 1 {
            1000
        } else if digits == 2 {
            100
        } else if digits == 3 {
            10
        } else {
            1
        };
        fraction = digits_to_number(s, dot + 1, len, 9999).unwrap() * scale;
    }
    let whole = match digits_to_number(s, start, dot, WHOLE_LIMIT) {
        Some(v) => v,
        None => {
            return Err(LedgerError::Parse);
        },
    };
    let magnitude: u64 = whole * (CENTS_PER_AMOUNT as u64) + fraction;
    if negative {
        if magnitude > 9_223_372_036_854_775_808 {
            Err(LedgerError::Parse)
        } else if magnitude == 9_223_372_036_854_775_808 {
            Ok(i64::MIN)
        } else {
            Ok(-(magnitude as i64))
        }
    } else {
        if magnitude > 9_223_372_036_854_775_807 {
            Err(LedgerError::Parse)
        } else {
            Ok(magnitude as i64)
        }
    }
}

/// The text of one digit.
fn digit_text(d: u64) -> (text: &'static str)
    requires
        d <= 9,
    ensures
        text@ == seq![digit_char(d as int)],
{
    proof {
        reveal_strlit("0");
        reveal_strlit("1");
        reveal_strlit("2");
        reveal_strlit("3");
        reveal_strlit("4");
        reveal_strlit("5");
        reveal_strlit("6");
        reveal_strlit("7");
        reveal_strlit("8");
        reveal_strlit("9");
    }
    if d == 0 {
        "0"
    } else if d == 1 {
        "1"
    } else if d == 2 {
        "2"
    } else if d == 3 {
        "3"
    } else if d == 4 {
        "4"
    } else if d == 5 {
        "5"
    } else if d == 6 {
        "6"
    } else if d == 7 {
        "7"
    } else if d == 8 {
        "8"
    } else {
        "9"
    }
}

/// Appends the decimal digits of `n` to `out`.
pub fn push_decimal(out: &mut String, n: u64)
    ensures
        final(out)@ == old(out)@ + decimal_text(n as nat),
    decreases n,
{
    if n >= 10 {
        push_decimal(out, n / 10);
    }
    out.append(digit_text(n % 10));
}

/// Writes an amount as text: the sign only where it is negative, the integer part,
/// and the decimal part only where it is not zero, without zeros at its end.
pub fn cents_to_string(c: Cents) -> (text: String)
    ensures
        text@ == amount_text(c as int),
{
    let magnitude: u64 = if c >= 0 {
        c as u64
    } else {
        (-(c + 1)) as u64 + 1
    };
    let whole = magnitude / (CENTS_PER_AMOUNT as u64);
    let fraction = magnitude % (CENTS_PER_AMOUNT as u64);
    let mut text = String::new();
    if c < 0 {
        proof {
            reveal_strlit("-");
        }
        text.append("-");
    }
    push_decimal(&mut text, whole);
    if fraction > 0 {
        proof {
            reveal_strlit(".");
        }
        text.append(".");
        text.append(digit_text(fraction / 1000));
        if fraction % 1000 != 0 {
            text.append(digit_text(fraction / 100 % 10));
            if fraction % 100 != 0 {
                text.append(digit_text(fraction / 10 % 10));
                if fraction % 10 != 0 {
                    text.append(digit_text(fraction % 10));
                }
            }
        }
    }
    text
}

} // verus!
