//! Parsing primitives and the two input grammars of the dashboard: the
//! fixed-format date-time string (`YYYY-MM-DD HH:MM:SS`, with a space or a
//! `T` between date and time) and the comma-separated user commands. All
//! parsers are total and return explicit results; a malformed input is a
//! value, never a panic.

use vstd::prelude::*;
use vstd::string::*;

use crate::dates::{days_in_month, valid_ymd, Date, DateTime};

verus! {

/// The whitespace that field trimming strips: space, tab and line breaks.
pub open spec fn spec_is_ws(c: char) -> bool {
    c == ' ' || c == '\t' || c == '\n' || c == '\r'
}

fn is_ws(c: char) -> (r: bool)
    ensures
        r == spec_is_ws(c),
{
    c == ' ' || c == '\t' || c == '\n' || c == '\r'
}

pub open spec fn spec_ltrim(s: Seq<char>) -> Seq<char>
    decreases s.len(),
{
    if s.len() > 0 && spec_is_ws(s[0]) {
        spec_ltrim(s.drop_first())
    } else {
        s
    }
}

pub open spec fn spec_rtrim(s: Seq<char>) -> Seq<char>
    decreases s.len(),
{
    if s.len() > 0 && spec_is_ws(s.last()) {
        spec_rtrim(s.drop_last())
    } else {
        s
    }
}

/// A string with leading and trailing whitespace removed.
pub open spec fn spec_trim(s: Seq<char>) -> Seq<char> {
    spec_rtrim(spec_ltrim(s))
}

/// Strips leading and trailing whitespace.
#[verifier::loop_isolation(false)]
pub fn trim(s: &str) -> (r: String)
    ensures
        r@ == spec_trim(s@),
{
    let len = s.unicode_len();
    proof {
        assert(s@.skip(0) =~= s@);
    }
    let mut a: usize = 0;
    while a < len && is_ws(s.get_char(a))
        invariant
            a <= len,
            len == s@.len(),
            spec_ltrim(s@) == spec_ltrim(s@.skip(a as int)),
        decreases len - a,
    {
        proof {
            assert(s@.skip(a as int)[0] == s@[a as int]);
            assert(s@.skip(a as int).drop_first() =~= s@.skip(a as int + 1));
        }
        a = a + 1;
    }
    proof {
        assert(spec_ltrim(s@) =~= s@.skip(a as int));
        assert(s@.skip(a as int) =~= s@.subrange(a as int, len as int));
    }
    let mut b: usize = len;
    while b > a && is_ws(s.get_char(b - 1))
        invariant
            a <= b <= len,
            len == s@.len(),
            spec_ltrim(s@) == s@.subrange(a as int, len as int),
            spec_rtrim(spec_ltrim(s@)) == spec_rtrim(s@.subrange(a as int, b as int)),
        decreases b,
    {
        proof {
            assert(s@.subrange(a as int, b as int).last() == s@[b - 1]);
            assert(s@.subrange(a as int, b as int).drop_last() =~= s@.subrange(
                a as int,
                b as int - 1,
            ));
        }
        b = b - 1;
    }
    proof {
        assert(spec_trim(s@) =~= s@.subrange(a as int, b as int));
    }
    s.substring_char(a, b).to_owned()
}

pub open spec fn spec_is_digit(c: char) -> bool {
    48 <= c as u32 <= 57
}

fn is_digit(c: char) -> (r: bool)
    ensures
        r == spec_is_digit(c),
{
    let u = c as u32;
    48 <= u && u <= 57
}

pub open spec fn spec_digit_val(c: char) -> int {
    c as u32 - 48
}

pub open spec fn spec_all_digits(s: Seq<char>) -> bool {
    forall|i: int| 0 <= i < s.len() ==> spec_is_digit(#[trigger] s[i])
}

/// Value of a string of decimal digits, most significant first.
pub open spec fn spec_digits_val(s: Seq<char>) -> int
    decreases s.len(),
{
    if s.len() == 0 {
        0
    } else {
        spec_digits_val(s.drop_last()) * 10 + spec_digit_val(s.last())
    }
}

proof fn lemma_digits_val_nonneg(s: Seq<char>)
    requires
        spec_all_digits(s),
    ensures
        spec_digits_val(s) >= 0,
    decreases s.len(),
{
    if s.len() > 0 {
        assert(spec_all_digits(s.drop_last()));
        lemma_digits_val_nonneg(s.drop_last());
    }
}

/// Appending digits never shrinks the value: the value of a prefix is a
/// lower bound for the value of the whole string.
proof fn lemma_digits_val_prefix(s: Seq<char>, j: int)
    requires
        0 <= j <= s.len(),
        spec_all_digits(s),
    ensures
        spec_digits_val(s.take(j)) <= spec_digits_val(s),
    decreases s.len() - j,
{
    if j < s.len() {
        assert(s.take(j + 1).drop_last() =~= s.take(j));
        assert(spec_all_digits(s.take(j)));
        lemma_digits_val_nonneg(s.take(j));
        assert(spec_digits_val(s.take(j + 1)) == spec_digits_val(s.take(j)) * 10 + spec_digit_val(
            s[j],
        ));
        lemma_digits_val_prefix(s, j + 1);
    } else {
        assert(s.take(j) =~= s);
    }
}

/// How an unsigned number reads: an optional leading `+`, then at least
/// one decimal digit, the value fitting the type.
pub open spec fn spec_parse_u32(s: Seq<char>) -> Option<u32> {
    let body = if s.len() > 0 && s[0] == '+' {
        s.drop_first()
    } else {
        s
    };
    if body.len() > 0 && spec_all_digits(body) && spec_digits_val(body) <= u32::MAX {
        Some(spec_digits_val(body) as u32)
    } else {
        None
    }
}

/// Reads an unsigned decimal number; `None` on an empty body, a non-digit
/// or overflow.
#[verifier::loop_isolation(false)]
pub fn parse_u32(s: &str) -> (r: Option<u32>)
    ensures
        r == spec_parse_u32(s@),
{
    let len = s.unicode_len();
    let start: usize = if len > 0 && s.get_char(0) == '+' {
        1
    } else {
        0
    };
    let ghost body = s@.subrange(start as int, len as int);
    proof {
        if s@.len() > 0 && s@[0] == '+' {
            assert(s@.drop_first() =~= body);
        } else {
            assert(s@ =~= body);
        }
    }
    if start >= len {
        return None;
    }
    let mut i: usize = start;
    while i < len
        invariant
            start <= i <= len,
            len == s@.len(),
            body == s@.subrange(start as int, len as int),
            forall|j: int| 0 <= j < i - start ==> spec_is_digit(#[trigger] body[j]),
        decreases len - i,
    {
        if !is_digit(s.get_char(i)) {
            proof {
                assert(body[i - start] == s@[i as int]);
                assert(!spec_all_digits(body));
            }
            return None;
        }
        i = i + 1;
    }
    proof {
        assert(spec_all_digits(body));
    }
    let mut acc: u64 = 0;
    let mut i: usize = start;
    while i < len
        invariant
            start <= i <= len,
            len == s@.len(),
            body == s@.subrange(start as int, len as int),
            spec_all_digits(body),
            acc == spec_digits_val(body.take(i - start)),
            acc <= u32::MAX,
        decreases len - i,
    {
        proof {
            assert(body[i - start] == s@[i as int]);
            assert(spec_is_digit(s@[i as int]));
            assert(body.take(i - start + 1).drop_last() =~= body.take(i - start));
        }
        let d = (s.get_char(i) as u32) - 48;
        let next: u64 = acc * 10 + (d as u64);
        if next > u32::MAX as u64 {
            proof {
                lemma_digits_val_prefix(body, i - start + 1);
            }
            return None;
        }
        acc = next;
        i = i + 1;
    }
    proof {
        assert(body.take(len - start) =~= body);
    }
    Some(acc as u32)
}

/// How a date-time string reads: exactly `YYYY-MM-DD HH:MM:SS`, with
/// either a space or a `T` between the date and the time, every field
/// zero-padded, and the result a valid calendar date and time of day.
pub open spec fn spec_parse_date_time(s: Seq<char>) -> Option<DateTime> {
    if s.len() == 19 && spec_is_digit(s[0]) && spec_is_digit(s[1]) && spec_is_digit(s[2])
        && spec_is_digit(s[3]) && s[4] == '-' && spec_is_digit(s[5]) && spec_is_digit(s[6]) && s[7]
        == '-' && spec_is_digit(s[8]) && spec_is_digit(s[9]) && (s[10] == ' ' || s[10] == 'T')
        && spec_is_digit(s[11]) && spec_is_digit(s[12]) && s[13] == ':' && spec_is_digit(s[14])
        && spec_is_digit(s[15]) && s[16] == ':' && spec_is_digit(s[17]) && spec_is_digit(s[18]) {
        let y = spec_digit_val(s[0]) * 1000 + spec_digit_val(s[1]) * 100 + spec_digit_val(s[2]) * 10
            + spec_digit_val(s[3]);
        let mo = spec_digit_val(s[5]) * 10 + spec_digit_val(s[6]);
        let d = spec_digit_val(s[8]) * 10 + spec_digit_val(s[9]);
        let h = spec_digit_val(s[11]) * 10 + spec_digit_val(s[12]);
        let mi = spec_digit_val(s[14]) * 10 + spec_digit_val(s[15]);
        let se = spec_digit_val(s[17]) * 10 + spec_digit_val(s[18]);
        if valid_ymd(y, mo, d) && h < 24 && mi < 60 && se < 60 {
            Some(
                DateTime {
                    date: Date { year: y as u32, month: mo as u32, day: d as u32 },
                    hour: h as u32,
                    minute: mi as u32,
                    second: se as u32,
                },
            )
        } else {
            None
        }
    } else {
        None
    }
}

/// Reads a date-time string; see `spec_parse_date_time` for the grammar.
/// Accepts the `YYYY-MM-DD HH:MM:SS` and ISO `T`-separated forms and
/// nothing else; a malformed string or an impossible date gives `None`.
pub fn string_to_naive_date(s: &str) -> (r: Option<DateTime>)
    ensures
        r == spec_parse_date_time(s@),
        r is Some ==> r->0.valid(),
{
    if s.unicode_len() != 19 {
        return None;
    }
    let c0 = s.get_char(0);
    let c1 = s.get_char(1);
    let c2 = s.get_char(2);
    let c3 = s.get_char(3);
    let c4 = s.get_char(4);
    let c5 = s.get_char(5);
    let c6 = s.get_char(6);
    let c7 = s.get_char(7);
    let c8 = s.get_char(8);
    let c9 = s.get_char(9);
    let c10 = s.get_char(10);
    let c11 = s.get_char(11);
    let c12 = s.get_char(12);
    let c13 = s.get_char(13);
    let c14 = s.get_char(14);
    let c15 = s.get_char(15);
    let c16 = s.get_char(16);
    let c17 = s.get_char(17);
    let c18 = s.get_char(18);
    let shape_ok = is_digit(c0) && is_digit(c1) && is_digit(c2) && is_digit(c3) && c4 == '-'
        && is_digit(c5) && is_digit(c6) && c7 == '-' && is_digit(c8) && is_digit(c9) && (c10 == ' '
        || c10 == 'T') && is_digit(c11) && is_digit(c12) && c13 == ':' && is_digit(c14) && is_digit(
        c15,
    ) && c16 == ':' && is_digit(c17) && is_digit(c18);
    if !shape_ok {
        return None;
    }
    let y: u32 = (c0 as u32 - 48) * 1000 + (c1 as u32 - 48) * 100 + (c2 as u32 - 48) * 10 + (
    c3 as u32 - 48);
    let mo: u32 = (c5 as u32 - 48) * 10 + (c6 as u32 - 48);
    let d: u32 = (c8 as u32 - 48) * 10 + (c9 as u32 - 48);
    let h: u32 = (c11 as u32 - 48) * 10 + (c12 as u32 - 48);
    let mi: u32 = (c14 as u32 - 48) * 10 + (c15 as u32 - 48);
    let se: u32 = (c17 as u32 - 48) * 10 + (c18 as u32 - 48);
    if 1 <= y && 1 <= mo && mo <= 12 && 1 <= d && d <= days_in_month(y, mo) && h < 24 && mi < 60
        && se < 60 {
        Some(
            DateTime {
                date: Date { year: y, month: mo, day: d },
                hour: h,
                minute: mi,
                second: se,
            },
        )
    } else {
        None
    }
}

/// Index of the first comma of `s`, or its length when it has none.
pub open spec fn spec_first_comma(s: Seq<char>) -> int
    decreases s.len(),
{
    if s.len() == 0 {
        0
    } else if s[0] == ',' {
        0
    } else {
        1 + spec_first_comma(s.drop_first())
    }
}

/// The first comma's index is in range, carries a comma, and nothing
/// before it does.
pub proof fn lemma_first_comma(s: Seq<char>)
    ensures
        0 <= spec_first_comma(s) <= s.len(),
        spec_first_comma(s) < s.len() ==> s[spec_first_comma(s)] == ',',
        forall|j: int| 0 <= j < spec_first_comma(s) ==> s[j] != ',',
    decreases s.len(),
{
    if s.len() > 0 && s[0] != ',' {
        lemma_first_comma(s.drop_first());
        assert(forall|j: int|
            1 <= j < spec_first_comma(s) ==> s[j] == s.drop_first()[j - 1] && s[j] != ',');
    }
}

#[via_fn]
proof fn split_commas_decreases(s: Seq<char>) {
    lemma_first_comma(s);
}

/// The comma-separated fields of `s`, commas removed, empty fields kept:
/// one field more than `s` has commas.
pub open spec fn spec_split_commas(s: Seq<char>) -> Seq<Seq<char>>
    decreases s.len(),
    via split_commas_decreases
{
    let i = spec_first_comma(s);
    if i == s.len() {
        seq![s]
    } else {
        seq![s.take(i)] + spec_split_commas(s.skip(i + 1))
    }
}

/// The comma-separated fields of `s`, each trimmed: what the command
/// reader works on.
pub open spec fn spec_fields(s: Seq<char>) -> Seq<Seq<char>> {
    Seq::new(spec_split_commas(s).len(), |i: int| spec_trim(spec_split_commas(s)[i]))
}

/// Splits at every comma and trims each field, as the command reader does.
#[verifier::loop_isolation(false)]
pub fn split_trimmed(s: &str) -> (r: Vec<String>)
    ensures
        r@.len() == spec_fields(s@).len(),
        forall|i: int| 0 <= i < r@.len() ==> (#[trigger] r@[i])@ == spec_fields(s@)[i],
    decreases s@.len(),
{
    proof {
        lemma_first_comma(s@);
    }
    let len = s.unicode_len();
    let mut i: usize = 0;
    while i < len && s.get_char(i) != ','
        invariant
            i <= len,
            forall|j: int| 0 <= j < i ==> s@[j] != ',',
        decreases len - i,
    {
        i = i + 1;
    }
    proof {
        if i < len {
            assert(s@[i as int] == ',');
            assert(spec_first_comma(s@) == i);
        } else {
            assert(spec_first_comma(s@) == len);
        }
    }
    if i == len {
        let t = trim(s);
        let mut v: Vec<String> = Vec::new();
        v.push(t);
        v
    } else {
        let head_str = s.substring_char(0, i);
        let head = trim(head_str);
        let rest = s.substring_char(i + 1, len);
        proof {
            assert(head_str@ =~= s@.take(i as int));
            assert(rest@ =~= s@.skip(i + 1));
        }
        let mut v = split_trimmed(rest);
        v.insert(0, head);
        proof {
            assert(v@.len() == spec_split_commas(s@).len());
            assert forall|k: int| 0 <= k < v@.len() implies (#[trigger] v@[k])@ == spec_trim(
                spec_split_commas(s@)[k],
            ) by {
                if k > 0 {
                    assert(v@[k] == v@.subrange(1, v@.len() as int)[k - 1]);
                    assert(spec_split_commas(s@)[k] == spec_split_commas(s@.skip(i + 1))[k - 1]);
                }
            }
        }
        v
    }
}

} // verus!

