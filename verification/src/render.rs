//! Text-rendering primitives: decimal digit strings, fixed-width padding,
//! and the YYYY-MM-DD / HH:MM:SS forms that the display strings and the
//! persisted schema share. All are total functions from values to
//! character sequences, specified exactly.

use vstd::prelude::*;
use vstd::string::*;

verus! {

pub open spec fn spec_digit(d: int) -> char {
    if d == 0 {
        '0'
    } else if d == 1 {
        '1'
    } else if d == 2 {
        '2'
    } else if d == 3 {
        '3'
    } else if d == 4 {
        '4'
    } else if d == 5 {
        '5'
    } else if d == 6 {
        '6'
    } else if d == 7 {
        '7'
    } else if d == 8 {
        '8'
    } else {
        '9'
    }
}

/// Decimal form of a non-negative number, most significant digit first,
/// without leading zeros (a lone zero for 0).
pub open spec fn spec_decimal(n: int) -> Seq<char>
    decreases n,
{
    if n < 10 {
        seq![spec_digit(n)]
    } else {
        spec_decimal(n / 10).push(spec_digit(n % 10))
    }
}

/// Exactly two digits, zero-padded: the MM, DD, HH, MM, SS fields.
pub open spec fn spec_two_digits(n: int) -> Seq<char> {
    seq![spec_digit(n / 10), spec_digit(n % 10)]
}

/// Exactly four digits, zero-padded: the YYYY field.
pub open spec fn spec_four_digits(n: int) -> Seq<char> {
    seq![spec_digit(n / 1000), spec_digit((n / 100) % 10), spec_digit((n / 10) % 10), spec_digit(
        n % 10,
    )]
}

pub open spec fn spec_spaces(n: int) -> Seq<char> {
    Seq::new(if n >= 0 {
        n as nat
    } else {
        0
    }, |i: int| ' ')
}

/// A string left-padded with spaces to at least `w` characters, as the
/// right-aligned fixed-width columns print it.
pub open spec fn spec_pad_left(s: Seq<char>, w: int) -> Seq<char> {
    if s.len() >= w {
        s
    } else {
        spec_spaces(w - s.len()) + s
    }
}

/// A string right-padded with spaces to at least `w` characters, as the
/// left-aligned fixed-width columns print it.
pub open spec fn spec_pad_right(s: Seq<char>, w: int) -> Seq<char> {
    if s.len() >= w {
        s
    } else {
        s + spec_spaces(w - s.len())
    }
}

pub fn digit_str(d: u32) -> (r: &'static str)
    requires
        d <= 9,
    ensures
        r@ == seq![spec_digit(d as int)],
{
    proof {
        reveal_strlit("0");
        reveal_strlit("1");
        reveal_strlit("2");
        reveal_strlit("3");
        reveal_strlit("4");
        reveal_strlit("5");
        reveal_strlit("6");
        reveal_strlit("7");
        reveal_strlit("8");
        reveal_strlit("9");
    }
    let r = match d {
        0 => "0",
        1 => "1",
        2 => "2",
        3 => "3",
        4 => "4",
        5 => "5",
        6 => "6",
        7 => "7",
        8 => "8",
        _ => "9",
    };
    proof {
        assert(r@ =~= seq![spec_digit(d as int)]);
    }
    r
}

/// Decimal form of `n`, as day numbers and the counts in the to-do
/// headings print it.
pub fn decimal_string(n: u64) -> (r: String)
    ensures
        r@ == spec_decimal(n as int),
    decreases n,
{
    if n < 10 {
        String::from_str(digit_str(n as u32))
    } else {
        let mut s = decimal_string(n / 10);
        s.append(digit_str((n % 10) as u32));
        proof {
            assert(spec_decimal(n as int) =~= spec_decimal((n / 10) as int) + seq![spec_digit(
                (n % 10) as int,
            )]);
        }
        s
    }
}

pub fn two_digit_string(n: u32) -> (r: String)
    requires
        n < 100,
    ensures
        r@ == spec_two_digits(n as int),
{
    let mut s = String::from_str(digit_str(n / 10));
    s.append(digit_str(n % 10));
    proof {
        assert(s@ =~= spec_two_digits(n as int));
    }
    s
}

pub fn four_digit_string(n: u32) -> (r: String)
    requires
        n < 10000,
    ensures
        r@ == spec_four_digits(n as int),
{
    let mut s = String::from_str(digit_str(n / 1000));
    s.append(digit_str((n / 100) % 10));
    s.append(digit_str((n / 10) % 10));
    s.append(digit_str(n % 10));
    proof {
        assert(s@ =~= spec_four_digits(n as int));
    }
    s
}

/// The YYYY-MM-DD form of a date, as the persisted schema and the "no
/// appointments" message show it.
pub open spec fn spec_date_text(y: int, m: int, d: int) -> Seq<char> {
    spec_four_digits(y) + seq!['-'] + spec_two_digits(m) + seq!['-'] + spec_two_digits(d)
}

/// The HH:MM:SS form of a time of day.
pub open spec fn spec_time_text(h: int, mi: int, s: int) -> Seq<char> {
    spec_two_digits(h) + seq![':'] + spec_two_digits(mi) + seq![':'] + spec_two_digits(s)
}

pub fn date_string(year: u32, month: u32, day: u32) -> (r: String)
    requires
        year < 10000,
        month < 100,
        day < 100,
    ensures
        r@ == spec_date_text(year as int, month as int, day as int),
{
    let mut s = four_digit_string(year);
    s.append("-");
    let m = two_digit_string(month);
    s.append(m.as_str());
    s.append("-");
    let d = two_digit_string(day);
    s.append(d.as_str());
    proof {
        reveal_strlit("-");
        assert(s@ =~= spec_date_text(year as int, month as int, day as int));
    }
    s
}

pub fn time_string(hour: u32, minute: u32, second: u32) -> (r: String)
    requires
        hour < 100,
        minute < 100,
        second < 100,
    ensures
        r@ == spec_time_text(hour as int, minute as int, second as int),
{
    let mut s = two_digit_string(hour);
    s.append(":");
    let m = two_digit_string(minute);
    s.append(m.as_str());
    s.append(":");
    let sec = two_digit_string(second);
    s.append(sec.as_str());
    proof {
        reveal_strlit(":");
        assert(s@ =~= spec_time_text(hour as int, minute as int, second as int));
    }
    s
}

/// Appends `n` spaces to `s`: helper for the two padding functions.
fn append_spaces(s: &mut String, n: usize)
    ensures
        final(s)@ == old(s)@ + spec_spaces(n as int),
{
    let mut i: usize = 0;
    while i < n
        invariant
            i <= n,
            s@ == old(s)@ + spec_spaces(i as int),
        decreases n - i,
    {
        proof {
            reveal_strlit(" ");
        }
        s.append(" ");
        proof {
            assert(s@ =~= old(s)@ + spec_spaces((i + 1) as int));
        }
        i = i + 1;
    }
}

/// Left-pads with spaces to at least `w` characters (right alignment).
pub fn pad_left(s: &str, w: usize) -> (r: String)
    ensures
        r@ == spec_pad_left(s@, w as int),
{
    let n = s.unicode_len();
    if n >= w {
        s.to_owned()
    } else {
        let mut r = String::new();
        append_spaces(&mut r, w - n);
        r.append(s);
        proof {
            assert(r@ =~= spec_pad_left(s@, w as int));
        }
        r
    }
}

/// Right-pads with spaces to at least `w` characters (left alignment).
pub fn pad_right(s: &str, w: usize) -> (r: String)
    ensures
        r@ == spec_pad_right(s@, w as int),
{
    let mut r = s.to_owned();
    let n = s.unicode_len();
    if n < w {
        append_spaces(&mut r, w - n);
    }
    proof {
        assert(r@ =~= spec_pad_right(s@, w as int));
    }
    r
}

} // verus!
