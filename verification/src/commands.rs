//! The comma-separated command surface: `todo, <true|false>, <name>`
//! appends a to-do item, and `app, <date>, <name>, <location>` (any first
//! token containing "app", case-insensitively) appends an appointment.
//! Anything else — too few fields, an unrecognized first token, a flag or
//! date that does not read — is ignored: the reader returns a value for
//! every input and never fails.

use vstd::prelude::*;
use vstd::string::*;

use crate::calendar::Events;
use crate::parse::{spec_fields, spec_parse_date_time, split_trimmed, string_to_naive_date};
use crate::todo::ToDo;

verus! {

/// What a line of user input asks for.
#[derive(Debug)]
pub enum Command {
    AddTodo(ToDo),
    AddEvent(Events),
    Ignore,
}

/// ASCII-lowercased code point, the case folding the command tokens use.
pub open spec fn spec_lower(c: char) -> u32 {
    if 65 <= c as u32 <= 90 {
        (c as u32 + 32) as u32
    } else {
        c as u32
    }
}

fn lower(c: char) -> (r: u32)
    ensures
        r == spec_lower(c),
{
    let u = c as u32;
    if 65 <= u && u <= 90 {
        u + 32
    } else {
        u
    }
}

/// Case-insensitive equality of two strings, ASCII folding only.
pub open spec fn spec_eq_ignore_case(a: Seq<char>, b: Seq<char>) -> bool {
    a.len() == b.len() && forall|i: int|
        0 <= i < a.len() ==> spec_lower(#[trigger] a[i]) == spec_lower(b[i])
}

#[verifier::loop_isolation(false)]
fn eq_ignore_case(a: &str, b: &str) -> (r: bool)
    ensures
        r == spec_eq_ignore_case(a@, b@),
{
    let n = a.unicode_len();
    if n != b.unicode_len() {
        return false;
    }
    let mut i: usize = 0;
    while i < n
        invariant
            i <= n,
            forall|j: int| 0 <= j < i ==> spec_lower(#[trigger] a@[j]) == spec_lower(b@[j]),
        decreases n - i,
    {
        if lower(a.get_char(i)) != lower(b.get_char(i)) {
            return false;
        }
        i = i + 1;
    }
    true
}

/// Exact equality of two strings.
fn str_eq(a: &str, b: &str) -> (r: bool)
    ensures
        r == (a@ == b@),
{
    let n = a.unicode_len();
    if n != b.unicode_len() {
        return false;
    }
    let mut i: usize = 0;
    while i < n
        invariant
            i <= n,
            n == a@.len() == b@.len(),
            forall|j: int| 0 <= j < i ==> a@[j] == b@[j],
        decreases n - i,
    {
        if a.get_char(i) != b.get_char(i) {
            return false;
        }
        i = i + 1;
    }
    proof {
        assert(a@ =~= b@);
    }
    true
}

/// How the priority flag reads: exactly `true` or `false`.
pub open spec fn spec_parse_bool(s: Seq<char>) -> Option<bool> {
    if s == "true"@ {
        Some(true)
    } else if s == "false"@ {
        Some(false)
    } else {
        None
    }
}

fn parse_bool(s: &str) -> (r: Option<bool>)
    ensures
        r == spec_parse_bool(s@),
{
    if str_eq(s, "true") {
        Some(true)
    } else if str_eq(s, "false") {
        Some(false)
    } else {
        None
    }
}

/// Whether `s` contains the letters "app" in a row, case-insensitively:
/// how the appointment command's first token is recognized.
pub open spec fn spec_contains_app(s: Seq<char>) -> bool {
    exists|i: int|
        0 <= i && i + 3 <= s.len() && spec_lower(#[trigger] s[i]) == 97 && spec_lower(s[i + 1])
            == 112 && spec_lower(s[i + 2]) == 112
}

#[verifier::loop_isolation(false)]
fn contains_app(s: &str) -> (r: bool)
    ensures
        r == spec_contains_app(s@),
{
    let n = s.unicode_len();
    if n < 3 {
        return false;
    }
    let mut i: usize = 0;
    while i <= n - 3
        invariant
            i <= n - 2,
            forall|j: int|
                0 <= j < i ==> !(spec_lower(#[trigger] s@[j]) == 97 && spec_lower(s@[j + 1]) == 112
                    && spec_lower(s@[j + 2]) == 112),
        decreases n - i,
    {
        if lower(s.get_char(i)) == 97 && lower(s.get_char(i + 1)) == 112 && lower(s.get_char(i + 2))
            == 112 {
            return true;
        }
        i = i + 1;
    }
    false
}

/// A line asks for a to-do item when it has at least three fields and its
/// first is the word `todo`, case-insensitively, with a readable flag.
pub open spec fn spec_is_todo_command(s: Seq<char>) -> bool {
    let fs = spec_fields(s);
    fs.len() >= 3 && spec_eq_ignore_case(fs[0], "todo"@) && spec_parse_bool(fs[1]) is Some
}

/// A line asks for an appointment when it has at least four fields, its
/// first token contains "app", and its date field reads.
pub open spec fn spec_is_app_command(s: Seq<char>) -> bool {
    let fs = spec_fields(s);
    fs.len() >= 4 && !spec_eq_ignore_case(fs[0], "todo"@) && spec_contains_app(fs[0])
        && spec_parse_date_time(fs[1]) is Some
}

/// Reads one line of user input. A `todo` line gives the item to append; a
/// line whose first token contains "app" gives the appointment, its date
/// read by the date-time grammar; every other line — too few fields, an
/// unrecognized first token, a flag or date that does not read — is
/// silently ignored.
pub fn parse_command(input: &str) -> (r: Command)
    ensures
        ({
            let fs = spec_fields(input@);
            if spec_is_todo_command(input@) {
                match r {
                    Command::AddTodo(t) => t.high_prio == spec_parse_bool(fs[1])->0
                        && t.todo_name@ == fs[2],
                    _ => false,
                }
            } else if spec_is_app_command(input@) {
                match r {
                    Command::AddEvent(e) => e.date == spec_parse_date_time(fs[1])->0
                        && e.date.valid() && e.event_name@ == fs[2] && e.location@ == fs[3],
                    _ => false,
                }
            } else {
                r is Ignore
            }
        }),
{
    let fields = split_trimmed(input);
    if fields.len() >= 3 {
        if eq_ignore_case(fields[0].as_str(), "todo") {
            match parse_bool(fields[1].as_str()) {
                Some(b) => {
                    return Command::AddTodo(ToDo { high_prio: b, todo_name: fields[2].clone() });
                },
                None => {
                    return Command::Ignore;
                },
            }
        }
        if contains_app(fields[0].as_str()) {
            if fields.len() >= 4 {
                match string_to_naive_date(fields[1].as_str()) {
                    Some(dt) => {
                        return Command::AddEvent(
                            Events {
                                date: dt,
                                event_name: fields[2].clone(),
                                location: fields[3].clone(),
                            },
                        );
                    },
                    None => {
                        return Command::Ignore;
                    },
                }
            }
            return Command::Ignore;
        }
    }
    Command::Ignore
}

} // verus!
