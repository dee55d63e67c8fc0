//! The appointment store and its day lookup: an append-only collection of
//! events, exact-day search that keeps insertion order, the month table of
//! the viewed date, and the display strings for both.
//!
//! The store holds whatever the driver loaded; reloading from the persisted
//! file is the driver's explicit step, taken before it asks for display
//! strings, never hidden inside a query.

use vstd::prelude::*;
use vstd::string::*;

use crate::dates::{days_in_month, spec_days_in_month, DateTime};
use crate::grid::{build_month_grid, spec_grid_cell, GRID_DAYS, GRID_WEEKS};
use crate::render::{
    decimal_string, pad_right, spec_date_text, spec_decimal, spec_pad_right, spec_time_text,
    time_string,
};

verus! {

/// A scheduled appointment: a concrete date-time, a name and a location.
#[derive(Debug)]
pub struct Events {
    pub date: DateTime,
    pub event_name: String,
    pub location: String,
}

impl Events {
    pub fn new(date: DateTime, event_name: String, location: String) -> (r: Events)
        ensures
            r.date == date,
            r.event_name == event_name,
            r.location == location,
    {
        Events { date, event_name, location }
    }
}

impl Clone for Events {
    fn clone(&self) -> (r: Self)
        ensures
            r == *self,
    {
        Events {
            date: self.date,
            event_name: self.event_name.clone(),
            location: self.location.clone(),
        }
    }
}

/// Two events fall on the same calendar day exactly when their date
/// components agree; the time of day is ignored.
pub open spec fn same_day(a: DateTime, b: DateTime) -> bool {
    a.date == b.date
}

/// The calendar: the date currently viewed and the append-only event store.
#[derive(Debug)]
pub struct Calendar {
    pub current_date: DateTime,
    pub all_events: Vec<Events>,
}

impl Clone for Calendar {
    fn clone(&self) -> (r: Self)
        ensures
            r.current_date == self.current_date,
            r.all_events@ == self.all_events@,
    {
        Calendar {
            current_date: self.current_date,
            all_events: clone_events_vec(&self.all_events),
        }
    }
}

fn clone_events_vec(v: &Vec<Events>) -> (r: Vec<Events>)
    ensures
        r@ =~= v@,
{
    let mut r: Vec<Events> = Vec::new();
    let mut i: usize = 0;
    while i < v.len()
        invariant
            i <= v@.len(),
            r@ =~= v@.take(i as int),
        decreases v@.len() - i,
    {
        r.push(v[i].clone());
        proof {
            assert(r@ =~= v@.take(i + 1));
        }
        i = i + 1;
    }
    proof {
        assert(v@.take(v@.len() as int) =~= v@);
    }
    r
}

/// One grid cell as text, three columns wide: the day number left-aligned,
/// or a non-breaking space for the blank sentinel.
pub open spec fn spec_day_cell(day: int) -> Seq<char> {
    if day == 0 {
        seq!['\u{00A0}', ' ', ' ']
    } else {
        spec_pad_right(spec_decimal(day), 3)
    }
}

/// The header line of the month page: the weekday names from Sunday, each
/// padded to three columns.
pub open spec fn spec_calendar_text_header() -> Seq<char> {
    "Su Mo Tu We Th Fr Sa "@ + seq!['\n']
}

/// The first `s` cells of grid row `w` as text.
pub open spec fn spec_row_text(y: int, m: int, w: int, s: int) -> Seq<char>
    decreases s,
{
    if s <= 0 {
        Seq::empty()
    } else {
        spec_row_text(y, m, w, s - 1) + spec_day_cell(spec_grid_cell(y, m, 7 * w + (s - 1)))
    }
}

/// The first `w` grid rows as text, one line each.
pub open spec fn spec_rows_text(y: int, m: int, w: int) -> Seq<char>
    decreases w,
{
    if w <= 0 {
        Seq::empty()
    } else {
        spec_rows_text(y, m, w - 1) + spec_row_text(y, m, w - 1, 7) + seq!['\n']
    }
}

/// The whole month page for (y, m): header line, then the six week rows.
pub open spec fn spec_calendar_text(y: int, m: int) -> Seq<char> {
    spec_calendar_text_header() + spec_rows_text(y, m, 6)
}

/// One appointment as text: name, location and time-of-day lines, each
/// padded to at least eight columns, then a separating blank line.
pub open spec fn spec_appointment_entry(ev: Events) -> Seq<char> {
    spec_pad_right("Event: "@ + ev.event_name@, 8) + seq!['\n'] + spec_pad_right(
        "Location: "@ + ev.location@,
        8,
    ) + seq!['\n'] + spec_pad_right(
        "Time: "@ + spec_time_text(ev.date.hour as int, ev.date.minute as int, ev.date.second as int),
        8,
    ) + seq!['\n', '\n']
}

/// The appointment entries of `evs`, in order.
pub open spec fn spec_appointments_text(evs: Seq<Events>) -> Seq<char>
    decreases evs.len(),
{
    if evs.len() == 0 {
        Seq::empty()
    } else {
        spec_appointments_text(evs.drop_last()) + spec_appointment_entry(evs.last())
    }
}

/// The appointment panel for `date`: the entries of the events on its
/// calendar day in insertion order, or, when none match, a message naming
/// the day.
pub open spec fn spec_appointment_report(evs: Seq<Events>, date: DateTime) -> Seq<char> {
    let matches = evs.filter(|ev: Events| same_day(ev.date, date));
    if matches.len() == 0 {
        "You do not have any appointments for "@ + spec_date_text(
            date.date.year as int,
            date.date.month as int,
            date.date.day as int,
        )
    } else {
        spec_appointments_text(matches)
    }
}

fn day_cell_string(day: u32) -> (r: String)
    ensures
        r@ == spec_day_cell(day as int),
{
    if day == 0 {
        let r = String::from_str("\u{00A0}  ");
        proof {
            reveal_strlit("\u{00A0}  ");
            assert(r@ =~= seq!['\u{00A0}', ' ', ' ']);
        }
        r
    } else {
        let d = decimal_string(day as u64);
        pad_right(d.as_str(), 3)
    }
}

impl Calendar {
    /// Every date the calendar holds is a valid calendar date.
    pub open spec fn wf(self) -> bool {
        &&& self.current_date.valid()
        &&& forall|i: int|
            0 <= i < self.all_events@.len() ==> (#[trigger] self.all_events@[i]).date.valid()
    }

    /// An empty calendar viewing `current_date`. The driver injects the
    /// date (at startup, the system's local time) so that the engine never
    /// reads ambient state.
    pub fn new(current_date: DateTime) -> (r: Calendar)
        requires
            current_date.valid(),
        ensures
            r.current_date == current_date,
            r.all_events@.len() == 0,
            r.wf(),
    {
        Calendar { current_date, all_events: Vec::new() }
    }

    pub fn get_current_date(&self) -> (r: DateTime)
        ensures
            r == self.current_date,
    {
        self.current_date
    }

    pub fn get_all_events_from_calendar(&self) -> (r: Vec<Events>)
        ensures
            r@ == self.all_events@,
    {
        clone_events_vec(&self.all_events)
    }

    /// Day count of the viewed date's month: the 28/29/30/31 table,
    /// leap-year aware.
    pub fn get_day_count(&self) -> (r: u32)
        requires
            self.wf(),
        ensures
            r == spec_days_in_month(
                self.current_date.date.year as int,
                self.current_date.date.month as int,
            ),
    {
        days_in_month(self.current_date.date.year, self.current_date.date.month)
    }

    /// Appends an event: no de-duplication, no further validation.
    pub fn add_event_to_calendar(&mut self, event: Events)
        requires
            old(self).wf(),
            event.date.valid(),
        ensures
            final(self).all_events@ == old(self).all_events@.push(event),
            final(self).current_date == old(self).current_date,
            final(self).wf(),
    {
        self.all_events.push(event);
    }

    /// All events on `date`'s calendar day, in insertion order; events on
    /// any other day, including the same day of month in another month or
    /// year, are excluded. Empty, never an error, when none match.
    pub fn get_event_from_calendar(&self, date: DateTime) -> (r: Vec<Events>)
        ensures
            r@ == self.all_events@.filter(|ev: Events| same_day(ev.date, date)),
            (forall|j: int|
                0 <= j < self.all_events@.len() ==> (#[trigger] self.all_events@[j]).date.valid())
                ==> (forall|i: int| 0 <= i < r@.len() ==> (#[trigger] r@[i]).date.valid()),
    {
        let mut r: Vec<Events> = Vec::new();
        let mut i: usize = 0;
        proof {
            reveal(Seq::filter);
        }
        while i < self.all_events.len()
            invariant
                i <= self.all_events@.len(),
                r@ == self.all_events@.take(i as int).filter(|ev: Events| same_day(ev.date, date)),
                (forall|j: int|
                    0 <= j < self.all_events@.len() ==> (
                    #[trigger] self.all_events@[j]).date.valid()) ==> (forall|k: int|
                    0 <= k < r@.len() ==> (#[trigger] r@[k]).date.valid()),
            decreases self.all_events@.len() - i,
        {
            let ev = &self.all_events[i];
            proof {
                reveal(Seq::filter);
                assert(self.all_events@.take(i + 1).drop_last() =~= self.all_events@.take(i as int));
                assert(self.all_events@.take(i + 1).last() == self.all_events@[i as int]);
            }
            if ev.date.date.year == date.date.year && ev.date.date.month == date.date.month
                && ev.date.date.day == date.date.day {
                r.push(ev.clone());
            }
            i = i + 1;
        }
        proof {
            assert(self.all_events@.take(self.all_events@.len() as int) =~= self.all_events@);
        }
        r
    }

    /// The month page as text: a weekday header row, then one line per
    /// grid week with every cell padded to three columns; blank cells
    /// render as a non-breaking space so layout engines do not collapse
    /// them.
    pub fn generate_calendar_text(&self, calendar_date: &DateTime) -> (r: String)
        requires
            calendar_date.date.valid(),
        ensures
            r@ == spec_calendar_text(calendar_date.date.year as int, calendar_date.date.month as int),
    {
        let ghost y = calendar_date.date.year as int;
        let ghost m = calendar_date.date.month as int;
        let mut out = String::from_str("Su Mo Tu We Th Fr Sa ");
        out.append("\n");
        proof {
            reveal_strlit("\n");
            assert(out@ =~= spec_calendar_text_header());
        }
        let grid = build_month_grid(&calendar_date.date);
        let mut w: usize = 0;
        while w < GRID_WEEKS
            invariant
                w <= GRID_WEEKS,
                grid@.len() == GRID_WEEKS,
                forall|i: int| 0 <= i < GRID_WEEKS ==> #[trigger] grid@[i]@.len() == GRID_DAYS,
                forall|i: int, s: int|
                    0 <= i < GRID_WEEKS && 0 <= s < GRID_DAYS ==> #[trigger] grid@[i]@[s] as int
                        == spec_grid_cell(y, m, 7 * i + s),
                out@ == spec_calendar_text_header() + spec_rows_text(y, m, w as int),
            decreases GRID_WEEKS - w,
        {
            let mut s: usize = 0;
            while s < GRID_DAYS
                invariant
                    w < GRID_WEEKS,
                    s <= GRID_DAYS,
                    grid@.len() == GRID_WEEKS,
                    forall|i: int| 0 <= i < GRID_WEEKS ==> #[trigger] grid@[i]@.len() == GRID_DAYS,
                    forall|i: int, j: int|
                        0 <= i < GRID_WEEKS && 0 <= j < GRID_DAYS ==> #[trigger] grid@[i]@[j] as int
                            == spec_grid_cell(y, m, 7 * i + j),
                    out@ == spec_calendar_text_header() + spec_rows_text(y, m, w as int)
                        + spec_row_text(y, m, w as int, s as int),
                decreases GRID_DAYS - s,
            {
                let cell = day_cell_string(grid[w][s]);
                out.append(cell.as_str());
                proof {
                    assert(out@ =~= spec_calendar_text_header() + spec_rows_text(y, m, w as int)
                        + spec_row_text(y, m, w as int, s as int + 1));
                }
                s = s + 1;
            }
            out.append("\n");
            proof {
                reveal_strlit("\n");
                assert(out@ =~= spec_calendar_text_header() + spec_rows_text(y, m, w as int + 1));
            }
            w = w + 1;
        }
        out
    }

    /// The appointment panel for `date`'s calendar day: for each matching
    /// event, in insertion order, its name, location and time on lines
    /// padded to at least eight columns; or a message naming the day when
    /// nothing matches. The driver reloads the store before asking.
    pub fn generate_appointment_text(&self, date: DateTime) -> (r: String)
        requires
            self.wf(),
            date.valid(),
        ensures
            r@ == spec_appointment_report(self.all_events@, date),
    {
        let evs = self.get_event_from_calendar(date);
        let mut out = String::new();
        let mut i: usize = 0;
        while i < evs.len()
            invariant
                i <= evs@.len(),
                forall|j: int| 0 <= j < evs@.len() ==> (#[trigger] evs@[j]).date.valid(),
                out@ == spec_appointments_text(evs@.take(i as int)),
            decreases evs@.len() - i,
        {
            let ev = &evs[i];
            let mut name_line = String::from_str("Event: ");
            name_line.append(ev.event_name.as_str());
            let name_line = pad_right(name_line.as_str(), 8);
            out.append(name_line.as_str());
            out.append("\n");
            let mut loc_line = String::from_str("Location: ");
            loc_line.append(ev.location.as_str());
            let loc_line = pad_right(loc_line.as_str(), 8);
            out.append(loc_line.as_str());
            out.append("\n");
            let time = time_string(ev.date.hour, ev.date.minute, ev.date.second);
            let mut time_line = String::from_str("Time: ");
            time_line.append(time.as_str());
            let time_line = pad_right(time_line.as_str(), 8);
            out.append(time_line.as_str());
            out.append("\n");
            out.append("\n");
            proof {
                reveal_strlit("\n");
                assert(evs@.take(i + 1).drop_last() =~= evs@.take(i as int));
                assert(evs@.take(i + 1).last() == evs@[i as int]);
                assert(out@ =~= spec_appointments_text(evs@.take(i + 1)));
            }
            i = i + 1;
        }
        proof {
            assert(evs@.take(evs@.len() as int) =~= evs@);
        }
        if evs.len() == 0 {
            out.append("You do not have any appointments for ");
            let ds = crate::render::date_string(date.date.year, date.date.month, date.date.day);
            out.append(ds.as_str());
        }
        out
    }

    /// The week-major month table for `calendar_date`'s month; see
    /// `grid::build_month_grid` for the cell layout.
    pub fn get_month_table(&self, calendar_date: &DateTime) -> (grid: Vec<Vec<u32>>)
        requires
            calendar_date.date.valid(),
        ensures
            grid@.len() == GRID_WEEKS,
            forall|w: int| 0 <= w < GRID_WEEKS ==> #[trigger] grid@[w]@.len() == GRID_DAYS,
            forall|w: int, s: int|
                0 <= w < GRID_WEEKS && 0 <= s < GRID_DAYS ==> #[trigger] grid@[w]@[s] as int
                    == spec_grid_cell(
                    calendar_date.date.year as int,
                    calendar_date.date.month as int,
                    7 * w + s,
                ),
    {
        build_month_grid(&calendar_date.date)
    }
}

} // verus!
