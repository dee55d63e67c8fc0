//! The navigation state the driver holds: a calendar view that steps one
//! whole month at a time. Stepping is calendar-safe — the day of month is
//! clamped to the target month — and returns `None` at the ends of the
//! supported year range instead of failing.

use vstd::prelude::*;

use crate::calendar::Calendar;
use crate::dates::{spec_next_month, spec_prev_month, next_month, prev_month, DateTime};

verus! {

/// The currently viewed calendar.
#[derive(Debug)]
pub struct CalendarRender {
    pub calendar: Calendar,
}

impl CalendarRender {
    /// A view of an empty calendar at the injected date.
    pub fn new(current_date: DateTime) -> (r: CalendarRender)
        requires
            current_date.valid(),
        ensures
            r.calendar.current_date == current_date,
            r.calendar.all_events@.len() == 0,
            r.calendar.wf(),
    {
        CalendarRender { calendar: Calendar::new(current_date) }
    }

    /// The view one month later, holding an empty store for the driver to
    /// refill; the time of day is kept. `None` only at the end of the
    /// supported range.
    pub fn next_date(&self) -> (r: Option<CalendarRender>)
        requires
            self.calendar.wf(),
        ensures
            r is Some <==> spec_next_month(self.calendar.current_date.date) is Some,
            r is Some ==> {
                let v = r->0;
                &&& v.calendar.current_date.date == spec_next_month(
                    self.calendar.current_date.date,
                )->0
                &&& v.calendar.current_date.hour == self.calendar.current_date.hour
                &&& v.calendar.current_date.minute == self.calendar.current_date.minute
                &&& v.calendar.current_date.second == self.calendar.current_date.second
                &&& v.calendar.all_events@.len() == 0
                &&& v.calendar.wf()
            },
    {
        match next_month(self.calendar.get_current_date().date) {
            Some(d) => {
                let cur = self.calendar.get_current_date();
                let stepped = DateTime {
                    date: d,
                    hour: cur.hour,
                    minute: cur.minute,
                    second: cur.second,
                };
                Some(CalendarRender { calendar: Calendar::new(stepped) })
            },
            None => None,
        }
    }

    /// The view one month earlier; see `next_date`.
    pub fn prev_date(&self) -> (r: Option<CalendarRender>)
        requires
            self.calendar.wf(),
        ensures
            r is Some <==> spec_prev_month(self.calendar.current_date.date) is Some,
            r is Some ==> {
                let v = r->0;
                &&& v.calendar.current_date.date == spec_prev_month(
                    self.calendar.current_date.date,
                )->0
                &&& v.calendar.current_date.hour == self.calendar.current_date.hour
                &&& v.calendar.current_date.minute == self.calendar.current_date.minute
                &&& v.calendar.current_date.second == self.calendar.current_date.second
                &&& v.calendar.all_events@.len() == 0
                &&& v.calendar.wf()
            },
    {
        match prev_month(self.calendar.get_current_date().date) {
            Some(d) => {
                let cur = self.calendar.get_current_date();
                let stepped = DateTime {
                    date: d,
                    hour: cur.hour,
                    minute: cur.minute,
                    second: cur.second,
                };
                Some(CalendarRender { calendar: Calendar::new(stepped) })
            },
            None => None,
        }
    }
}

} // verus!
