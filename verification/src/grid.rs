//! Month-grid builder: the week-by-weekday matrix used to render a calendar
//! page. Each of the 6 rows is one week of 7 cells starting on Sunday; a
//! cell holds a day number of the month, or 0, the sentinel for "no day
//! here" (padding before day 1 and after the last day). Months that span
//! fewer than 6 weeks keep the fixed row count, with trailing all-blank
//! rows, so the row count a renderer sees never changes.

use vstd::prelude::*;

use crate::dates::{days_in_month, spec_days_in_month, spec_weekday_from_sunday, valid_ym, Date};

verus! {

/// Number of week rows every grid has.
pub const GRID_WEEKS: usize = 6;

/// Days per week row.
pub const GRID_DAYS: usize = 7;

/// Value of the grid cell at flat index `idx` (0 through 41, row-major) for
/// the month (y, m): cell `idx` shows day `idx - offset + 1` when that lies
/// in the month, where `offset` is the weekday of the month's first day
/// counted from Sunday, and the blank sentinel 0 otherwise.
pub open spec fn spec_grid_cell(y: int, m: int, idx: int) -> int {
    let off = spec_weekday_from_sunday(y, m, 1);
    let day = idx - off + 1;
    if 1 <= day <= spec_days_in_month(y, m) {
        day
    } else {
        0
    }
}

/// Builds the week-major grid of day numbers for `date`'s month.
pub fn build_month_grid(date: &Date) -> (grid: Vec<Vec<u32>>)
    requires
        date.valid(),
    ensures
        grid@.len() == GRID_WEEKS,
        forall|w: int| 0 <= w < GRID_WEEKS ==> #[trigger] grid@[w]@.len() == GRID_DAYS,
        forall|w: int, s: int|
            0 <= w < GRID_WEEKS && 0 <= s < GRID_DAYS ==> #[trigger] grid@[w]@[s] as int
                == spec_grid_cell(date.year as int, date.month as int, 7 * w + s),
{
    let first = Date { year: date.year, month: date.month, day: 1 };
    let off: u32 = first.weekday_from_sunday();
    let dim: u32 = days_in_month(date.year, date.month);

    let mut grid: Vec<Vec<u32>> = Vec::new();
    let mut w: usize = 0;
    while w < GRID_WEEKS
        invariant
            date.valid(),
            off == spec_weekday_from_sunday(date.year as int, date.month as int, 1),
            off < 7,
            dim == spec_days_in_month(date.year as int, date.month as int),
            dim <= 31,
            w <= GRID_WEEKS,
            grid@.len() == w,
            forall|i: int| 0 <= i < w ==> #[trigger] grid@[i]@.len() == GRID_DAYS,
            forall|i: int, s: int|
                0 <= i < w && 0 <= s < GRID_DAYS ==> #[trigger] grid@[i]@[s] as int
                    == spec_grid_cell(date.year as int, date.month as int, 7 * i + s),
        decreases GRID_WEEKS - w,
    {
        let mut row: Vec<u32> = Vec::new();
        let mut s: usize = 0;
        while s < GRID_DAYS
            invariant
                date.valid(),
                off == spec_weekday_from_sunday(date.year as int, date.month as int, 1),
                off < 7,
                dim == spec_days_in_month(date.year as int, date.month as int),
                dim <= 31,
                w < GRID_WEEKS,
                s <= GRID_DAYS,
                row@.len() == s,
                forall|j: int|
                    0 <= j < s ==> #[trigger] row@[j] as int
                        == spec_grid_cell(date.year as int, date.month as int, 7 * w + j),
            decreases GRID_DAYS - s,
        {
            let idx: u32 = 7 * (w as u32) + (s as u32);
            let cell: u32 = if idx >= off && idx - off + 1 <= dim {
                idx - off + 1
            } else {
                0
            };
            row.push(cell);
            s = s + 1;
        }
        grid.push(row);
        w = w + 1;
    }
    grid
}

/// In the first grid row the cells before the month's weekday offset are
/// blank, day 1 lands exactly at the offset, and the days then follow in
/// order; in particular a month that starts on Sunday has zero leading
/// blanks. After the month's last day every cell is blank.
pub proof fn lemma_grid_shape(y: int, m: int)
    requires
        valid_ym(y, m),
    ensures
        forall|s: int|
            0 <= s < spec_weekday_from_sunday(y, m, 1) ==> #[trigger] spec_grid_cell(y, m, s) == 0,
        forall|i: int|
            spec_weekday_from_sunday(y, m, 1) <= i < spec_weekday_from_sunday(y, m, 1)
                + spec_days_in_month(y, m) ==> #[trigger] spec_grid_cell(y, m, i) == i
                - spec_weekday_from_sunday(y, m, 1) + 1,
        spec_weekday_from_sunday(y, m, 1) == 0 ==> spec_grid_cell(y, m, 0) == 1,
        forall|i: int|
            spec_weekday_from_sunday(y, m, 1) + spec_days_in_month(y, m) <= i < 42
                ==> #[trigger] spec_grid_cell(y, m, i) == 0,
{
}

/// Every in-month cell sits in the column of its own day's weekday: if
/// cell `idx` shows day `n`, then `idx % 7` is the weekday of (y, m, n)
/// counted from Sunday. Filling the grid cell by cell therefore agrees
/// with stepping one calendar day per slot.
pub proof fn lemma_grid_columns_match_weekdays(y: int, m: int, idx: int)
    requires
        valid_ym(y, m),
        0 <= idx < 42,
        spec_grid_cell(y, m, idx) != 0,
    ensures
        idx % 7 == spec_weekday_from_sunday(y, m, spec_grid_cell(y, m, idx)),
{
    let off = spec_weekday_from_sunday(y, m, 1);
    let n = spec_grid_cell(y, m, idx);
    let dn = crate::dates::spec_day_number(y, m, 1);
    assert(idx == (dn + 1) % 7 + (n - 1));
    vstd::arithmetic::div_mod::lemma_add_mod_noop((dn + 1) % 7, n - 1, 7);
    vstd::arithmetic::div_mod::lemma_mod_twice(dn + 1, 7);
    vstd::arithmetic::div_mod::lemma_add_mod_noop(dn + 1, n - 1, 7);
    assert(crate::dates::spec_day_number(y, m, n) == dn + (n - 1));
}

} // verus!
