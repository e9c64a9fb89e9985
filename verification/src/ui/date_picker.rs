//! A month calendar for picking a date. Dates are local days (days since
//! 1970-01-01); calendar fields come from chrono through
//! [`civil_of_day`] and [`day_of_civil`].
use vstd::prelude::*;
use crate::keys::{KeyCode, KeyEvent};
use crate::utils::datetime::{
    civil_date, civil_day, civil_of_day, day_of_civil, weekday_from_monday, weekday_of, Clock,
    local_day_of,
};

verus! {

/// The day of instant `t` (microseconds since the epoch) in UTC.
pub open spec fn utc_day(t: int) -> int {
    crate::utils::datetime::local_day(t, 0)
}

/// What the picker asks of its owner after a key.
#[derive(Debug, Clone, Copy, PartialEq, Eq, Structural)]
pub enum DatePickerAction {
    /// No action needed
    Nothing,
    /// User selected a date
    Select,
    /// User cancelled
    Cancel,
}

/// The name of month `month` (1 to 12), or "Unknown".
pub open spec fn month_title(month: int) -> Seq<char> {
    if month == 1 {
        "January"@
    } else if month == 2 {
        "February"@
    } else if month == 3 {
        "March"@
    } else if month == 4 {
        "April"@
    } else if month == 5 {
        "May"@
    } else if month == 6 {
        "June"@
    } else if month == 7 {
        "July"@
    } else if month == 8 {
        "August"@
    } else if month == 9 {
        "September"@
    } else if month == 10 {
        "October"@
    } else if month == 11 {
        "November"@
    } else if month == 12 {
        "December"@
    } else {
        "Unknown"@
    }
}

/// Returns the name of a month.
pub fn month_name(month: u32) -> (r: &'static str)
    ensures
        r@ == month_title(month as int),
{
    if month == 1 {
        "January"
    } else if month == 2 {
        "February"
    } else if month == 3 {
        "March"
    } else if month == 4 {
        "April"
    } else if month == 5 {
        "May"
    } else if month == 6 {
        "June"
    } else if month == 7 {
        "July"
    } else if month == 8 {
        "August"
    } else if month == 9 {
        "September"
    } else if month == 10 {
        "October"
    } else if month == 11 {
        "November"
    } else if month == 12 {
        "December"
    } else {
        "Unknown"
    }
}

/// The year and month after (`forward`) or before the given one.
pub open spec fn adjacent_month(year: int, month: int, forward: bool) -> (int, int) {
    if forward {
        if month == 12 {
            (year + 1, 1)
        } else {
            (year, month + 1)
        }
    } else if month == 1 {
        (year - 1, 12)
    } else {
        (year, month - 1)
    }
}

/// Whether `year` is a leap year of the proleptic Gregorian calendar.
pub open spec fn is_leap_year(year: int) -> bool {
    year % 4 == 0 && (year % 100 != 0 || year % 400 == 0)
}

/// The number of days of month `month` (1 to 12) of `year`.
pub open spec fn month_days(year: int, month: int) -> int {
    if month == 2 {
        if is_leap_year(year) {
            29
        } else {
            28
        }
    } else if month == 4 || month == 6 || month == 9 || month == 11 {
        30
    } else {
        31
    }
}

/// The number of days of the month of local day `day`, when chrono knows the day.
pub open spec fn month_length(day: int) -> Option<int> {
    match civil_date(day) {
        Some((y, m, _)) => Some(month_days(y, m)),
        None => None,
    }
}

/// The number of days of month `month` of `year` (executable [`month_days`]).
pub fn days_of_month(year: i32, month: u32) -> (r: u32)
    ensures
        r == month_days(year as int, month as int),
        28 <= r <= 31,
{
    if month == 2 {
        let y = year as i64;
        let leap = floor_mod(y, 4) == 0 && (floor_mod(y, 100) != 0 || floor_mod(y, 400) == 0);
        if leap {
            29
        } else {
            28
        }
    } else if month == 4 || month == 6 || month == 9 || month == 11 {
        30
    } else {
        31
    }
}

/// `x` modulo `d`, in `0..d`.
fn floor_mod(x: i64, d: i64) -> (r: i64)
    requires
        0 < d <= 400,
    ensures
        r == x % d,
{
    let q = crate::utils::datetime::floor_div(x, d);
    assert(-10_000_000_000_000_000_000i128 <= q * d <= 10_000_000_000_000_000_000i128) by (nonlinear_arith)
        requires
            q == x / d,
            0 < d <= 400,
            i64::MIN <= x <= i64::MAX,
    ;
    let m = x as i128 - (q as i128) * (d as i128);
    assert(m == x % d) by (nonlinear_arith)
        requires
            q == x / d,
            m == x - q * d,
            d > 0,
    ;
    assert(0 <= m < d) by (nonlinear_arith)
        requires
            m == x % d,
            d > 0,
    ;
    m as i64
}

/// The number of days in the month of local day `day` (executable [`month_length`]).
pub fn days_in_month(day: i64) -> (r: Option<u32>)
    ensures
        match r {
            Some(n) => month_length(day as int) == Some(n as int),
            None => month_length(day as int) is None,
        },
{
    match civil_of_day(day) {
        Some((y, m, _)) => Some(days_of_month(y, m)),
        None => None,
    }
}

/// The picker's state: the selected day and a day of the month on view.
#[derive(Debug, Clone, Copy, PartialEq, Eq, Structural)]
pub struct DatePicker {
    /// The selected local day
    pub selected: i64,
    /// A local day in the month on view
    pub view_month: i64,
}

/// Whether two local days fall in the same calendar month.
pub open spec fn same_month(a: int, b: int) -> bool {
    match (civil_date(a), civil_date(b)) {
        (Some((y1, m1, _)), Some((y2, m2, _))) => y1 == y2 && m1 == m2,
        _ => false,
    }
}

/// The view after making sure it shows the month of the selected day: the
/// first day of that month when the view was elsewhere.
pub open spec fn view_for(selected: int, view: int) -> int {
    if same_month(selected, view) {
        view
    } else {
        match civil_date(selected) {
            Some((y, m, _)) => match civil_day(y, m, 1) {
                Some(first) => first,
                None => view,
            },
            None => view,
        }
    }
}

/// The picker after moving to the month before or after the one on view:
/// the view goes to its first day and the selection keeps its day of the
/// month, capped at the new month's length.
pub open spec fn month_moved(p: DatePicker, forward: bool) -> DatePicker {
    match civil_date(p.view_month as int) {
        Some((y, m, _)) => {
            let (ny, nm) = adjacent_month(y, m, forward);
            if ny < i32::MIN || ny > i32::MAX {
                p
            } else {
                match civil_day(ny, nm, 1) {
                    Some(first) => match civil_date(p.selected as int) {
                        Some((_, _, d)) => {
                            let len = month_days(ny, nm);
                            match civil_day(ny, nm, if d < len { d } else { len }) {
                                Some(sel) => DatePicker { selected: sel as i64, view_month: first as i64 },
                                None => DatePicker { view_month: first as i64, ..p },
                            }
                        },
                        None => DatePicker { view_month: first as i64, ..p },
                    },
                    None => p,
                }
            }
        },
        None => p,
    }
}

impl DatePicker {
    /// A picker on the given local day.
    pub fn with_date(date: i64) -> (r: Self)
        ensures
            r.selected == date,
            r.view_month == date,
    {
        DatePicker { selected: date, view_month: date }
    }

    /// A picker on the clock's current day in UTC.
    pub fn new_at(clock: Clock) -> (r: Self)
        ensures
            r.selected == utc_day(clock.now as int),
            r.view_month == utc_day(clock.now as int),
    {
        let today = local_day_of(clock.now, 0);
        DatePicker { selected: today, view_month: today }
    }

    /// A picker on today.
    pub fn new() -> (r: Self)
        ensures
            r.selected == r.view_month,
    {
        DatePicker::new_at(Clock::read())
    }

    /// The selected local day.
    pub fn selected(&self) -> (r: i64)
        ensures
            r == self.selected,
    {
        self.selected
    }

    /// Selects a day and shows its month.
    pub fn set_date(&mut self, date: i64)
        ensures
            final(self).selected == date,
            final(self).view_month == date,
    {
        self.selected = date;
        self.view_month = date;
    }

    /// Shows the month of the selected day.
    fn ensure_view_contains_selected(&mut self)
        ensures
            final(self).selected == old(self).selected,
            final(self).view_month == view_for(old(self).selected as int, old(self).view_month as int),
    {
        let same = match (civil_of_day(self.selected), civil_of_day(self.view_month)) {
            (Some((y1, m1, _)), Some((y2, m2, _))) => y1 == y2 && m1 == m2,
            _ => false,
        };
        if !same {
            match civil_of_day(self.selected) {
                Some((y, m, _)) => match day_of_civil(y, m, 1) {
                    Some(first) => {
                        self.view_month = first;
                    },
                    None => {},
                },
                None => {},
            }
        }
    }

    /// Moves to the month before or after the one on view.
    fn move_month(&mut self, forward: bool)
        ensures
            *final(self) == month_moved(*old(self), forward),
    {
        match civil_of_day(self.view_month) {
            Some((y, m, _)) => {
                let (ny, nm): (i32, u32) = if forward {
                    if m == 12 {
                        if y == i32::MAX {
                            return;
                        }
                        (y + 1, 1)
                    } else {
                        (y, m + 1)
                    }
                } else if m == 1 {
                    if y == i32::MIN {
                        return;
                    }
                    (y - 1, 12)
                } else {
                    (y, m - 1)
                };
                match day_of_civil(ny, nm, 1) {
                    Some(first) => {
                        match civil_of_day(self.selected) {
                            Some((_, _, d)) => {
                                let len = days_of_month(ny, nm);
                                let want = if d < len {
                                    d
                                } else {
                                    len
                                };
                                match day_of_civil(ny, nm, want) {
                                    Some(sel) => {
                                        self.selected = sel;
                                    },
                                    None => {},
                                }
                                self.view_month = first;
                            },
                            None => {
                                self.view_month = first;
                            },
                        }
                    },
                    None => {},
                }
            },
            None => {},
        }
    }

    /// Handles a key (see [`picker_after_key`]), with "today" taken from `clock`.
    pub fn handle_key_at(&mut self, key: KeyEvent, clock: Clock) -> (r: DatePickerAction)
        requires
            clock.wf(),
        ensures
            (*final(self), r) == picker_after_key(*old(self), key, clock),
    {
        match key.code {
            KeyCode::Left | KeyCode::Char('h') | KeyCode::Right | KeyCode::Char('l')
            | KeyCode::Up | KeyCode::Char('k') | KeyCode::Down | KeyCode::Char('j') => {
                let step: i64 = match key.code {
                    KeyCode::Left | KeyCode::Char('h') => -1,
                    KeyCode::Right | KeyCode::Char('l') => 1,
                    KeyCode::Up | KeyCode::Char('k') => -7,
                    _ => 7,
                };
                let target = self.selected as i128 + step as i128;
                if target < i64::MIN as i128 || target > i64::MAX as i128 {
                    return DatePickerAction::Nothing;
                }
                let t = target as i64;
                if civil_of_day(t).is_some() {
                    self.selected = t;
                    self.ensure_view_contains_selected();
                }
                DatePickerAction::Nothing
            },
            KeyCode::PageUp | KeyCode::Char('H') => {
                self.move_month(false);
                DatePickerAction::Nothing
            },
            KeyCode::PageDown | KeyCode::Char('L') => {
                self.move_month(true);
                DatePickerAction::Nothing
            },
            KeyCode::Char('t') => {
                self.selected = local_day_of(clock.now, 0);
                self.ensure_view_contains_selected();
                DatePickerAction::Nothing
            },
            KeyCode::Enter => DatePickerAction::Select,
            KeyCode::Esc | KeyCode::Char('q') => DatePickerAction::Cancel,
            _ => DatePickerAction::Nothing,
        }
    }

    /// Handles a key (see [`picker_after_key`]), with "today" read from the clock.
    pub fn handle_key(&mut self, key: KeyEvent) -> (r: DatePickerAction)
        ensures
            exists|c: Clock| c.wf() && (*final(self), r) == picker_after_key(*old(self), key, c),
    {
        self.handle_key_at(key, Clock::read())
    }
}

/// The days a key moves the selection: the side arrows and `h`/`l` a day,
/// the up and down arrows and `k`/`j` a week.
pub open spec fn key_step(code: KeyCode) -> Option<int> {
    match code {
        KeyCode::Left | KeyCode::Char('h') => Some(-1),
        KeyCode::Right | KeyCode::Char('l') => Some(1),
        KeyCode::Up | KeyCode::Char('k') => Some(-7),
        KeyCode::Down | KeyCode::Char('j') => Some(7),
        _ => None,
    }
}

/// The picker and the action after a key: a step moves the selection when
/// the day it reaches is in chrono's calendar, Page Up/Down and `H`/`L`
/// change month, `t` selects today (in UTC), Enter selects and Esc or `q` cancels;
/// the view follows the selection's month.
pub open spec fn picker_after_key(p: DatePicker, key: KeyEvent, clock: Clock) -> (DatePicker, DatePickerAction) {
    match key_step(key.code) {
        Some(step) => {
            let t = p.selected + step;
            if i64::MIN <= t <= i64::MAX && civil_date(t) is Some {
                (DatePicker { selected: t as i64, view_month: view_for(t, p.view_month as int) as i64 }, DatePickerAction::Nothing)
            } else {
                (p, DatePickerAction::Nothing)
            }
        },
        None => match key.code {
            KeyCode::PageUp | KeyCode::Char('H') => (month_moved(p, false), DatePickerAction::Nothing),
            KeyCode::PageDown | KeyCode::Char('L') => (month_moved(p, true), DatePickerAction::Nothing),
            KeyCode::Char('t') => (
                DatePicker {
                    selected: utc_day(clock.now as int) as i64,
                    view_month: view_for(utc_day(clock.now as int), p.view_month as int) as i64,
                },
                DatePickerAction::Nothing,
            ),
            KeyCode::Enter => (p, DatePickerAction::Select),
            KeyCode::Esc | KeyCode::Char('q') => (p, DatePickerAction::Cancel),
            _ => (p, DatePickerAction::Nothing),
        },
    }
}

impl Default for DatePicker {
    fn default() -> (r: Self)
        ensures
            r.selected == r.view_month,
    {
        DatePicker::new()
    }
}

/// How a day of the calendar grid is shown.
#[derive(Debug, Clone, Copy, PartialEq, Eq, Structural)]
pub enum DayStyle {
    /// The selected day
    Selected,
    /// Today, when not selected
    Today,
    /// Saturday or Sunday
    Weekend,
    /// Any other day
    Plain,
}

/// Cell `k` of the grid of a month whose first day is local day `first`,
/// with `n` days: the days of the month in order, from the column of the
/// first day's weekday (Monday first); the other cells are blank.
pub open spec fn grid_cell(first: int, n: int, selected: int, today: int, k: int) -> Option<(u32, DayStyle)> {
    let start = weekday_from_monday(first);
    if start <= k < start + n {
        let d = k - start + 1;
        let date = first + d - 1;
        Some(
            (d as u32, if date == selected {
                DayStyle::Selected
            } else if date == today {
                DayStyle::Today
            } else if k % 7 >= 5 {
                DayStyle::Weekend
            } else {
                DayStyle::Plain
            }),
        )
    } else {
        None
    }
}

/// The grid of the month of `first` laid out in weeks: `rows` rows of
/// seven cells, enough for every day.
pub open spec fn grid_is(g: Seq<Seq<Option<(u32, DayStyle)>>>, first: int, n: int, selected: int, today: int) -> bool {
    let start = weekday_from_monday(first);
    &&& g.len() == (start + n + 6) / 7
    &&& forall|r: int| 0 <= r < g.len() ==> (#[trigger] g[r]).len() == 7
    &&& forall|r: int, c: int|
        0 <= r < g.len() && 0 <= c < 7 ==> (#[trigger] g[r][c]) == grid_cell(
            first,
            n,
            selected,
            today,
            7 * r + c,
        )
}

/// The days of the week, one column each, Monday first.
pub proof fn law_grid_weekdays(first: int, n: int, selected: int, today: int, k: int)
    requires
        0 <= n <= 31,
        grid_cell(first, n, selected, today, k) is Some,
    ensures
        weekday_from_monday(first + (grid_cell(first, n, selected, today, k)->0).0 - 1) == k % 7,
{
    let start = weekday_from_monday(first);
    let d = k - start + 1;
    assert(1 <= d <= 31);
    assert((d as u32) as int == d);
    assert(weekday_from_monday(first + d - 1) == (first + 3 + (k - start)) % 7);
    assert((first + 3 + (k - start)) % 7 == k % 7) by (nonlinear_arith)
        requires
            start == (first + 3) % 7,
    ;
}

impl DatePicker {
    /// The calendar grid of the month on view, with `today` marked: `None`
    /// when the month lies outside the calendar's range.
    pub fn calendar_grid(&self, today: i64) -> (r: Option<Vec<Vec<Option<(u32, DayStyle)>>>>)
        ensures
            match r {
                Some(g) => match civil_date(self.view_month as int) {
                    Some((y, m, _)) => match civil_day(y, m, 1) {
                        Some(first) => grid_is(
                            g@.map_values(|row: Vec<Option<(u32, DayStyle)>>| row@),
                            first,
                            month_days(y, m),
                            self.selected as int,
                            today as int,
                        ),
                        None => false,
                    },
                    None => false,
                },
                None => match civil_date(self.view_month as int) {
                    Some((y, m, _)) => civil_day(y, m, 1) is None,
                    None => true,
                },
            },
    {
        let (y, m) = match civil_of_day(self.view_month) {
            Some((y, m, _)) => (y, m),
            None => {
                return None;
            },
        };
        let first = match day_of_civil(y, m, 1) {
            Some(f) => f,
            None => {
                return None;
            },
        };
        let n = days_of_month(y, m) as i64;
        let start = weekday_of(first);
        let rows = (start + n + 6) / 7;
        let ghost gs = |g: Seq<Vec<Option<(u32, DayStyle)>>>| g.map_values(|row: Vec<Option<(u32, DayStyle)>>| row@);
        let mut g: Vec<Vec<Option<(u32, DayStyle)>>> = Vec::new();
        let mut r: i64 = 0;
        while r < rows
            invariant
                0 <= r <= rows,
                rows == (start + n + 6) / 7,
                0 <= start < 7,
                28 <= n <= 31,
                start == weekday_from_monday(first as int),
                g@.len() == r,
                forall|i: int| 0 <= i < r ==> (#[trigger] g@[i])@.len() == 7,
                forall|i: int, c: int|
                    0 <= i < r && 0 <= c < 7 ==> (#[trigger] g@[i]@[c]) == grid_cell(
                        first as int,
                        n as int,
                        self.selected as int,
                        today as int,
                        7 * i + c,
                    ),
            decreases rows - r,
        {
            let mut row: Vec<Option<(u32, DayStyle)>> = Vec::new();
            let mut c: i64 = 0;
            while c < 7
                invariant
                    0 <= c <= 7,
                    0 <= r < rows,
                    rows == (start + n + 6) / 7,
                    0 <= start < 7,
                    28 <= n <= 31,
                    start == weekday_from_monday(first as int),
                    row@.len() == c,
                    forall|j: int| 0 <= j < c ==> (#[trigger] row@[j]) == grid_cell(
                        first as int,
                        n as int,
                        self.selected as int,
                        today as int,
                        7 * r + j,
                    ),
                decreases 7 - c,
            {
                let k = 7 * r + c;
                let cell = if start <= k && k < start + n {
                    let d = k - start + 1;
                    let date = first as i128 + d as i128 - 1;
                    let style = if date == self.selected as i128 {
                        DayStyle::Selected
                    } else if date == today as i128 {
                        DayStyle::Today
                    } else if c >= 5 {
                        DayStyle::Weekend
                    } else {
                        DayStyle::Plain
                    };
                    assert(k % 7 == c) by (nonlinear_arith)
                        requires
                            k == 7 * r + c,
                            0 <= c < 7,
                            r >= 0,
                    ;
                    Some((d as u32, style))
                } else {
                    None
                };
                row.push(cell);
                c = c + 1;
            }
            g.push(row);
            r = r + 1;
        }
        proof {
            let gv = g@.map_values(|row: Vec<Option<(u32, DayStyle)>>| row@);
            assert forall|i: int| 0 <= i < gv.len() implies (#[trigger] gv[i]).len() == 7 by {
                assert(gv[i] == g@[i]@);
            }
            assert forall|i: int, c: int| 0 <= i < gv.len() && 0 <= c < 7 implies (#[trigger] gv[i][c])
                == grid_cell(first as int, n as int, self.selected as int, today as int, 7 * i + c) by {
                assert(gv[i] == g@[i]@);
            }
        }
        Some(g)
    }
}


/// The header of the picker for a view month on local day `view`: arrows
/// round the month's name and year, or only the arrows outside chrono's
/// calendar.
pub open spec fn header_text(view: int) -> Seq<char> {
    match civil_date(view) {
        Some((y, m, _)) => "◀  "@ + month_title(m) + seq![' '] + crate::text::decimal(y) + "  ▶"@,
        None => "◀    ▶"@,
    }
}

impl DatePicker {
    /// The header line: the month on view and its year between arrows.
    pub fn header(&self) -> (r: String)
        ensures
            r@ == header_text(self.view_month as int),
    {
        match civil_of_day(self.view_month) {
            Some((y, m, _)) => {
                let mut s = crate::text::string_from("◀  ");
                s.append(month_name(m));
                s.append(" ");
                let year = crate::text::decimal_string(y as i64);
                s.append(year.as_str());
                s.append("  ▶");
                proof {
                    reveal_strlit(" ");
                }
                s
            },
            None => crate::text::string_from("◀    ▶"),
        }
    }
}

} // verus!
