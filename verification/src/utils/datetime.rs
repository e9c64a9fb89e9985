//! Dates and times. An instant is a count of microseconds since
//! 1970-01-01T00:00:00Z; a local calendar day is a count of days since
//! 1970-01-01 in the local time zone, whose offset from UTC is read with
//! the current time.
use vstd::prelude::*;
use crate::text::string_from;
use chrono::Datelike;

verus! {

/// Microseconds in a second.
pub const MICROS_PER_SEC: i64 = 1_000_000;

/// Seconds in a day.
pub const SECS_PER_DAY: i64 = 86_400;

/// Microseconds in a week.
pub const MICROS_PER_WEEK: i64 = 604_800_000_000;

/// The local calendar day of instant `t` under UTC offset `offset` (seconds).
pub open spec fn local_day(t: int, offset: int) -> int {
    (t / (MICROS_PER_SEC as int) + offset) / (SECS_PER_DAY as int)
}

/// `x` divided by `d`, rounded towards negative infinity.
pub fn floor_div(x: i64, d: i64) -> (r: i64)
    requires
        d > 0,
    ensures
        r == x / d,
{
    if x >= 0 {
        let q = (x as u64) / (d as u64);
        assert(q <= x) by (nonlinear_arith)
            requires
                q == x / d,
                x >= 0,
                d > 0,
        ;
        q as i64
    } else {
        let y = (-(x + 1)) as u64;
        let q = y / (d as u64);
        proof {
            lemma_floor_div_negative(x as int, d as int, y as int, q as int);
        }
        -(q as i64) - 1
    }
}

proof fn lemma_floor_div_negative(x: int, d: int, y: int, q: int)
    requires
        x < 0,
        d > 0,
        y == -x - 1,
        q == y / d,
    ensures
        x / d == -q - 1,
        0 <= q <= y,
{
    let r = y % d;
    assert(y == d * q + r && 0 <= r < d) by (nonlinear_arith)
        requires
            q == y / d,
            r == y % d,
            d > 0,
            y >= 0,
    ;
    assert(x == d * (-q - 1) + (d - r - 1)) by (nonlinear_arith)
        requires
            y == d * q + r,
            x == -y - 1,
    ;
    vstd::arithmetic::div_mod::lemma_fundamental_div_mod_converse(x, d, -q - 1, d - r - 1);
    assert(q <= y) by (nonlinear_arith)
        requires
            q == y / d,
            y >= 0,
            d > 0,
    ;
}

/// The current instant, read with `chrono::Utc::now` and given in
/// microseconds since the Unix epoch. It depends on the clock: nothing is
/// stated of it.
#[verifier::external_body]
pub fn now() -> (r: i64) {
    chrono::Utc::now().timestamp_micros()
}

/// The current offset of the local time zone from UTC in seconds, read with
/// `chrono::Local::now`. It depends on the machine; chrono keeps every
/// offset strictly within one day.
#[verifier::external_body]
fn local_offset() -> (r: i32)
    ensures
        -86_400 < r < 86_400,
{
    chrono::Local::now().offset().local_minus_utc()
}

/// The current time and the local time zone's offset, read together.
#[derive(Debug, Clone, Copy)]
pub struct Clock {
    /// Microseconds since the Unix epoch.
    pub now: i64,
    /// Local offset from UTC in seconds.
    pub offset: i32,
}

impl Clock {
    /// The offset lies strictly within one day.
    pub open spec fn wf(&self) -> bool {
        -86_400 < self.offset < 86_400
    }

    /// A clock at instant `now` with offset `offset`.
    pub fn at(now: i64, offset: i32) -> (r: Self)
        ensures
            r.now == now,
            r.offset == offset,
    {
        Clock { now, offset }
    }

    /// Reads the current time and offset.
    pub fn read() -> (r: Self)
        ensures
            r.wf(),
    {
        let offset = local_offset();
        let now = now();
        Clock { now, offset }
    }

    /// Today's local calendar day.
    pub open spec fn today(&self) -> int {
        local_day(self.now as int, self.offset as int)
    }
}

/// The local calendar day of instant `t` (executable [`local_day`]).
pub fn local_day_of(t: i64, offset: i32) -> (r: i64)
    requires
        -86_400 < offset < 86_400,
    ensures
        r == local_day(t as int, offset as int),
{
    let secs = floor_div(t, MICROS_PER_SEC);
    assert(-9_223_372_036_855 <= secs <= 9_223_372_036_855) by (nonlinear_arith)
        requires
            secs == t / 1_000_000,
            i64::MIN <= t <= i64::MAX,
    ;
    floor_div(secs + offset as i64, SECS_PER_DAY)
}

/// Whether two instants fall on the same local calendar day.
pub fn is_same_day_at(a: i64, b: i64, offset: i32) -> (r: bool)
    requires
        -86_400 < offset < 86_400,
    ensures
        r == (local_day(a as int, offset as int) == local_day(b as int, offset as int)),
{
    local_day_of(a, offset) == local_day_of(b, offset)
}

/// Whether two instants fall on the same local calendar day, under the
/// current local offset.
pub fn is_same_day(a: i64, b: i64) -> (r: bool)
    ensures
        exists|off: int|
            -86_400 < off < 86_400 && r == (local_day(a as int, off) == local_day(b as int, off)),
{
    let c = Clock::read();
    is_same_day_at(a, b, c.offset)
}

/// Whether instant `date` falls on the clock's local day.
pub fn is_today_at(date: i64, clock: Clock) -> (r: bool)
    requires
        clock.wf(),
    ensures
        r == (local_day(date as int, clock.offset as int) == clock.today()),
{
    local_day_of(date, clock.offset) == local_day_of(clock.now, clock.offset)
}

/// Whether instant `date` falls on today's local day.
pub fn is_today(date: i64) -> (r: bool)
    ensures
        exists|c: Clock| c.wf() && r == (local_day(date as int, c.offset as int) == c.today()),
{
    let c = Clock::read();
    is_today_at(date, c)
}

/// Whether `date` lies within the seven days from `now`, both ends included.
pub open spec fn within_week(date: int, now: int) -> bool {
    now <= date <= now + MICROS_PER_WEEK
}

/// Whether `date` lies within the seven days from `now`, both ends included.
pub fn is_this_week_at(date: i64, now: i64) -> (r: bool)
    ensures
        r == within_week(date as int, now as int),
{
    let d = date as i128;
    let n = now as i128;
    n <= d && d <= n + MICROS_PER_WEEK as i128
}

/// Whether `date` lies within the seven days from the current instant.
pub fn is_this_week(date: i64) -> (r: bool)
    ensures
        exists|now: i64| r == within_week(date as int, now as int),
{
    is_this_week_at(date, now())
}

/// Local calendar days from the clock's day to the day of `date`
/// (negative for past days).
pub fn days_until_at(date: i64, clock: Clock) -> (r: i64)
    requires
        clock.wf(),
    ensures
        r == local_day(date as int, clock.offset as int) - clock.today(),
{
    let d = local_day_of(date, clock.offset);
    let t = local_day_of(clock.now, clock.offset);
    assert(-200_000_000 < d < 200_000_000 && -200_000_000 < t < 200_000_000) by (nonlinear_arith)
        requires
            d == local_day(date as int, clock.offset as int),
            t == local_day(clock.now as int, clock.offset as int),
            -86_400 < clock.offset < 86_400,
            i64::MIN <= date <= i64::MAX,
            i64::MIN <= clock.now <= i64::MAX,
    ;
    d - t
}

/// Local calendar days from today to the day of `date`.
pub fn days_until(date: i64) -> (r: i64)
    ensures
        exists|c: Clock| c.wf() && r == local_day(date as int, c.offset as int) - c.today(),
{
    let c = Clock::read();
    days_until_at(date, c)
}

/// How a date relates to today, as a due date is shown.
#[derive(Debug, Clone, Copy, PartialEq, Eq, Structural)]
pub enum RelativeDay {
    Today,
    Tomorrow,
    Yesterday,
    /// Within the next week (2 to 7 days ahead).
    ThisWeek,
    /// Further away.
    Other,
}

/// The relation of local day `day` to local day `today`.
pub open spec fn relative_day(day: int, today: int) -> RelativeDay {
    if day == today {
        RelativeDay::Today
    } else if day == today + 1 {
        RelativeDay::Tomorrow
    } else if day == today - 1 {
        RelativeDay::Yesterday
    } else if today < day <= today + 7 {
        RelativeDay::ThisWeek
    } else {
        RelativeDay::Other
    }
}

/// Classifies instant `date` against the clock's local day.
pub fn classify_day(date: i64, clock: Clock) -> (r: RelativeDay)
    requires
        clock.wf(),
    ensures
        r == relative_day(local_day(date as int, clock.offset as int), clock.today()),
{
    let diff = days_until_at(date, clock);
    if diff == 0 {
        RelativeDay::Today
    } else if diff == 1 {
        RelativeDay::Tomorrow
    } else if diff == -1 {
        RelativeDay::Yesterday
    } else if 0 < diff && diff <= 7 {
        RelativeDay::ThisWeek
    } else {
        RelativeDay::Other
    }
}

/// Days between 0001-01-01 (day 1 of the proleptic Gregorian calendar)
/// and 1970-01-01.
pub const EPOCH_DAYS_FROM_CE: i64 = 719_163;


/// The day count from the Common Era (0001-01-01 is day 1) of local day
/// `day` (days since 1970-01-01).
pub open spec fn ce_count(day: int) -> int {
    day + EPOCH_DAYS_FROM_CE
}

/// Whether a day count fits the `i32` that chrono takes.
pub open spec fn fits_i32(n: int) -> bool {
    i32::MIN <= n <= i32::MAX
}

/// The `strftime` patterns the application formats days with.
pub open spec fn day_pattern(p: Seq<char>) -> bool {
    p == "%a %d"@ || p == "%b %d"@ || p == "%A, %B %d"@ || p == "%Y-%m-%d"@
}

/// The text chrono's `NaiveDate::format` gives, with the `strftime`
/// pattern `pattern`, for the date whose day count from the Common Era is `n`.
pub uninterp spec fn ce_formatted(n: int, pattern: Seq<char>) -> Seq<char>;

/// The text chrono's `NaiveDate::format` gives for local day `day` and the
/// `strftime` pattern `pattern`.
pub open spec fn formatted_day(day: int, pattern: Seq<char>) -> Seq<char> {
    ce_formatted(ce_count(day), pattern)
}

/// Formats the date with day count `n` from the Common Era with chrono's
/// `NaiveDate::from_num_days_from_ce_opt` and `format`; the text is named by
/// [`ce_formatted`]. There is none for a count outside chrono's calendar,
/// the same counts for which [`ce_date`] names no date. The pattern is one
/// of the application's: chrono panics on a malformed one.
#[verifier::external_body]
fn format_ce(n: i32, pattern: &str) -> (r: Option<String>)
    requires
        day_pattern(pattern@),
    ensures
        match r {
            Some(t) => t@ == ce_formatted(n as int, pattern@) && ce_date(n as int) is Some,
            None => ce_date(n as int) is None,
        },
{
    match chrono::NaiveDate::from_num_days_from_ce_opt(n) {
        Some(date) => Some(date.format(pattern).to_string()),
        None => None,
    }
}

/// Formats local day `day` with one of the application's patterns (see
/// [`formatted_day`]); there is no text for a day outside chrono's calendar.
pub(crate) fn format_day(day: i64, pattern: &str) -> (r: Option<String>)
    requires
        day_pattern(pattern@),
    ensures
        match r {
            Some(t) => t@ == formatted_day(day as int, pattern@) && civil_date(day as int) is Some,
            None => civil_date(day as int) is None,
        },
{
    let n: i128 = day as i128 + EPOCH_DAYS_FROM_CE as i128;
    if n < i32::MIN as i128 || n > i32::MAX as i128 {
        return None;
    }
    format_ce(n as i32, pattern)
}

/// Formatted text for local day `day`, or nothing outside chrono's calendar.
pub open spec fn day_text(day: int, pattern: Seq<char>) -> Seq<char> {
    if civil_date(day) is Some {
        formatted_day(day, pattern)
    } else {
        Seq::empty()
    }
}

/// The label of a due date on local day `day`, seen from local day `today`.
pub open spec fn relative_label(day: int, today: int) -> Seq<char> {
    match relative_day(day, today) {
        RelativeDay::Today => "Today"@,
        RelativeDay::Tomorrow => "Tomorrow"@,
        RelativeDay::Yesterday => "Yesterday"@,
        RelativeDay::ThisWeek => day_text(day, "%a %d"@),
        RelativeDay::Other => day_text(day, "%b %d"@),
    }
}

/// Formats a date relative to the clock's day: "Today", "Tomorrow",
/// "Yesterday", the weekday and day within the next week, else the month and day.
pub fn format_relative_date_at(date: i64, clock: Clock) -> (r: String)
    requires
        clock.wf(),
    ensures
        r@ == relative_label(local_day(date as int, clock.offset as int), clock.today()),
{
    let day = local_day_of(date, clock.offset);
    proof {
        reveal_strlit("Today");
        reveal_strlit("Tomorrow");
        reveal_strlit("Yesterday");
    }
    let pattern = match classify_day(date, clock) {
        RelativeDay::Today => return string_from("Today"),
        RelativeDay::Tomorrow => return string_from("Tomorrow"),
        RelativeDay::Yesterday => return string_from("Yesterday"),
        RelativeDay::ThisWeek => "%a %d",
        RelativeDay::Other => "%b %d",
    };
    match format_day(day, pattern) {
        Some(t) => t,
        None => String::new(),
    }
}

/// Formats a date relative to today (see [`format_relative_date_at`]).
pub fn format_relative_date(date: i64) -> (r: String)
    ensures
        exists|c: Clock|
            c.wf() && r@ == relative_label(local_day(date as int, c.offset as int), c.today()),
{
    let c = Clock::read();
    format_relative_date_at(date, c)
}

/// Formats an optional due date: the relative label, or the empty string.
pub fn format_due_date(date: Option<i64>) -> (r: String)
    ensures
        date is None ==> r@.len() == 0,
        date matches Some(d) ==> exists|c: Clock|
            c.wf() && r@ == relative_label(local_day(d as int, c.offset as int), c.today()),
{
    match date {
        Some(d) => format_relative_date(d),
        None => String::new(),
    }
}

/// The calendar date (year, month, day) chrono's
/// `NaiveDate::from_num_days_from_ce_opt` gives for the day count `n` from
/// the Common Era, if the count lies in chrono's calendar.
pub uninterp spec fn ce_date(n: int) -> Option<(int, int, int)>;

/// The calendar date (year, month, day) of local day `day`, if that day lies
/// in chrono's calendar.
pub open spec fn civil_date(day: int) -> Option<(int, int, int)> {
    if fits_i32(ce_count(day)) {
        ce_date(ce_count(day))
    } else {
        None
    }
}

/// The calendar date of day count `n` from the Common Era: chrono's
/// `NaiveDate::from_num_days_from_ce_opt`, read back with `year`, `month`
/// and `day`. The result is named by [`ce_date`]; chrono documents months
/// from 1 to 12 and days from 1 to 31.
#[verifier::external_body]
fn date_of_ce(n: i32) -> (r: Option<(i32, u32, u32)>)
    ensures
        match r {
            Some((y, m, d)) => ce_date(n as int) == Some((y as int, m as int, d as int)) && 1 <= m <= 12
                && 1 <= d <= 31,
            None => ce_date(n as int) is None,
        },
{
    match chrono::NaiveDate::from_num_days_from_ce_opt(n) {
        Some(date) => Some((date.year(), date.month(), date.day())),
        None => None,
    }
}

/// The calendar date of local day `day` (days since 1970-01-01), if that day
/// lies in chrono's calendar.
pub(crate) fn civil_of_day(day: i64) -> (r: Option<(i32, u32, u32)>)
    ensures
        match r {
            Some((y, m, d)) => civil_date(day as int) == Some((y as int, m as int, d as int))
                && 1 <= m <= 12 && 1 <= d <= 31,
            None => civil_date(day as int) is None,
        },
{
    let n: i128 = day as i128 + EPOCH_DAYS_FROM_CE as i128;
    if n < i32::MIN as i128 || n > i32::MAX as i128 {
        return None;
    }
    date_of_ce(n as i32)
}

/// The day count from the Common Era that chrono's `NaiveDate::from_ymd_opt`
/// and `num_days_from_ce` give for a calendar date, if the date exists.
pub uninterp spec fn ymd_ce(year: int, month: int, day: int) -> Option<int>;

/// The local day (days since 1970-01-01) of a calendar date, if it exists.
pub open spec fn civil_day(year: int, month: int, day: int) -> Option<int> {
    match ymd_ce(year, month, day) {
        Some(n) => Some(n - EPOCH_DAYS_FROM_CE),
        None => None,
    }
}

/// The day count from the Common Era of year `year`, month `month`, day
/// `day`, with chrono's `NaiveDate::from_ymd_opt` and `num_days_from_ce`;
/// named by [`ymd_ce`]. As chrono documents both as counting from
/// 0001-01-01, the count reads back as the same date.
#[verifier::external_body]
fn ce_of_ymd(year: i32, month: u32, day: u32) -> (r: Option<i32>)
    ensures
        match r {
            Some(n) => ymd_ce(year as int, month as int, day as int) == Some(n as int) && ce_date(n as int)
                == Some((year as int, month as int, day as int)),
            None => ymd_ce(year as int, month as int, day as int) is None,
        },
{
    match chrono::NaiveDate::from_ymd_opt(year, month, day) {
        Some(date) => Some(date.num_days_from_ce()),
        None => None,
    }
}

/// The local day of year `year`, month `month`, day `day` (see [`civil_day`]).
pub(crate) fn day_of_civil(year: i32, month: u32, day: u32) -> (r: Option<i64>)
    ensures
        match r {
            Some(x) => civil_day(year as int, month as int, day as int) == Some(x as int),
            None => civil_day(year as int, month as int, day as int) is None,
        },
{
    match ce_of_ymd(year, month, day) {
        Some(n) => Some(n as i64 - EPOCH_DAYS_FROM_CE),
        None => None,
    }
}

/// The day count from the Common Era of the date chrono's
/// `NaiveDate::parse_from_str` reads from `s` with the `strftime` pattern
/// `pattern`, if it reads a date.
pub uninterp spec fn parsed_ce(s: Seq<char>, pattern: Seq<char>) -> Option<int>;

/// The local day read from `s` with the `strftime` pattern `pattern`, if a
/// date is read.
pub open spec fn parsed_day(s: Seq<char>, pattern: Seq<char>) -> Option<int> {
    match parsed_ce(s, pattern) {
        Some(n) => Some(n - EPOCH_DAYS_FROM_CE),
        None => None,
    }
}

/// Reads a date from `s` with chrono's `NaiveDate::parse_from_str` and the
/// pattern `pattern` (an error, not a panic, on a malformed pattern), and
/// gives its `num_days_from_ce`; named by [`parsed_ce`].
#[verifier::external_body]
fn parse_ce(s: &str, pattern: &str) -> (r: Option<i32>)
    ensures
        match r {
            Some(n) => parsed_ce(s@, pattern@) == Some(n as int),
            None => parsed_ce(s@, pattern@) is None,
        },
{
    match chrono::NaiveDate::parse_from_str(s, pattern) {
        Ok(date) => Some(date.num_days_from_ce()),
        Err(_) => None,
    }
}

/// Reads a local day from `s` with the `strftime` pattern `pattern` (see
/// [`parsed_day`]).
pub(crate) fn parse_day(s: &str, pattern: &str) -> (r: Option<i64>)
    ensures
        match r {
            Some(x) => parsed_day(s@, pattern@) == Some(x as int),
            None => parsed_day(s@, pattern@) is None,
        },
{
    match parse_ce(s, pattern) {
        Some(n) => Some(n as i64 - EPOCH_DAYS_FROM_CE),
        None => None,
    }
}

/// The weekday of local day `day`, counted from Monday (0) to Sunday (6);
/// 1970-01-01 was a Thursday.
pub open spec fn weekday_from_monday(day: int) -> int {
    (day + 3) % 7
}

/// The weekday of local day `day` (executable [`weekday_from_monday`]).
pub fn weekday_of(day: i64) -> (r: i64)
    ensures
        r == weekday_from_monday(day as int),
        0 <= r < 7,
{
    let q = floor_div(day, 7);
    let mm = day as i128 - 7 * (q as i128);
    assert(0 <= mm < 7 && mm == day % 7) by (nonlinear_arith)
        requires
            q == day / 7,
            mm == day - 7 * q,
    ;
    let m = mm as i64;
    let w = m + 3;
    if w >= 7 {
        assert(weekday_from_monday(day as int) == w - 7) by (nonlinear_arith)
            requires
                m == day % 7,
                w == m + 3,
                w >= 7,
        {
            vstd::arithmetic::div_mod::lemma_add_mod_noop(day as int, 3, 7);
        }
        w - 7
    } else {
        assert(weekday_from_monday(day as int) == w) by (nonlinear_arith)
            requires
                m == day % 7,
                w == m + 3,
                w < 7,
        {
            vstd::arithmetic::div_mod::lemma_add_mod_noop(day as int, 3, 7);
        }
        w
    }
}

/// The instant (microseconds since the epoch) of 23:59:59 on local day
/// `day` at UTC offset `offset` seconds, when it fits an `i64`.
pub open spec fn end_of_day(day: int, offset: int) -> Option<int> {
    let t = (day * 86_400 + 86_399 - offset) * 1_000_000;
    if i64::MIN <= t <= i64::MAX {
        Some(t)
    } else {
        None
    }
}

/// The instant of 23:59:59 on local day `day` (executable [`end_of_day`]).
pub fn end_of_day_at(day: i64, offset: i32) -> (r: Option<i64>)
    ensures
        match r {
            Some(t) => end_of_day(day as int, offset as int) == Some(t as int),
            None => end_of_day(day as int, offset as int) is None,
        },
{
    let d = day as i128;
    let secs = d * 86_400 + 86_399 - offset as i128;
    assert(-800_000_000_000_000_000_000_000i128 < secs < 800_000_000_000_000_000_000_000i128) by (nonlinear_arith)
        requires
            secs == d * 86_400 + 86_399 - offset,
            i64::MIN <= d <= i64::MAX,
            i32::MIN <= offset <= i32::MAX,
    ;
    let t = secs * 1_000_000;
    if t < i64::MIN as i128 || t > i64::MAX as i128 {
        None
    } else {
        Some(t as i64)
    }
}

} // verus!
