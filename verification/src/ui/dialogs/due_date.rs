//! Reading due dates typed by the user.
use vstd::prelude::*;
use crate::text::{
    chars_of, chars_of_string, concat, decimal, decimal_string, lowercase, parse_i64,
    signed_digits, digits_value, is_digit,
    parse_i64_spec, parse_u32, parse_u32_spec, same_chars, split_chars, split_on, string_of,
    to_lowercase, trim, trimmed, views_of_chars, eq_ascii_ci, ascii_lowered, is_ascii_seq,
    lemma_ascii_lowered_ci, lemma_trim_plain,
};
use crate::utils::datetime::{
    civil_date, civil_day, civil_of_day, day_of_civil, end_of_day, end_of_day_at, local_day_of,
    parse_day, parsed_day, weekday_from_monday, weekday_of, Clock,
};

verus! {

/// The offset in days named by a keyword: "today"/"tod", "tomorrow"/"tom",
/// "yesterday", "next week", "next month".
pub open spec fn keyword_offset(s: Seq<char>) -> Option<int> {
    if s == "today"@ || s == "tod"@ {
        Some(0)
    } else if s == "tomorrow"@ || s == "tom"@ {
        Some(1)
    } else if s == "yesterday"@ {
        Some(-1)
    } else if s == "next week"@ {
        Some(7)
    } else if s == "next month"@ {
        Some(30)
    } else {
        None
    }
}

/// The offset in days of `+Nd` (N days) or `+Nw` (N weeks).
pub open spec fn relative_offset(s: Seq<char>) -> Option<int> {
    if s.len() > 0 && s[0] == '+' {
        let rest = s.drop_first();
        if rest.len() > 0 && rest.last() == 'd' && parse_i64_spec(rest.drop_last()) is Some {
            Some(parse_i64_spec(rest.drop_last())->0 as int)
        } else if rest.len() > 0 && rest.last() == 'w' && parse_i64_spec(rest.drop_last()) is Some {
            Some(7 * parse_i64_spec(rest.drop_last())->0)
        } else {
            None
        }
    } else {
        None
    }
}

/// The weekday (from Monday, 0) named by a short or long English name.
pub open spec fn weekday_named(s: Seq<char>) -> Option<int> {
    if s == "mon"@ || s == "monday"@ {
        Some(0)
    } else if s == "tue"@ || s == "tuesday"@ {
        Some(1)
    } else if s == "wed"@ || s == "wednesday"@ {
        Some(2)
    } else if s == "thu"@ || s == "thursday"@ {
        Some(3)
    } else if s == "fri"@ || s == "friday"@ {
        Some(4)
    } else if s == "sat"@ || s == "saturday"@ {
        Some(5)
    } else if s == "sun"@ || s == "sunday"@ {
        Some(6)
    } else {
        None
    }
}

/// Days from a day of weekday `current` to the next day of weekday
/// `target`: 1 to 7, a full week when they are the same.
pub open spec fn days_ahead(current: int, target: int) -> int {
    let d = (target - current + 7) % 7;
    if d == 0 {
        7
    } else {
        d
    }
}

/// A date of this year that already passed moves to next year.
pub open spec fn roll_forward(date: int, today: int, year: int, month: int, day: int) -> int {
    if date < today {
        if year < i32::MAX {
            match civil_day(year + 1, month, day) {
                Some(next) => next,
                None => date,
            }
        } else {
            date
        }
    } else {
        date
    }
}

/// `MM/DD` read against `year`, rolled to next year when already past.
pub open spec fn month_day_date(s: Seq<char>, year: int, today: int) -> Option<int> {
    match parsed_day(decimal(year) + "/"@ + s, "%Y/%m/%d"@) {
        Some(date) => Some(
            match civil_date(date) {
                Some((_, m, d)) => roll_forward(date, today, year, m, d),
                None => date,
            },
        ),
        None => None,
    }
}

/// `DD/MM` read against `year`, rolled to next year when already past.
pub open spec fn day_month_date(s: Seq<char>, year: int, today: int) -> Option<int> {
    let parts = split_on(s, '/');
    if parts.len() == 2 {
        match (parse_u32_spec(parts[0]), parse_u32_spec(parts[1])) {
            (Some(day), Some(month)) => if day <= 31 && month <= 12 {
                match civil_day(year, month as int, day as int) {
                    Some(date) => Some(roll_forward(date, today, year, month as int, day as int)),
                    None => None,
                }
            } else {
                None
            },
            _ => None,
        }
    } else {
        None
    }
}

/// The local day that cleaned-up input `s` names, seen from local day `today`:
/// a keyword, `+Nd`/`+Nw`, a weekday (its next occurrence), `YYYY-MM-DD`,
/// `YYYY/MM/DD`, `MM/DD` or `DD/MM` (this year, or next year when past).
pub open spec fn due_day(s: Seq<char>, today: int) -> Option<int> {
    if s.len() == 0 {
        None
    } else if keyword_offset(s) is Some {
        Some(today + keyword_offset(s)->0)
    } else if relative_offset(s) is Some {
        Some(today + relative_offset(s)->0)
    } else if weekday_named(s) is Some {
        Some(today + days_ahead(weekday_from_monday(today), weekday_named(s)->0))
    } else if parsed_day(s, "%Y-%m-%d"@) is Some {
        parsed_day(s, "%Y-%m-%d"@)
    } else if parsed_day(s, "%Y/%m/%d"@) is Some {
        parsed_day(s, "%Y/%m/%d"@)
    } else {
        match civil_date(today) {
            Some((year, _, _)) => if month_day_date(s, year, today) is Some {
                month_day_date(s, year, today)
            } else {
                day_month_date(s, year, today)
            },
            None => None,
        }
    }
}

/// The keywords: `today`/`tod` name today, `tomorrow`/`tom` the next day,
/// `yesterday` the day before, `next week` seven days on and `next month`
/// thirty days on.
pub proof fn law_due_keywords(today: int)
    ensures
        due_day("today"@, today) == Some(today),
        due_day("tod"@, today) == Some(today),
        due_day("tomorrow"@, today) == Some(today + 1),
        due_day("tom"@, today) == Some(today + 1),
        due_day("yesterday"@, today) == Some(today - 1),
        due_day("next week"@, today) == Some(today + 7),
        due_day("next month"@, today) == Some(today + 30),
{
    reveal_strlit("today");
    reveal_strlit("tod");
    reveal_strlit("tomorrow");
    reveal_strlit("tom");
    reveal_strlit("yesterday");
    reveal_strlit("next week");
    reveal_strlit("next month");
}

/// `+Nd` names the day N days ahead and `+Nw` the day N weeks ahead, for
/// any decimal N that fits in an `i64`.
pub proof fn law_due_relative(ds: Seq<char>, today: int)
    requires
        ds.len() > 0,
        forall|i: int| 0 <= i < ds.len() ==> '0' <= #[trigger] ds[i] <= '9',
        digits_value(ds) <= i64::MAX,
    ensures
        due_day(seq!['+'] + ds + seq!['d'], today) == Some(today + digits_value(ds)),
        due_day(seq!['+'] + ds + seq!['w'], today) == Some(today + 7 * digits_value(ds)),
{
    reveal_strlit("today");
    reveal_strlit("tod");
    reveal_strlit("tomorrow");
    reveal_strlit("tom");
    reveal_strlit("yesterday");
    reveal_strlit("next week");
    reveal_strlit("next month");
    let sd = seq!['+'] + ds + seq!['d'];
    let sw = seq!['+'] + ds + seq!['w'];
    assert(sd.drop_first().drop_last() =~= ds);
    assert(sw.drop_first().drop_last() =~= ds);
    assert(signed_digits(ds) == ds);
    assert forall|i: int| 0 <= i < ds.len() implies is_digit(#[trigger] ds[i]) by {}
    assert(parse_i64_spec(ds) == Some(digits_value(ds) as i64));
    assert(sd[0] == '+' && sw[0] == '+');
    assert(keyword_offset(sd) is None) by {
        assert(sd[0] != "tod"@[0] && sd[0] != "tom"@[0] && sd[0] != "today"@[0]
            && sd[0] != "tomorrow"@[0] && sd[0] != "yesterday"@[0] && sd[0] != "next week"@[0]
            && sd[0] != "next month"@[0]);
    }
    assert(keyword_offset(sw) is None) by {
        assert(sw[0] != "tod"@[0] && sw[0] != "tom"@[0] && sw[0] != "today"@[0]
            && sw[0] != "tomorrow"@[0] && sw[0] != "yesterday"@[0] && sw[0] != "next week"@[0]
            && sw[0] != "next month"@[0]);
    }
}

/// A due date is 23:59:59 local time (under the clock's offset) on the day
/// the text names, counted in whole seconds.
pub proof fn law_due_end_of_day(l: Seq<char>, clock: Clock)
    ensures
        due_of_lowered(l, clock) matches Some(x) ==> (due_day(trim(l), clock.today()) matches Some(
            d,
        ) && x == (d * 86_400 + 86_399 - clock.offset) * 1_000_000 && i64::MIN <= x <= i64::MAX),
{
}

/// `r` is the first day after `today` that falls on weekday `w` (0 is
/// Monday, 6 is Sunday). Local day 0, 1970-01-01, was a Thursday, so day
/// `d` falls on weekday `(d + 3) % 7`.
pub open spec fn next_day_with_weekday(r: Option<int>, today: int, w: int) -> bool {
    r matches Some(d) && today < d <= today + 7 && (d + 3) % 7 == w
}

proof fn lemma_weekday_day(s: Seq<char>, today: int, w: int)
    requires
        s.len() > 0,
        keyword_offset(s) is None,
        relative_offset(s) is None,
        weekday_named(s) == Some(w),
        0 <= w < 7,
    ensures
        next_day_with_weekday(due_day(s, today), today, w),
{
    let c = weekday_from_monday(today);
    let k = days_ahead(c, w);
    assert(1 <= k <= 7);
    assert((today + k + 3) % 7 == w);
}

/// A weekday name, short or long, names the next day with that weekday:
/// `mon`/`monday` the next Monday, ..., `sun`/`sunday` the next Sunday,
/// between one and seven days after `today`.
pub proof fn law_weekday_names(today: int)
    ensures
        next_day_with_weekday(due_day("mon"@, today), today, 0),
        next_day_with_weekday(due_day("monday"@, today), today, 0),
        next_day_with_weekday(due_day("tue"@, today), today, 1),
        next_day_with_weekday(due_day("tuesday"@, today), today, 1),
        next_day_with_weekday(due_day("wed"@, today), today, 2),
        next_day_with_weekday(due_day("wednesday"@, today), today, 2),
        next_day_with_weekday(due_day("thu"@, today), today, 3),
        next_day_with_weekday(due_day("thursday"@, today), today, 3),
        next_day_with_weekday(due_day("fri"@, today), today, 4),
        next_day_with_weekday(due_day("friday"@, today), today, 4),
        next_day_with_weekday(due_day("sat"@, today), today, 5),
        next_day_with_weekday(due_day("saturday"@, today), today, 5),
        next_day_with_weekday(due_day("sun"@, today), today, 6),
        next_day_with_weekday(due_day("sunday"@, today), today, 6),
{
    reveal_strlit("today");
    reveal_strlit("tod");
    reveal_strlit("tomorrow");
    reveal_strlit("tom");
    reveal_strlit("yesterday");
    reveal_strlit("next week");
    reveal_strlit("next month");
    reveal_strlit("mon");
    reveal_strlit("monday");
    reveal_strlit("tue");
    reveal_strlit("tuesday");
    reveal_strlit("wed");
    reveal_strlit("wednesday");
    reveal_strlit("thu");
    reveal_strlit("thursday");
    reveal_strlit("fri");
    reveal_strlit("friday");
    reveal_strlit("sat");
    reveal_strlit("saturday");
    reveal_strlit("sun");
    reveal_strlit("sunday");
    lemma_weekday_day("mon"@, today, 0);
    lemma_weekday_day("monday"@, today, 0);
    lemma_weekday_day("tue"@, today, 1);
    lemma_weekday_day("tuesday"@, today, 1);
    lemma_weekday_day("wed"@, today, 2);
    lemma_weekday_day("wednesday"@, today, 2);
    lemma_weekday_day("thu"@, today, 3);
    lemma_weekday_day("thursday"@, today, 3);
    lemma_weekday_day("fri"@, today, 4);
    lemma_weekday_day("friday"@, today, 4);
    lemma_weekday_day("sat"@, today, 5);
    lemma_weekday_day("saturday"@, today, 5);
    lemma_weekday_day("sun"@, today, 6);
    lemma_weekday_day("sunday"@, today, 6);
}

/// Short forms name the same day as the long ones: `+1w` is `+7d`,
/// `tomorrow` is `+1d`, and empty input names no day.
pub proof fn law_due_day_aliases(today: int)
    ensures
        due_day("+1w"@, today) == due_day("+7d"@, today),
        due_day("+1w"@, today) == Some(today + 7),
        due_day("tomorrow"@, today) == due_day("+1d"@, today),
        due_day("tomorrow"@, today) == Some(today + 1),
        due_day(Seq::<char>::empty(), today) is None,
{
    reveal_strlit("+1w");
    reveal_strlit("+7d");
    reveal_strlit("+1d");
    reveal_strlit("tomorrow");
    reveal_strlit("today");
    reveal_strlit("tod");
    reveal_strlit("tom");
    reveal_strlit("yesterday");
    reveal_strlit("next week");
    reveal_strlit("next month");
    let w = "+1w"@;
    let d7 = "+7d"@;
    let d1 = "+1d"@;
    assert(w.drop_first().drop_last() =~= seq!['1']);
    assert(d7.drop_first().drop_last() =~= seq!['7']);
    assert(d1.drop_first().drop_last() =~= seq!['1']);
    assert(signed_digits(seq!['1']) =~= seq!['1']);
    assert(signed_digits(seq!['7']) =~= seq!['7']);
    assert(digits_value(seq!['1']) == 1) by {
        assert(seq!['1'].drop_last() =~= Seq::<char>::empty());
    }
    assert(digits_value(seq!['7']) == 7) by {
        assert(seq!['7'].drop_last() =~= Seq::<char>::empty());
    }
    assert(is_digit('1') && is_digit('7'));
    assert(parse_i64_spec(seq!['1']) == Some(1i64));
    assert(parse_i64_spec(seq!['7']) == Some(7i64));
    assert(keyword_offset(w) is None) by {
        assert(w != "tod"@ && w != "tom"@ && w[0] != "tod"@[0]);
    }
    assert(keyword_offset(d7) is None) by {
        assert(d7[0] != "tod"@[0] && d7[0] != "tom"@[0]);
    }
    assert(keyword_offset(d1) is None) by {
        assert(d1[0] != "tod"@[0] && d1[0] != "tom"@[0]);
    }
    assert(relative_offset(w) == Some(7int));
    assert(relative_offset(d7) == Some(7int));
    assert(relative_offset(d1) == Some(1int));
    assert(keyword_offset("tomorrow"@) == Some(1int));
}

/// The due instant for `input` at the time of `clock`: the end (23:59:59)
/// of the named local day. Input is lower-cased, then trimmed. Days beyond
/// chrono's calendar give no date.
pub open spec fn due_instant(input: Seq<char>, clock: Clock) -> Option<int> {
    due_of_lowered(lowercase(input), clock)
}

/// The due instant named by already lower-cased text `l` (see [`due_instant`]).
pub open spec fn due_of_lowered(l: Seq<char>, clock: Clock) -> Option<int> {
    match due_day(trim(l), clock.today()) {
        Some(day) => if i64::MIN <= day <= i64::MAX && civil_date(day) is Some {
            end_of_day(day, clock.offset as int)
        } else {
            None
        },
        None => None,
    }
}

/// Case does not matter: two inputs that lower-case to the same text name
/// the same due instant.
pub proof fn law_due_input_ignores_case(a: Seq<char>, b: Seq<char>, clock: Clock)
    requires
        lowercase(a) == lowercase(b),
    ensures
        due_instant(a, clock) == due_instant(b, clock),
{
}

/// On ASCII input case does not matter either: inputs equal up to ASCII case
/// name the same due instant, the one their ASCII lower-case form names
/// (what [`parse_due_date_at`] returns on ASCII input).
pub proof fn law_due_ascii_input_ignores_case(a: Seq<char>, b: Seq<char>, clock: Clock)
    requires
        eq_ascii_ci(a, b),
    ensures
        due_of_lowered(ascii_lowered(a), clock) == due_of_lowered(ascii_lowered(b), clock),
{
    lemma_ascii_lowered_ci(a, b);
}

/// Upper-case short forms name the same day as the long ones, as in
/// lower case: `+1W` is `+7D` is a week ahead, `TOMORROW` is `+1D`.
pub proof fn law_due_upper_aliases(clock: Clock)
    ensures
        due_of_lowered(ascii_lowered("+1W"@), clock) == due_of_lowered("+1w"@, clock),
        due_of_lowered(ascii_lowered("+7D"@), clock) == due_of_lowered("+7d"@, clock),
        due_of_lowered("+1w"@, clock) == due_of_lowered("+7d"@, clock),
        due_of_lowered(ascii_lowered("TOMORROW"@), clock) == due_of_lowered("tomorrow"@, clock),
        due_of_lowered("tomorrow"@, clock) == due_of_lowered("+1d"@, clock),
{
    reveal_strlit("+1W");
    reveal_strlit("+1w");
    reveal_strlit("+7D");
    reveal_strlit("+7d");
    reveal_strlit("TOMORROW");
    reveal_strlit("tomorrow");
    reveal_strlit("+1d");
    assert(ascii_lowered("+1W"@) =~= "+1w"@);
    assert(ascii_lowered("+7D"@) =~= "+7d"@);
    assert(ascii_lowered("TOMORROW"@) =~= "tomorrow"@);
    law_due_day_aliases(clock.today());
    lemma_trim_plain("+1w"@);
    lemma_trim_plain("+7d"@);
    lemma_trim_plain("+1d"@);
    lemma_trim_plain("tomorrow"@);
}

fn is_text(s: &Vec<char>, lit: &str) -> (r: bool)
    ensures
        r == (s@ == lit@),
{
    let l = chars_of(lit);
    same_chars(s, &l)
}

fn keyword_offset_of(s: &Vec<char>) -> (r: Option<i64>)
    ensures
        match r {
            Some(n) => keyword_offset(s@) == Some(n as int),
            None => keyword_offset(s@) is None,
        },
{
    if is_text(s, "today") || is_text(s, "tod") {
        Some(0)
    } else if is_text(s, "tomorrow") || is_text(s, "tom") {
        Some(1)
    } else if is_text(s, "yesterday") {
        Some(-1)
    } else if is_text(s, "next week") {
        Some(7)
    } else if is_text(s, "next month") {
        Some(30)
    } else {
        None
    }
}

fn relative_offset_of(s: &Vec<char>) -> (r: Option<i128>)
    ensures
        match r {
            Some(n) => relative_offset(s@) == Some(n as int),
            None => relative_offset(s@) is None,
        },
{
    if s.len() > 0 && s[0] == '+' {
        let n = s.len();
        let rest = crate::text::sub_chars(s, 1, n);
        assert(rest@ =~= s@.drop_first());
        if rest.len() > 0 {
            let last = rest[rest.len() - 1];
            let body = crate::text::sub_chars(&rest, 0, rest.len() - 1);
            assert(body@ =~= rest@.drop_last());
            let v = parse_i64(&body);
            if last == 'd' {
                match v {
                    Some(x) => return Some(x as i128),
                    None => {},
                }
            }
            if last == 'w' {
                match v {
                    Some(x) => return Some(7 * (x as i128)),
                    None => {},
                }
            }
        }
        None
    } else {
        None
    }
}

fn weekday_named_of(s: &Vec<char>) -> (r: Option<i64>)
    ensures
        match r {
            Some(n) => weekday_named(s@) == Some(n as int),
            None => weekday_named(s@) is None,
        },
{
    if is_text(s, "mon") || is_text(s, "monday") {
        Some(0)
    } else if is_text(s, "tue") || is_text(s, "tuesday") {
        Some(1)
    } else if is_text(s, "wed") || is_text(s, "wednesday") {
        Some(2)
    } else if is_text(s, "thu") || is_text(s, "thursday") {
        Some(3)
    } else if is_text(s, "fri") || is_text(s, "friday") {
        Some(4)
    } else if is_text(s, "sat") || is_text(s, "saturday") {
        Some(5)
    } else if is_text(s, "sun") || is_text(s, "sunday") {
        Some(6)
    } else {
        None
    }
}

fn roll_forward_of(date: i64, today: i64, year: i32, month: u32, day: u32) -> (r: i64)
    ensures
        r == roll_forward(date as int, today as int, year as int, month as int, day as int),
{
    if date < today {
        if year < i32::MAX {
            match day_of_civil(year + 1, month, day) {
                Some(next) => next,
                None => date,
            }
        } else {
            date
        }
    } else {
        date
    }
}

fn month_day_date_of(s: &Vec<char>, year: i32, today: i64) -> (r: Option<i64>)
    ensures
        match r {
            Some(n) => month_day_date(s@, year as int, today as int) == Some(n as int),
            None => month_day_date(s@, year as int, today as int) is None,
        },
{
    let y = decimal_string(year as i64);
    let with_slash = concat(y.as_str(), "/");
    let text = concat(with_slash.as_str(), string_of(s).as_str());
    match parse_day(text.as_str(), "%Y/%m/%d") {
        Some(date) => Some(
            match civil_of_day(date) {
                Some((_, m, d)) => roll_forward_of(date, today, year, m, d),
                None => date,
            },
        ),
        None => None,
    }
}

fn day_month_date_of(s: &Vec<char>, year: i32, today: i64) -> (r: Option<i64>)
    ensures
        match r {
            Some(n) => day_month_date(s@, year as int, today as int) == Some(n as int),
            None => day_month_date(s@, year as int, today as int) is None,
        },
{
    let parts = split_chars(s, '/');
    assert(views_of_chars(parts@) == split_on(s@, '/'));
    if parts.len() == 2 {
        assert(parts@[0]@ == split_on(s@, '/')[0]);
        assert(parts@[1]@ == split_on(s@, '/')[1]);
        match (parse_u32(&parts[0]), parse_u32(&parts[1])) {
            (Some(day), Some(month)) => if day <= 31 && month <= 12 {
                match day_of_civil(year, month, day) {
                    Some(date) => Some(roll_forward_of(date, today, year, month, day)),
                    None => None,
                }
            } else {
                None
            },
            _ => None,
        }
    } else {
        None
    }
}

/// The local day named by cleaned-up input (executable [`due_day`]).
fn due_day_of(s: &Vec<char>, today: i64) -> (r: Option<i128>)
    ensures
        match r {
            Some(n) => due_day(s@, today as int) == Some(n as int),
            None => due_day(s@, today as int) is None,
        },
{
    if s.len() == 0 {
        return None;
    }
    match keyword_offset_of(s) {
        Some(k) => return Some(today as i128 + k as i128),
        None => {},
    }
    match relative_offset_of(s) {
        Some(k) => {
            assert(-70_000_000_000_000_000_000i128 < k < 70_000_000_000_000_000_000i128);
            return Some(today as i128 + k);
        },
        None => {},
    }
    match weekday_named_of(s) {
        Some(w) => {
            let cur = weekday_of(today);
            let d0 = (w - cur + 7) % 7;
            let d = if d0 == 0 { 7 } else { d0 };
            return Some(today as i128 + d as i128);
        },
        None => {},
    }
    let text = string_of(s);
    match parse_day(text.as_str(), "%Y-%m-%d") {
        Some(d) => return Some(d as i128),
        None => {},
    }
    match parse_day(text.as_str(), "%Y/%m/%d") {
        Some(d) => return Some(d as i128),
        None => {},
    }
    match civil_of_day(today) {
        Some((year, _, _)) => match month_day_date_of(s, year, today) {
            Some(d) => Some(d as i128),
            None => match day_month_date_of(s, year, today) {
                Some(d) => Some(d as i128),
                None => None,
            },
        },
        None => None,
    }
}

/// Parses a due date at the time of `clock` (see [`due_instant`]).
pub fn parse_due_date_at(input: &str, clock: Clock) -> (r: Option<i64>)
    requires
        clock.wf(),
    ensures
        match r {
            Some(t) => due_instant(input@, clock) == Some(t as int),
            None => due_instant(input@, clock) is None,
        },
        is_ascii_seq(input@) ==> due_instant(input@, clock) == due_of_lowered(
            ascii_lowered(input@),
            clock,
        ),
{
    let lower = to_lowercase(input);
    let chars = chars_of_string(&lower);
    let s = trimmed(&chars);
    let today = local_day_of(clock.now, clock.offset);
    match due_day_of(&s, today) {
        Some(day) => {
            if day < i64::MIN as i128 || day > i64::MAX as i128 {
                return None;
            }
            let d = day as i64;
            if civil_of_day(d).is_some() {
                end_of_day_at(d, clock.offset)
            } else {
                None
            }
        },
        None => None,
    }
}

/// Parses a due date relative to now: "today", "tomorrow", "+3d", "fri",
/// "2025-12-31", "12/31", "31/12" and so on (see [`due_instant`]).
pub fn parse_due_date(input: &str) -> (r: Option<i64>)
    ensures
        exists|c: Clock|
            c.wf() && match r {
                Some(t) => due_instant(input@, c) == Some(t as int),
                None => due_instant(input@, c) is None,
            },
{
    parse_due_date_at(input, Clock::read())
}

} // verus!
