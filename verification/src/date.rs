//! Calendar dates: parsing what a user typed, formatting, and ages.

use vstd::prelude::*;
use vstd::string::*;
use chrono::{Datelike, Timelike};
use crate::text;
use crate::text::{owned, parse_i32, push_signed_decimal, push_str, trim};

verus! {

/// The first year that a date can have.
pub const MIN_YEAR: i32 = -262143;

/// The last year that a date can have.
pub const MAX_YEAR: i32 = 262142;

/// A leap year of the proleptic Gregorian calendar.
pub open spec fn is_leap_year(y: int) -> bool {
    y % 4 == 0 && (y % 100 != 0 || y % 400 == 0)
}

/// The number of days of month `m` in year `y`.
pub open spec fn days_in_month(y: int, m: int) -> int {
    if m == 2 {
        if is_leap_year(y) {
            29
        } else {
            28
        }
    } else if m == 4 || m == 6 || m == 9 || m == 11 {
        30
    } else {
        31
    }
}

/// A calendar date within the supported years.
pub open spec fn valid_ymd(y: int, m: int, d: int) -> bool {
    MIN_YEAR <= y <= MAX_YEAR && 1 <= m <= 12 && 1 <= d <= days_in_month(y, m)
}

/// The number of days of year `y` before month `m` begins.
pub open spec fn days_before_month(y: int, m: int) -> int
    decreases m,
{
    if m <= 1 {
        0
    } else {
        days_before_month(y, m - 1) + days_in_month(y, m - 1)
    }
}

/// The day of the year, counted from 1 on the first of January.
pub open spec fn day_of_year(y: int, m: int, d: int) -> int {
    days_before_month(y, m) + d
}

/// Zero-padding of the decimal notation of `n` to `width` characters.
pub open spec fn padded(n: nat, width: nat) -> Seq<char> {
    let digits = text::decimal(n);
    if digits.len() >= width {
        digits
    } else {
        Seq::new((width - digits.len()) as nat, |i: int| '0') + digits
    }
}

/// The year as `%Y` writes it: four digits or more, with a sign outside the
/// years 0 to 9999.
pub open spec fn year_text(y: int) -> Seq<char> {
    if 0 <= y <= 9999 {
        padded(y as nat, 4)
    } else if y < 0 {
        seq!['-'] + padded((-y) as nat, 4)
    } else {
        seq!['+'] + padded(y as nat, 4)
    }
}

/// A date written as `%Y-%m-%d`.
pub open spec fn date_text(y: int, m: int, d: int) -> Seq<char> {
    year_text(y) + seq!['-'] + padded(m as nat, 2) + seq!['-'] + padded(d as nat, 2)
}

/// A calendar date, as year, month (1 to 12) and day of the month.
#[derive(Debug, PartialEq, Eq, Structural)]
pub struct Date {
    year: i32,
    month: u32,
    day: u32,
}

impl View for Date {
    type V = (int, int, int);

    closed spec fn view(&self) -> (int, int, int) {
        (self.year as int, self.month as int, self.day as int)
    }
}

/// Calls `NaiveDate::from_ymd_opt` and tells whether the date exists.  It exists
/// exactly when the month is 1 to 12, the day is within the month (leap years
/// of the proleptic Gregorian calendar counted) and the year within chrono's
/// range; the source of `from_ymd_opt` and its documentation say so.
#[verifier::external_body]
fn chrono_date_exists(y: i32, m: u32, d: u32) -> (r: bool)
    ensures
        r == valid_ymd(y as int, m as int, d as int),
{
    chrono::NaiveDate::from_ymd_opt(y, m, d).is_some()
}

/// Calls `Datelike::ordinal` on the date: the day of the year, from 1.
#[verifier::external_body]
fn chrono_ordinal(y: i32, m: u32, d: u32) -> (r: u32)
    requires
        valid_ymd(y as int, m as int, d as int),
    ensures
        r as int == day_of_year(y as int, m as int, d as int),
{
    chrono::NaiveDate::from_ymd_opt(y, m, d).unwrap().ordinal()
}

/// Calls `NaiveDate::format` with `%Y-%m-%d` or `%Y`.  As chrono's formatting
/// code shows, `%Y` writes four zero-padded digits for the years 0 to 9999 and
/// a sign before at least four digits otherwise; `%m` and `%d` write two
/// digits.
#[verifier::external_body]
fn chrono_format(y: i32, m: u32, d: u32, format: &str) -> (r: String)
    requires
        valid_ymd(y as int, m as int, d as int),
        format@ == "%Y-%m-%d"@ || format@ == "%Y"@,
    ensures
        format@ == "%Y-%m-%d"@ ==> r@ == date_text(y as int, m as int, d as int),
        format@ == "%Y"@ ==> r@ == year_text(y as int),
{
    chrono::NaiveDate::from_ymd_opt(y, m, d).unwrap().format(format).to_string()
}

/// The date that `NaiveDate::parse_from_str` reads from `s` with `format`, as
/// year, month and day, or `None` where it reports an error.
pub uninterp spec fn chrono_parsed(s: Seq<char>, format: Seq<char>) -> Option<(int, int, int)>;

/// Calls `NaiveDate::parse_from_str`.  Its result is named `chrono_parsed`; a
/// date it returns is a valid date.
#[verifier::external_body]
fn chrono_parse(s: &str, format: &str) -> (r: Option<(i32, u32, u32)>)
    ensures
        match r {
            Some((y, m, d)) => chrono_parsed(s@, format@) == Some((y as int, m as int, d as int))
                && valid_ymd(y as int, m as int, d as int),
            None => chrono_parsed(s@, format@) is None,
        },
{
    chrono::NaiveDate::parse_from_str(s, format).ok().map(|d| (d.year(), d.month(), d.day()))
}

/// Calls `Utc::now` and takes its calendar date.  It depends on the clock, so
/// nothing is claimed of it beyond its being a date.
#[verifier::external_body]
fn chrono_today_utc() -> (r: (i32, u32, u32))
    ensures
        valid_ymd(r.0 as int, r.1 as int, r.2 as int),
{
    let d = chrono::Utc::now().date_naive();
    (d.year(), d.month(), d.day())
}

/// The UTC date and time, as year, month, day, hour, minute and second, that
/// `DateTime::from_timestamp` gives for a count of seconds since
/// 1970-01-01 00:00:00, or `None` where it reports the count out of range.
pub uninterp spec fn chrono_utc_from_timestamp(secs: int) -> Option<(int, int, int, int, int, int)>;

/// The second of the day that a count of seconds since the epoch falls on.
pub open spec fn second_of_day(secs: int) -> int {
    secs % 86400
}

/// Calls `DateTime::from_timestamp` with no nanoseconds and reads the UTC date
/// and time of the result.  Its result is named `chrono_utc_from_timestamp`;
/// as chrono's source shows, the time of day is the count of seconds taken
/// modulo a day (`rem_euclid`), split into hours, minutes and seconds, and the
/// date is a valid date.
#[verifier::external_body]
fn chrono_from_timestamp(secs: i64) -> (r: Option<(i32, u32, u32, u32, u32, u32)>)
    ensures
        match r {
            Some(t) => chrono_utc_from_timestamp(secs as int) == Some(
                (t.0 as int, t.1 as int, t.2 as int, t.3 as int, t.4 as int, t.5 as int),
            ) && valid_ymd(t.0 as int, t.1 as int, t.2 as int) && t.3 as int == second_of_day(
                secs as int,
            ) / 3600 && t.4 as int == second_of_day(secs as int) / 60 % 60 && t.5 as int
                == second_of_day(secs as int) % 60,
            None => chrono_utc_from_timestamp(secs as int) is None,
        },
{
    chrono::DateTime::from_timestamp(secs, 0).map(
        |t| {
            let n = t.naive_utc();
            (n.year(), n.month(), n.day(), n.hour(), n.minute(), n.second())
        },
    )
}

/// A date with a time of day, to the second.
pub struct DateTime {
    pub date: Date,
    pub hour: u32,
    pub minute: u32,
    pub second: u32,
}

/// The UTC date and time of a file modification time given in seconds since
/// 1970-01-01 00:00:00, taken as a signed count; where chrono reports the
/// count out of range, the epoch itself.
pub fn modified_time(secs_since_epoch: u64) -> (r: DateTime)
    ensures
        match chrono_utc_from_timestamp((secs_since_epoch as i64) as int) {
            Some(t) => r.date@ == (t.0, t.1, t.2) && r.hour as int == t.3 && r.minute as int
                == t.4 && r.second as int == t.5,
            None => r.date@ == (1970int, 1int, 1int) && r.hour == 0 && r.minute == 0 && r.second
                == 0,
        },
        chrono_utc_from_timestamp((secs_since_epoch as i64) as int) is Some ==> r.hour as int
            == second_of_day((secs_since_epoch as i64) as int) / 3600 && r.minute as int
            == second_of_day((secs_since_epoch as i64) as int) / 60 % 60 && r.second as int
            == second_of_day((secs_since_epoch as i64) as int) % 60,
{
    match chrono_from_timestamp(secs_since_epoch as i64) {
        Some((y, m, d, hh, mm, ss)) => DateTime {
            date: Date { year: y, month: m, day: d },
            hour: hh,
            minute: mm,
            second: ss,
        },
        None => DateTime { date: Date { year: 1970, month: 1, day: 1 }, hour: 0, minute: 0, second: 0 },
    }
}

impl Date {
    #[verifier::type_invariant]
    spec fn inv(self) -> bool {
        valid_ymd(self.year as int, self.month as int, self.day as int)
    }

    /// The date with the given year, month and day, if it exists.
    pub fn from_ymd_opt(year: i32, month: u32, day: u32) -> (r: Option<Date>)
        ensures
            match r {
                Some(d) => valid_ymd(year as int, month as int, day as int) && d@ == (
                    year as int,
                    month as int,
                    day as int,
                ),
                None => !valid_ymd(year as int, month as int, day as int),
            },
    {
        if chrono_date_exists(year, month, day) {
            Some(Date { year, month, day })
        } else {
            None
        }
    }

    /// The year.
    pub fn year(&self) -> (r: i32)
        ensures
            r as int == self@.0,
            valid_ymd(self@.0, self@.1, self@.2),
    {
        proof {
            use_type_invariant(self);
        }
        self.year
    }

    /// The month, from 1 to 12.
    pub fn month(&self) -> (r: u32)
        ensures
            r as int == self@.1,
            valid_ymd(self@.0, self@.1, self@.2),
    {
        proof {
            use_type_invariant(self);
        }
        self.month
    }

    /// The day of the month, from 1.
    pub fn day(&self) -> (r: u32)
        ensures
            r as int == self@.2,
            valid_ymd(self@.0, self@.1, self@.2),
    {
        proof {
            use_type_invariant(self);
        }
        self.day
    }

    /// The day of the year, from 1 on the first of January.
    pub fn ordinal(&self) -> (r: u32)
        ensures
            r as int == day_of_year(self@.0, self@.1, self@.2),
    {
        proof {
            use_type_invariant(self);
        }
        chrono_ordinal(self.year, self.month, self.day)
    }

    /// Whether two dates are the same day.
    pub fn same_day(&self, other: &Date) -> (r: bool)
        ensures
            r == (self@ == other@),
    {
        self.year == other.year && self.month == other.month && self.day == other.day
    }
}

impl Clone for Date {
    fn clone(&self) -> (r: Date)
        ensures
            r@ == self@,
    {
        proof {
            use_type_invariant(self);
        }
        Date { year: self.year, month: self.month, day: self.day }
    }
}

/// The view of an optional date.
pub open spec fn opt_date_of(o: Option<Date>) -> Option<(int, int, int)> {
    match o {
        Some(d) => Some(d@),
        None => None,
    }
}

/// The views of a list of optional dates.
pub open spec fn opt_dates_view(v: Seq<Option<Date>>) -> Seq<Option<(int, int, int)>> {
    v.map_values(|o: Option<Date>| opt_date_of(o))
}

/// The first result among `ps` that holds a date.
pub open spec fn first_parsed(ps: Seq<Option<(int, int, int)>>) -> Option<(int, int, int)>
    decreases ps.len(),
{
    if ps.len() == 0 {
        None
    } else if ps[0] is Some {
        ps[0]
    } else {
        first_parsed(ps.drop_first())
    }
}

/// The date that `parse_date` reads from the trimmed text `t`, given what the
/// accepted formats read from it, in their order: nothing from an empty text,
/// the first date that a format read, or else a bare year of four characters
/// taken as its first of January.
pub open spec fn date_from_parse_results(
    t: Seq<char>,
    ps: Seq<Option<(int, int, int)>>,
) -> Option<(int, int, int)> {
    if t.len() == 0 {
        None
    } else if first_parsed(ps) is Some {
        first_parsed(ps)
    } else if t.len() == 4 && text::i32_text_value(t) is Some && valid_ymd(
        text::i32_text_value(t)->0,
        1,
        1,
    ) {
        Some((text::i32_text_value(t)->0, 1, 1))
    } else {
        None
    }
}

/// What the accepted formats `%Y-%m-%d`, `%Y/%m/%d`, `%d-%m-%Y`, `%d/%m/%Y` and
/// `%Y%m%d` read from `t`, in that order.
pub open spec fn format_parses(t: Seq<char>) -> Seq<Option<(int, int, int)>> {
    seq![
        chrono_parsed(t, "%Y-%m-%d"@),
        chrono_parsed(t, "%Y/%m/%d"@),
        chrono_parsed(t, "%d-%m-%Y"@),
        chrono_parsed(t, "%d/%m/%Y"@),
        chrono_parsed(t, "%Y%m%d"@),
    ]
}

/// The first date that one of the accepted formats reads from `t`, or a bare
/// year of four characters taken as its first of January.
pub open spec fn parsed_date_of_trimmed(t: Seq<char>) -> Option<(int, int, int)> {
    date_from_parse_results(t, format_parses(t))
}

/// What `parse_date` reads from `s`.
pub open spec fn parsed_date(s: Seq<char>) -> Option<(int, int, int)> {
    parsed_date_of_trimmed(text::trimmed(s))
}

/// `parse_date` tries, on the text without its surrounding white space, the
/// formats `%Y-%m-%d`, `%Y/%m/%d`, `%d-%m-%Y`, `%d/%m/%Y` and `%Y%m%d` in that
/// order and takes the first date that one reads; where none reads a date, a
/// text of four characters that is a year gives its first of January; an empty
/// text gives nothing.
pub proof fn law_parse_date_tries_formats_in_order(s: Seq<char>)
    ensures
        text::trimmed(s).len() == 0 ==> parsed_date(s) is None,
        text::trimmed(s).len() > 0 && chrono_parsed(text::trimmed(s), "%Y-%m-%d"@) is Some
            ==> parsed_date(s) == chrono_parsed(text::trimmed(s), "%Y-%m-%d"@),
        text::trimmed(s).len() > 0 && chrono_parsed(text::trimmed(s), "%Y-%m-%d"@) is None && chrono_parsed(text::trimmed(s), "%Y/%m/%d"@) is Some
            ==> parsed_date(s) == chrono_parsed(text::trimmed(s), "%Y/%m/%d"@),
        text::trimmed(s).len() > 0 && chrono_parsed(text::trimmed(s), "%Y-%m-%d"@) is None && chrono_parsed(text::trimmed(s), "%Y/%m/%d"@) is None && chrono_parsed(text::trimmed(s), "%d-%m-%Y"@) is Some
            ==> parsed_date(s) == chrono_parsed(text::trimmed(s), "%d-%m-%Y"@),
        text::trimmed(s).len() > 0 && chrono_parsed(text::trimmed(s), "%Y-%m-%d"@) is None && chrono_parsed(text::trimmed(s), "%Y/%m/%d"@) is None && chrono_parsed(text::trimmed(s), "%d-%m-%Y"@) is None && chrono_parsed(text::trimmed(s), "%d/%m/%Y"@) is Some
            ==> parsed_date(s) == chrono_parsed(text::trimmed(s), "%d/%m/%Y"@),
        text::trimmed(s).len() > 0 && chrono_parsed(text::trimmed(s), "%Y-%m-%d"@) is None && chrono_parsed(text::trimmed(s), "%Y/%m/%d"@) is None && chrono_parsed(text::trimmed(s), "%d-%m-%Y"@) is None && chrono_parsed(text::trimmed(s), "%d/%m/%Y"@) is None && chrono_parsed(text::trimmed(s), "%Y%m%d"@) is Some
            ==> parsed_date(s) == chrono_parsed(text::trimmed(s), "%Y%m%d"@),
        text::trimmed(s).len() > 0 && chrono_parsed(text::trimmed(s), "%Y-%m-%d"@) is None && chrono_parsed(text::trimmed(s), "%Y/%m/%d"@) is None && chrono_parsed(text::trimmed(s), "%d-%m-%Y"@) is None && chrono_parsed(text::trimmed(s), "%d/%m/%Y"@) is None && chrono_parsed(text::trimmed(s), "%Y%m%d"@) is None ==> parsed_date(s) == (if text::trimmed(s).len() == 4
            && text::i32_text_value(text::trimmed(s)) is Some && valid_ymd(text::i32_text_value(text::trimmed(s))->0, 1, 1) {
            Some((text::i32_text_value(text::trimmed(s))->0, 1int, 1int))
        } else {
            None
        }),
{
    reveal_with_fuel(first_parsed, 6);
}

/// The date of a parse result, which is a valid date.
fn date_of(r: (i32, u32, u32)) -> (d: Date)
    requires
        valid_ymd(r.0 as int, r.1 as int, r.2 as int),
    ensures
        d@ == (r.0 as int, r.1 as int, r.2 as int),
{
    Date { year: r.0, month: r.1, day: r.2 }
}

/// What `chrono_parse` gives, as an optional date.
fn parse_with(t: &str, format: &str) -> (r: Option<Date>)
    ensures
        opt_date_of(r) == chrono_parsed(t@, format@),
{
    match chrono_parse(t, format) {
        Some(v) => Some(date_of(v)),
        None => None,
    }
}

/// Decides the date of the trimmed text `t` from what the accepted formats
/// read from it, in their order: nothing from an empty text, the first date
/// that a format read, or else a bare year of four characters taken as its
/// first of January.
pub fn date_from_parses(t: &str, parses: &Vec<Option<Date>>) -> (r: Option<Date>)
    ensures
        opt_date_of(r) == date_from_parse_results(t@, opt_dates_view(parses@)),
{
    if t.unicode_len() == 0 {
        return None;
    }
    let mut i: usize = 0;
    assert(opt_dates_view(parses@).subrange(0, parses@.len() as int) =~= opt_dates_view(parses@));
    while i < parses.len()
        invariant
            0 <= i <= parses.len(),
            t@.len() > 0,
            first_parsed(opt_dates_view(parses@)) == first_parsed(
                opt_dates_view(parses@).subrange(i as int, parses@.len() as int),
            ),
        decreases parses.len() - i,
    {
        let ghost rest = opt_dates_view(parses@).subrange(i as int, parses@.len() as int);
        assert(rest.drop_first() =~= opt_dates_view(parses@).subrange(
            i + 1,
            parses@.len() as int,
        ));
        match &parses[i] {
            Some(d) => {
                return Some(d.clone());
            },
            None => {},
        }
        i = i + 1;
    }
    assert(opt_dates_view(parses@).subrange(i as int, parses@.len() as int).len() == 0);
    if t.unicode_len() == 4 {
        if let Some(year) = parse_i32(t) {
            return Date::from_ymd_opt(year, 1, 1);
        }
    }
    None
}

/// Reads a date written in one of the formats `YYYY-MM-DD`, `YYYY/MM/DD`,
/// `DD-MM-YYYY`, `DD/MM/YYYY`, `YYYYMMDD` (tried in that order), or a bare year
/// `YYYY` taken as the first of January, after removing surrounding white space.
pub fn parse_date(s: &str) -> (r: Option<Date>)
    ensures
        opt_date_of(r) == parsed_date(s@),
{
    let t = trim(s);
    let mut parses: Vec<Option<Date>> = Vec::new();
    parses.push(parse_with(t, "%Y-%m-%d"));
    parses.push(parse_with(t, "%Y/%m/%d"));
    parses.push(parse_with(t, "%d-%m-%Y"));
    parses.push(parse_with(t, "%d/%m/%Y"));
    parses.push(parse_with(t, "%Y%m%d"));
    assert(opt_dates_view(parses@) =~= format_parses(t@));
    date_from_parses(t, &parses)
}

/// The date that `s` writes in the strict form `%Y-%m-%d`, if any.
pub open spec fn iso_date(s: Seq<char>) -> Option<(int, int, int)> {
    chrono_parsed(s, "%Y-%m-%d"@)
}

/// Reads a date in the strict form `YYYY-MM-DD`, as chrono reads `%Y-%m-%d`.
pub fn parse_iso_date(s: &str) -> (r: Option<Date>)
    ensures
        opt_date_of(r) == iso_date(s@),
{
    parse_with(s, "%Y-%m-%d")
}

/// What the date filters of the search views read from a field `s`, given
/// what chrono reads from it as `%Y-%m-%d`: nothing from an empty field, that
/// date, or else a year of any length taken as its first of January.
pub open spec fn filter_date_from_iso(
    s: Seq<char>,
    iso: Option<(int, int, int)>,
) -> Option<(int, int, int)> {
    if s.len() == 0 {
        None
    } else if iso is Some {
        iso
    } else if text::i32_text_value(s) is Some {
        if valid_ymd(text::i32_text_value(s)->0, 1, 1) {
            Some((text::i32_text_value(s)->0, 1, 1))
        } else {
            None
        }
    } else {
        None
    }
}

/// What the date filters of the search views read from a field: nothing from
/// an empty field, a `YYYY-MM-DD` date, or else a year of any length taken as
/// its first of January.
pub open spec fn filter_date(s: Seq<char>) -> Option<(int, int, int)> {
    filter_date_from_iso(s, iso_date(s))
}

/// A strict date field reads exactly what chrono reads with `%Y-%m-%d`.  A date
/// filter field reads nothing when empty, else that date, else a whole number
/// of `i32` taken as the first of January of that year (nothing where that
/// year is out of range), else nothing.
pub proof fn law_filter_date_reads(s: Seq<char>)
    ensures
        iso_date(s) == chrono_parsed(s, "%Y-%m-%d"@),
        s.len() == 0 ==> filter_date(s) is None,
        s.len() > 0 && chrono_parsed(s, "%Y-%m-%d"@) is Some ==> filter_date(s) == chrono_parsed(
            s,
            "%Y-%m-%d"@,
        ),
        s.len() > 0 && chrono_parsed(s, "%Y-%m-%d"@) is None ==> filter_date(s) == (
        if text::i32_text_value(s) is Some && valid_ymd(text::i32_text_value(s)->0, 1, 1) {
            Some((text::i32_text_value(s)->0, 1int, 1int))
        } else {
            None
        }),
{
}

/// Decides a date filter field `s` from the date that chrono read from it as
/// `%Y-%m-%d`, as `filter_date_from_iso` describes it.
pub fn filter_date_from(s: &str, iso: Option<Date>) -> (r: Option<Date>)
    ensures
        opt_date_of(r) == filter_date_from_iso(s@, opt_date_of(iso)),
{
    if s.unicode_len() == 0 {
        return None;
    }
    if let Some(d) = iso {
        return Some(d);
    }
    if let Some(year) = parse_i32(s) {
        return Date::from_ymd_opt(year, 1, 1);
    }
    None
}

/// Reads a date filter field as `filter_date` describes it.
pub fn parse_filter_date(s: &str) -> (r: Option<Date>)
    ensures
        opt_date_of(r) == filter_date(s@),
{
    let iso = parse_iso_date(s);
    filter_date_from(s, iso)
}

/// A date written as `YYYY-MM-DD` (with a sign and more digits outside the years
/// 0 to 9999).
pub fn format_date(date: &Date) -> (r: String)
    ensures
        r@ == date_text(date@.0, date@.1, date@.2),
{
    let y = date.year();
    let m = date.month();
    let d = date.day();
    chrono_format(y, m, d, "%Y-%m-%d")
}

/// The year of a date as `%Y` writes it.
pub fn format_year(date: &Date) -> (r: String)
    ensures
        r@ == year_text(date@.0),
{
    let y = date.year();
    let m = date.month();
    let d = date.day();
    chrono_format(y, m, d, "%Y")
}

/// Whether the month and day of `a` come before those of `b` within a year.
pub open spec fn earlier_in_year(a: (int, int, int), b: (int, int, int)) -> bool {
    a.1 < b.1 || (a.1 == b.1 && a.2 < b.2)
}

/// The age in whole years at `end` of someone born on `birth`: the difference
/// of the years, less one where the birthday has not yet come round in the
/// year of `end`.
pub open spec fn age_between(birth: (int, int, int), end: (int, int, int)) -> int {
    end.0 - birth.0 - if earlier_in_year(end, birth) {
        1int
    } else {
        0int
    }
}

/// The age in whole years at `end` of someone born on `birth`.
pub fn calculate_age(birth: &Date, end: &Date) -> (r: i32)
    ensures
        r as int == age_between(birth@, end@),
{
    proof {
        use_type_invariant(birth);
        use_type_invariant(end);
    }
    let by = birth.year();
    let ey = end.year();
    let mut age = ey - by;
    let bm = birth.month();
    let em = end.month();
    if em < bm || (em == bm && end.day() < birth.day()) {
        age = age - 1;
    }
    age
}

/// The text that `format_date_with_age` shows for a birth date, an optional
/// death date, and the date up to which the age runs.
pub open spec fn date_with_age_text(
    birth: (int, int, int),
    death: Option<(int, int, int)>,
    today: (int, int, int),
) -> Seq<char> {
    let end = match death {
        Some(d) => d,
        None => today,
    };
    let age = age_between(birth, end);
    match death {
        Some(d) => date_text(birth.0, birth.1, birth.2) + " - "@ + date_text(d.0, d.1, d.2) + " ("@
            + text::signed_decimal(age) + " år)"@,
        None => date_text(birth.0, birth.1, birth.2) + " ("@ + text::signed_decimal(age)
            + " år)"@,
    }
}

/// The view of an optional date.
pub open spec fn opt_date_view(d: Option<&Date>) -> Option<(int, int, int)> {
    match d {
        Some(x) => Some(x@),
        None => None,
    }
}

/// A birth date with the age, up to the death date or else up to `today`.
pub fn format_date_with_age_on(birth: &Date, death: Option<&Date>, today: &Date) -> (r: String)
    ensures
        r@ == date_with_age_text(
            birth@,
            opt_date_view(death),
            today@,
        ),
{
    let end = match death {
        Some(d) => d,
        None => today,
    };
    let age = calculate_age(birth, end);
    let mut out = format_date(birth);
    match death {
        Some(d) => {
            push_str(&mut out, " - ");
            let dt = format_date(d);
            push_str(&mut out, dt.as_str());
        },
        None => {},
    }
    push_str(&mut out, " (");
    push_signed_decimal(&mut out, age as i64);
    push_str(&mut out, " år)");
    out
}

/// Today's date by the UTC clock.
fn today() -> (r: Date) {
    let (y, m, d) = chrono_today_utc();
    Date { year: y, month: m, day: d }
}

/// A birth date with the age, up to the death date or else up to today's date
/// by the UTC clock.
pub fn format_date_with_age(birth: &Date, death: Option<&Date>) -> (r: String)
    ensures
        exists|t: (int, int, int)|
            valid_ymd(t.0, t.1, t.2) && r@ == #[trigger] date_with_age_text(
                birth@,
                opt_date_view(death),
                t,
            ),
{
    let t = today();
    proof {
        use_type_invariant(&t);
    }
    format_date_with_age_on(birth, death, &t)
}

/// Someone is aged nothing on the day of birth.
pub proof fn law_age_on_birth_day(birth: (int, int, int))
    ensures
        age_between(birth, birth) == 0,
{
}

/// The age is the difference of the years, or one less.
pub proof fn law_age_is_year_difference(birth: (int, int, int), end: (int, int, int))
    ensures
        age_between(birth, end) == end.0 - birth.0 || age_between(birth, end) == end.0 - birth.0 - 1,
{
}

/// One year later on the same month and day, the age is one more.
pub proof fn law_age_grows_yearly(
    birth: (int, int, int),
    end: (int, int, int),
    later: (int, int, int),
)
    requires
        later.0 == end.0 + 1,
        later.1 == end.1,
        later.2 == end.2,
    ensures
        age_between(birth, later) == age_between(birth, end) + 1,
{
}

/// On the birthday itself the age is the difference of the years.
pub proof fn law_age_on_birthday(birth: (int, int, int), end: (int, int, int))
    requires
        end.1 == birth.1,
        end.2 == birth.2,
    ensures
        age_between(birth, end) == end.0 - birth.0,
{
}

} // verus!
