//! Calendar dates written `YYYY-MM-DD`, date ranges and calendar events.
use vstd::prelude::*;

use crate::domain::day_count::{
    civil_from_days, days_from_civil, first_day, is_civil_date, last_day,
    lemma_civil_from_days_inverse, lemma_civil_round_trip, lemma_civil_year_range,
    lemma_days_from_civil_order,
    lemma_month_backward, lemma_year_backward,
    spec_days_in_month, spec_is_leap_year,
};
use crate::error::ValidationError;
use crate::text::{
    chars_of, decimal, trimmed_chars, is_ascii_digit, is_white_space, lemma_zero_padded, pow10,
    trim_end, trim_start, parse_digit_field, push_decimal, push_signed_decimal,
    push_signed_zero_padded, push_str, push_zero_padded, signed_decimal, signed_zero_padded,
    string_from_chars, trim, digit_field, zero_padded,
};

verus! {

/// A date of the proleptic Gregorian calendar. Dates made by `parse` are
/// valid (see `is_valid`); the fields are public, so others may not be.
#[derive(Debug, Clone, Copy, PartialEq, Eq, PartialOrd, Ord, Hash, Structural)]
pub struct CalendarDate {
    pub year: i32,
    pub month: u8,
    pub day: u8,
}

/// The English name of a month number 1..=12.
pub open spec fn spec_month_name(month: int) -> Seq<char> {
    if month == 1 {
        "January"@
    } else if month == 2 {
        "February"@
    } else if month == 3 {
        "March"@
    } else if month == 4 {
        "April"@
    } else if month == 5 {
        "May"@
    } else if month == 6 {
        "June"@
    } else if month == 7 {
        "July"@
    } else if month == 8 {
        "August"@
    } else if month == 9 {
        "September"@
    } else if month == 10 {
        "October"@
    } else if month == 11 {
        "November"@
    } else {
        "December"@
    }
}

/// `YYYY-MM-DD` shape: ten characters, dashes at positions 4 and 7 and
/// nowhere else.
pub open spec fn has_date_shape(s: Seq<char>) -> bool {
    &&& s.len() == 10
    &&& s[4] == '-'
    &&& s[7] == '-'
    &&& forall|i: int| 0 <= i < 10 && i != 4 && i != 7 ==> #[trigger] s[i] != '-'
}

/// The date that a `YYYY-MM-DD` text denotes, if any: each field must be
/// ASCII digits only, the year must lie in 1..=9999, the month in 1..=12,
/// and the day must exist in that month.
pub open spec fn spec_parse_date(s: Seq<char>) -> Option<CalendarDate> {
    if !has_date_shape(s) {
        None
    } else {
        match (
            digit_field(s.subrange(0, 4)),
            digit_field(s.subrange(5, 7)),
            digit_field(s.subrange(8, 10)),
        ) {
            (Some(y), Some(m), Some(d)) => {
                if 1 <= y <= 9999 && 1 <= m <= 12 && 1 <= d <= spec_days_in_month(y, m) {
                    Some(CalendarDate { year: y as i32, month: m as u8, day: d as u8 })
                } else {
                    None
                }
            },
            _ => None,
        }
    }
}

/// `format!("{:04}-{:02}-{:02}", year, month, day)`.
pub open spec fn date_text(d: CalendarDate) -> Seq<char> {
    signed_zero_padded(d.year as int, 4) + seq!['-'] + zero_padded(d.month as nat, 2) + seq!['-']
        + zero_padded(d.day as nat, 2)
}

/// The order of `#[derive(PartialOrd)]`: by year, then month, then day.
pub open spec fn date_before(a: CalendarDate, b: CalendarDate) -> bool {
    ||| a.year < b.year
    ||| (a.year == b.year && a.month < b.month)
    ||| (a.year == b.year && a.month == b.month && a.day < b.day)
}

/// `month_name(day)` as used in labels: "April 2".
pub open spec fn spec_short_label(d: CalendarDate) -> Seq<char> {
    spec_month_name(d.month as int) + seq![' '] + decimal(d.day as nat)
}

/// "April 2 2027".
pub open spec fn spec_label_with_year(d: CalendarDate) -> Seq<char> {
    spec_short_label(d) + seq![' '] + signed_decimal(d.year as int)
}

pub open spec fn parse_option(value: Option<Seq<char>>) -> Option<CalendarDate> {
    match value {
        Some(s) => spec_parse_date(s),
        None => None,
    }
}

pub open spec fn str_option_view(value: Option<&str>) -> Option<Seq<char>> {
    match value {
        Some(s) => Some(s@),
        None => None,
    }
}

/// The label of a (possibly open) date range; unparsable ends count as absent.
pub open spec fn spec_date_range_label(start: Option<Seq<char>>, end: Option<Seq<char>>) -> Option<
    Seq<char>,
> {
    match (parse_option(start), parse_option(end)) {
        (Some(s), Some(e)) => if s == e {
            Some(spec_label_with_year(s))
        } else {
            Some(spec_label_with_year(s) + seq![' ', '\u{2013}', ' '] + spec_label_with_year(e))
        },
        (Some(s), None) => Some("Starts "@ + spec_label_with_year(s)),
        (None, Some(e)) => Some("Ends "@ + spec_label_with_year(e)),
        (None, None) => None,
    }
}

/// What an optional date field is normalised to: absent or blank gives
/// `None`, otherwise the trimmed text must parse and is rewritten as
/// `YYYY-MM-DD`.
pub open spec fn spec_normalize_optional_date(value: Option<Seq<char>>) -> Result<
    Option<Seq<char>>,
    ValidationError,
> {
    match value {
        None => Ok(None),
        Some(s) => if trim(s).len() == 0 {
            Ok(None)
        } else {
            match spec_parse_date(trim(s)) {
                Some(d) => Ok(Some(date_text(d))),
                None => Err(ValidationError::InvalidCalendarDate),
            }
        },
    }
}

/// The date of a normalised field (absent, blank or invalid give `None`).
pub open spec fn normalized_date(value: Option<Seq<char>>) -> Option<CalendarDate> {
    match value {
        None => None,
        Some(s) => if trim(s).len() == 0 {
            None
        } else {
            spec_parse_date(trim(s))
        },
    }
}

/// Both ends normalised; an end before the start is refused.
pub open spec fn spec_normalize_date_range(start: Option<Seq<char>>, end: Option<Seq<char>>) -> Result<
    (Option<Seq<char>>, Option<Seq<char>>),
    ValidationError,
> {
    match spec_normalize_optional_date(start) {
        Err(e) => Err(e),
        Ok(s) => match spec_normalize_optional_date(end) {
            Err(e) => Err(e),
            Ok(e) => match (normalized_date(start), normalized_date(end)) {
                (Some(sd), Some(ed)) => if date_before(ed, sd) {
                    Err(ValidationError::CalendarEndBeforeStart)
                } else {
                    Ok((s, e))
                },
                _ => Ok((s, e)),
            },
        },
    }
}

impl CalendarDate {
    /// A date that `parse` accepts: year 1..=9999 and a day that its month has.
    pub open spec fn is_valid(self) -> bool {
        1 <= self.year <= 9999 && is_civil_date(self.year as int, self.month as int, self.day as int)
    }

    /// Parses a `YYYY-MM-DD` date.
    pub fn parse(value: &str) -> (r: Result<CalendarDate, ValidationError>)
        ensures
            r == match spec_parse_date(value@) {
                Some(d) => Ok(d),
                None => Err(ValidationError::InvalidCalendarDate),
            },
    {
        let v = chars_of(value);
        Self::parse_chars(&v)
    }

    /// `parse` on text given as characters.
    pub fn parse_chars(v: &Vec<char>) -> (r: Result<CalendarDate, ValidationError>)
        ensures
            r == match spec_parse_date(v@) {
                Some(d) => Ok(d),
                None => Err(ValidationError::InvalidCalendarDate),
            },
    {
        if v.len() != 10 || v[4] != '-' || v[7] != '-' {
            return Err(ValidationError::InvalidCalendarDate);
        }
        let mut i: usize = 0;
        while i < 10
            invariant
                v@.len() == 10,
                i <= 10,
                forall|k: int| 0 <= k < i && k != 4 && k != 7 ==> #[trigger] v@[k] != '-',
            decreases 10 - i,
        {
            if i != 4 && i != 7 && v[i] == '-' {
                return Err(ValidationError::InvalidCalendarDate);
            }
            i = i + 1;
        }
        let year = parse_digit_field(v, 0, 4);
        let month = parse_digit_field(v, 5, 7);
        let day = parse_digit_field(v, 8, 10);
        match (year, month, day) {
            (Some(y), Some(m), Some(d)) => {
                if 1 <= y && y <= 9999 && 1 <= m && m <= 12 {
                    let dim = Self::days_in_month(y as i32, m as u8);
                    if 1 <= d && d <= dim as u32 {
                        return Ok(CalendarDate { year: y as i32, month: m as u8, day: d as u8 });
                    }
                }
                Err(ValidationError::InvalidCalendarDate)
            },
            _ => Err(ValidationError::InvalidCalendarDate),
        }
    }

    /// The current date in UTC: the date of the system clock's reading
    /// (see `date_of_clock`), whatever the clock reads.
    pub fn today() -> (r: CalendarDate)
        ensures
            exists|seconds: Option<u64>| r == #[trigger] spec_date_of_clock(seconds),
    {
        let seconds = seconds_since_unix_epoch();
        let r = date_of_clock(seconds);
        assert(r == spec_date_of_clock(seconds));
        r
    }

    /// Days in `month` of `year`; 0 for a month outside 1..=12.
    pub fn days_in_month(year: i32, month: u8) -> (r: u8)
        ensures
            r == spec_days_in_month(year as int, month as int),
    {
        match month {
            1 | 3 | 5 | 7 | 8 | 10 | 12 => 31,
            4 | 6 | 9 | 11 => 30,
            2 => if Self::is_leap_year(year) {
                29
            } else {
                28
            },
            _ => 0,
        }
    }

    /// Gregorian leap-year rule.
    pub fn is_leap_year(year: i32) -> (r: bool)
        ensures
            r == spec_is_leap_year(year as int),
    {
        let y = year as i64;
        let m4 = y % 4;
        let m100 = y % 100;
        let m400 = y % 400;
        proof {
            assert(m4 == 0 <==> (year as int) % 4 == 0);
            assert(m100 == 0 <==> (year as int) % 100 == 0);
            assert(m400 == 0 <==> (year as int) % 400 == 0);
        }
        m4 == 0 && (m100 != 0 || m400 == 0)
    }

    /// English name of the month.
    pub fn month_name(self) -> (name: &'static str)
        requires
            1 <= self.month <= 12,
        ensures
            name@ == spec_month_name(self.month as int),
    {
        match self.month {
            1 => "January",
            2 => "February",
            3 => "March",
            4 => "April",
            5 => "May",
            6 => "June",
            7 => "July",
            8 => "August",
            9 => "September",
            10 => "October",
            11 => "November",
            _ => "December",
        }
    }

    /// "April 2".
    pub fn short_label(self) -> (s: String)
        requires
            1 <= self.month <= 12,
        ensures
            s@ == spec_short_label(self),
    {
        let mut out: Vec<char> = Vec::new();
        self.push_short_label(&mut out);
        string_from_chars(out.as_slice())
    }

    fn push_short_label(self, out: &mut Vec<char>)
        requires
            1 <= self.month <= 12,
        ensures
            final(out)@ == old(out)@ + spec_short_label(self),
    {
        push_str(out, self.month_name());
        out.push(' ');
        push_decimal(out, self.day as u64);
        assert(final(out)@ =~= old(out)@ + spec_short_label(self));
    }

    fn push_label_with_year(self, out: &mut Vec<char>)
        requires
            1 <= self.month <= 12,
        ensures
            final(out)@ == old(out)@ + spec_label_with_year(self),
    {
        self.push_short_label(out);
        out.push(' ');
        push_signed_decimal(out, self.year as i64);
        assert(final(out)@ =~= old(out)@ + spec_label_with_year(self));
    }

    /// Days since 1970-01-01 (negative before it).
    pub fn days_since_unix_epoch(self) -> (r: i64)
        ensures
            r == days_from_civil(self.year as int, self.month as int, self.day as int),
    {
        let mut year = self.year as i64;
        let month = self.month as i64;
        let day = self.day as i64;
        if month <= 2 {
            year = year - 1;
        }
        let era = if year >= 0 {
            year / 400
        } else {
            (year - 399) / 400
        };
        assert(era == year / 400);
        let year_of_era = year - era * 400;
        let shifted = if month > 2 {
            month - 3
        } else {
            month + 9
        };
        let day_of_year = (153 * shifted + 2) / 5 + day - 1;
        let day_of_era = year_of_era * 365 + year_of_era / 4 - year_of_era / 100 + day_of_year;
        era * 146_097 + day_of_era - 719_468
    }

    /// The date of a day number (1970-01-01 is day 0). The year is the low
    /// 32 bits of the civil year, which matters only for day numbers far
    /// outside years 1..=9999.
    pub fn from_days_since_unix_epoch(days: i64) -> (r: CalendarDate)
        requires
            days <= i64::MAX - 719_468,
        ensures
            r == spec_date_of_day(days as int),
    {
        let shifted = days + 719_468;
        let era = if shifted >= 0 {
            shifted / 146_097
        } else {
            (shifted - 146_096) / 146_097
        };
        assert(era == shifted / 146_097);
        let day_of_era = shifted - era * 146_097;
        let year_of_era = (day_of_era - day_of_era / 1_460 + day_of_era / 36_524 - day_of_era
            / 146_096) / 365;
        proof {
            lemma_year_backward(day_of_era as int);
        }
        let mut year = year_of_era + era * 400;
        let day_of_year = day_of_era - (365 * year_of_era + year_of_era / 4 - year_of_era / 100);
        proof {
            lemma_month_backward(day_of_year as int);
        }
        let shifted_month = (5 * day_of_year + 2) / 153;
        let day = day_of_year - (153 * shifted_month + 2) / 5 + 1;
        let month = if shifted_month < 10 {
            shifted_month + 3
        } else {
            shifted_month - 9
        };
        if month <= 2 {
            year = year + 1;
        }
        CalendarDate { year: year as i32, month: month as u8, day: day as u8 }
    }

    /// `YYYY-MM-DD`, the year zero-padded to four digits.
    pub fn to_string(&self) -> (s: String)
        ensures
            s@ == date_text(*self),
    {
        let mut out: Vec<char> = Vec::new();
        self.push_text(&mut out);
        string_from_chars(out.as_slice())
    }

    fn push_text(&self, out: &mut Vec<char>)
        ensures
            final(out)@ == old(out)@ + date_text(*self),
    {
        push_signed_zero_padded(out, self.year as i64, 4);
        out.push('-');
        push_zero_padded(out, self.month as u64, 2);
        out.push('-');
        push_zero_padded(out, self.day as u64, 2);
        assert(final(out)@ =~= old(out)@ + date_text(*self));
    }

    /// `self < other` in the derived order.
    pub fn is_before(&self, other: &CalendarDate) -> (r: bool)
        ensures
            r == date_before(*self, *other),
    {
        self.year < other.year || (self.year == other.year && self.month < other.month) || (
        self.year == other.year && self.month == other.month && self.day < other.day)
    }
}

/// An optional text as a view.
pub open spec fn string_option_view(value: Option<String>) -> Option<Seq<char>> {
    match value {
        Some(s) => Some(s@),
        None => None,
    }
}

/// What validating a calendar event's name and dates gives: the trimmed name
/// and the two dates, or the first problem found.
pub open spec fn spec_calendar_event_fields(name: Seq<char>, start: Seq<char>, end: Seq<char>) -> Result<
    (Seq<char>, CalendarDate, CalendarDate),
    ValidationError,
> {
    if trim(name).len() == 0 {
        Err(ValidationError::BlankCalendarEventName)
    } else {
        match spec_parse_date(trim(start)) {
            None => Err(ValidationError::InvalidCalendarDate),
            Some(s) => match spec_parse_date(trim(end)) {
                None => Err(ValidationError::InvalidCalendarDate),
                Some(e) => if date_before(e, s) {
                    Err(ValidationError::CalendarEndBeforeStart)
                } else {
                    Ok((trim(name), s, e))
                },
            },
        }
    }
}

/// Normalises one optional date field, keeping the parsed date beside its text.
fn normalize_date_field(value: Option<&str>) -> (r: Result<Option<(CalendarDate, String)>, ValidationError>)
    ensures
        match r {
            Ok(None) => spec_normalize_optional_date(str_option_view(value)) == Ok::<
                Option<Seq<char>>,
                ValidationError,
            >(None) && normalized_date(str_option_view(value)) is None,
            Ok(Some((d, t))) => spec_normalize_optional_date(str_option_view(value)) == Ok::<
                Option<Seq<char>>,
                ValidationError,
            >(Some(t@)) && normalized_date(str_option_view(value)) == Some(d) && t@ == date_text(
                d,
            ),
            Err(e) => spec_normalize_optional_date(str_option_view(value)) == Err::<
                Option<Seq<char>>,
                ValidationError,
            >(e),
        },
{
    match value {
        None => Ok(None),
        Some(s) => {
            let t = trimmed_chars(s);
            if t.len() == 0 {
                return Ok(None);
            }
            match CalendarDate::parse_chars(&t) {
                Ok(d) => {
                    let text = d.to_string();
                    Ok(Some((d, text)))
                },
                Err(e) => Err(e),
            }
        },
    }
}

/// Normalises an optional date: absent or blank gives `None`; otherwise the
/// trimmed text must be a date and comes back as `YYYY-MM-DD`.
pub fn normalize_optional_date(value: Option<&str>) -> (r: Result<Option<String>, ValidationError>)
    ensures
        match r {
            Ok(v) => spec_normalize_optional_date(str_option_view(value)) == Ok::<
                Option<Seq<char>>,
                ValidationError,
            >(string_option_view(v)),
            Err(e) => spec_normalize_optional_date(str_option_view(value)) == Err::<
                Option<Seq<char>>,
                ValidationError,
            >(e),
        },
{
    match normalize_date_field(value) {
        Ok(None) => Ok(None),
        Ok(Some((_, text))) => Ok(Some(text)),
        Err(e) => Err(e),
    }
}

/// Normalises both ends of a date range; an end before the start is refused.
pub fn normalize_date_range(start_date: Option<&str>, end_date: Option<&str>) -> (r: Result<
    (Option<String>, Option<String>),
    ValidationError,
>)
    ensures
        match r {
            Ok((s, e)) => spec_normalize_date_range(
                str_option_view(start_date),
                str_option_view(end_date),
            ) == Ok::<(Option<Seq<char>>, Option<Seq<char>>), ValidationError>(
                (string_option_view(s), string_option_view(e)),
            ),
            Err(err) => spec_normalize_date_range(
                str_option_view(start_date),
                str_option_view(end_date),
            ) == Err::<(Option<Seq<char>>, Option<Seq<char>>), ValidationError>(err),
        },
{
    let start = match normalize_date_field(start_date) {
        Ok(v) => v,
        Err(e) => return Err(e),
    };
    let end = match normalize_date_field(end_date) {
        Ok(v) => v,
        Err(e) => return Err(e),
    };
    match (start, end) {
        (Some((sd, st)), Some((ed, et))) => {
            if ed.is_before(&sd) {
                Err(ValidationError::CalendarEndBeforeStart)
            } else {
                Ok((Some(st), Some(et)))
            }
        },
        (Some((_, st)), None) => Ok((Some(st), None)),
        (None, Some((_, et))) => Ok((None, Some(et))),
        (None, None) => Ok((None, None)),
    }
}

fn parse_optional(value: Option<&str>) -> (r: Option<CalendarDate>)
    ensures
        r == parse_option(str_option_view(value)),
{
    match value {
        Some(s) => match CalendarDate::parse(s) {
            Ok(d) => Some(d),
            Err(_) => None,
        },
        None => None,
    }
}

/// Label of a trip's date range: "April 2 2027 – April 16 2027", a single
/// date, "Starts …", "Ends …", or `None` when neither end is a date.
pub fn date_range_label(start_date: Option<&str>, end_date: Option<&str>) -> (r: Option<String>)
    ensures
        string_option_view(r) == spec_date_range_label(
            str_option_view(start_date),
            str_option_view(end_date),
        ),
{
    let start = parse_optional(start_date);
    let end = parse_optional(end_date);
    let mut out: Vec<char> = Vec::new();
    match (start, end) {
        (Some(s), Some(e)) => {
            s.push_label_with_year(&mut out);
            if s != e {
                out.push(' ');
                out.push('\u{2013}');
                out.push(' ');
                e.push_label_with_year(&mut out);
            }
        },
        (Some(s), None) => {
            push_str(&mut out, "Starts ");
            s.push_label_with_year(&mut out);
        },
        (None, Some(e)) => {
            push_str(&mut out, "Ends ");
            e.push_label_with_year(&mut out);
        },
        (None, None) => {
            return None;
        },
    }
    Some(string_from_chars(out.as_slice()))
}

/// A calendar entry of a trip, as stored.
#[derive(Debug, Clone, PartialEq, Eq)]
pub struct CalendarEvent {
    pub id: i64,
    pub trip_id: i64,
    pub name: String,
    pub start_date: String,
    pub end_date: String,
    pub created_at: i64,
    pub updated_at: i64,
}

/// A validated calendar event to be created.
#[derive(Debug, Clone, PartialEq, Eq)]
pub struct NewCalendarEvent {
    pub trip_id: i64,
    pub name: String,
    pub start_date: String,
    pub end_date: String,
}

/// Checks a calendar event's name and dates.
fn calendar_event_fields(name: &str, start_date: &str, end_date: &str) -> (r: Result<
    (String, CalendarDate, CalendarDate),
    ValidationError,
>)
    ensures
        match (r, spec_calendar_event_fields(name@, start_date@, end_date@)) {
            (Ok((n, s, e)), Ok((sn, ss, se))) => n@ == sn && s == ss && e == se,
            (Err(a), Err(b)) => a == b,
            _ => false,
        },
{
    let name_chars = trimmed_chars(name);
    if name_chars.len() == 0 {
        return Err(ValidationError::BlankCalendarEventName);
    }
    let name = string_from_chars(name_chars.as_slice());
    let start_chars = trimmed_chars(start_date);
    let start = match CalendarDate::parse_chars(&start_chars) {
        Ok(d) => d,
        Err(e) => return Err(e),
    };
    let end_chars = trimmed_chars(end_date);
    let end = match CalendarDate::parse_chars(&end_chars) {
        Ok(d) => d,
        Err(e) => return Err(e),
    };
    if end.is_before(&start) {
        return Err(ValidationError::CalendarEndBeforeStart);
    }
    Ok((name, start, end))
}

impl NewCalendarEvent {
    /// Validates a new calendar event: the trimmed name must not be empty,
    /// both trimmed dates must parse, and the end may not precede the start.
    /// Dates are stored as `YYYY-MM-DD`.
    pub fn new(trip_id: i64, name: &str, start_date: &str, end_date: &str) -> (r: Result<
        Self,
        ValidationError,
    >)
        ensures
            match (r, spec_calendar_event_fields(name@, start_date@, end_date@)) {
                (Ok(ev), Ok((n, s, e))) => ev.trip_id == trip_id && ev.name@ == n
                    && ev.start_date@ == date_text(s) && ev.end_date@ == date_text(e),
                (Err(a), Err(b)) => a == b,
                _ => false,
            },
    {
        match calendar_event_fields(name, start_date, end_date) {
            Ok((name, start, end)) => Ok(
                NewCalendarEvent {
                    trip_id,
                    name,
                    start_date: start.to_string(),
                    end_date: end.to_string(),
                },
            ),
            Err(e) => Err(e),
        }
    }
}

/// A validated change to an existing calendar event.
#[derive(Debug, Clone, PartialEq, Eq)]
pub struct UpdateCalendarEvent {
    pub id: i64,
    pub trip_id: i64,
    pub name: String,
    pub start_date: String,
    pub end_date: String,
}

impl UpdateCalendarEvent {
    /// Validates as `NewCalendarEvent::new` does and keeps the event's id.
    pub fn new(id: i64, trip_id: i64, name: &str, start_date: &str, end_date: &str) -> (r: Result<
        Self,
        ValidationError,
    >)
        ensures
            match (r, spec_calendar_event_fields(name@, start_date@, end_date@)) {
                (Ok(ev), Ok((n, s, e))) => ev.id == id && ev.trip_id == trip_id && ev.name@ == n
                    && ev.start_date@ == date_text(s) && ev.end_date@ == date_text(e),
                (Err(a), Err(b)) => a == b,
                _ => false,
            },
    {
        match NewCalendarEvent::new(trip_id, name, start_date, end_date) {
            Ok(validated) => Ok(
                UpdateCalendarEvent {
                    id,
                    trip_id: validated.trip_id,
                    name: validated.name,
                    start_date: validated.start_date,
                    end_date: validated.end_date,
                },
            ),
            Err(e) => Err(e),
        }
    }
}

proof fn lemma_field_of_padded(t: Seq<char>, lo: int, n: nat, width: nat)
    requires
        width >= 1,
        n < pow10(width),
        0 <= lo,
        lo + width <= t.len(),
        t.subrange(lo, lo + width) == zero_padded(n, width as int),
    ensures
        digit_field(t.subrange(lo, lo + width)) == Some(n as int),
        forall|i: int| lo <= i < lo + width ==> is_ascii_digit(#[trigger] t[i]),
{
    lemma_zero_padded(n, width);
    let f = t.subrange(lo, lo + width);
    assert(is_ascii_digit(f[0]));
    assert forall|i: int| lo <= i < lo + width implies is_ascii_digit(#[trigger] t[i]) by {
        assert(t[i] == f[i - lo]);
    }
}

/// Writing a valid date as `YYYY-MM-DD` and parsing that text gives the date
/// back.
pub proof fn lemma_parse_date_text(d: CalendarDate)
    requires
        d.is_valid(),
    ensures
        spec_parse_date(date_text(d)) == Some(d),
        trim(date_text(d)) == date_text(d),
{
    assert(pow10(4) == 10000 && pow10(2) == 100) by {
        reveal_with_fuel(pow10, 5);
    }
    let y = d.year as nat;
    let m = d.month as nat;
    let dd = d.day as nat;
    lemma_zero_padded(y, 4);
    lemma_zero_padded(m, 2);
    lemma_zero_padded(dd, 2);
    let t = date_text(d);
    assert(signed_zero_padded(d.year as int, 4) == zero_padded(y, 4));
    assert(t.len() == 10);
    assert(t.subrange(0, 4) =~= zero_padded(y, 4));
    assert(t.subrange(5, 7) =~= zero_padded(m, 2));
    assert(t.subrange(8, 10) =~= zero_padded(dd, 2));
    lemma_field_of_padded(t, 0, y, 4);
    lemma_field_of_padded(t, 5, m, 2);
    lemma_field_of_padded(t, 8, dd, 2);
    assert(t[4] == '-' && t[7] == '-');
    assert(has_date_shape(t));
    assert(!is_white_space(t[0]));
    assert(trim_start(t) == t);
    assert(t.last() == t[9]);
    assert(!is_white_space(t.last()));
    assert(trim_end(t) == t);
}

/// Normalising a normalised date changes nothing.
pub proof fn lemma_normalize_optional_date_idempotent(value: Seq<char>)
    requires
        spec_normalize_optional_date(Some(value)) is Ok,
    ensures
        spec_normalize_optional_date(spec_normalize_optional_date(Some(value))->Ok_0)
            == spec_normalize_optional_date(Some(value)),
{
    match spec_normalize_optional_date(Some(value)) {
        Ok(Some(t)) => {
            let d = spec_parse_date(trim(value))->Some_0;
            lemma_parse_date_text(d);
        },
        _ => {},
    }
}

/// Normalising a normalised date range gives it back unchanged.
pub proof fn lemma_normalize_date_range_idempotent(start: Option<Seq<char>>, end: Option<Seq<char>>)
    requires
        spec_normalize_date_range(start, end) is Ok,
    ensures
        ({
            let (s, e) = spec_normalize_date_range(start, end)->Ok_0;
            spec_normalize_date_range(s, e) == spec_normalize_date_range(start, end)
        }),
{
    let (s, e) = spec_normalize_date_range(start, end)->Ok_0;
    if let Some(t) = s {
        let d = spec_parse_date(trim(start->Some_0))->Some_0;
        lemma_parse_date_text(d);
        assert(t == date_text(d));
        assert(normalized_date(s) == Some(d));
    } else {
        assert(normalized_date(s) is None);
    }
    if let Some(t) = e {
        let d = spec_parse_date(trim(end->Some_0))->Some_0;
        lemma_parse_date_text(d);
        assert(t == date_text(d));
        assert(normalized_date(e) == Some(d));
    } else {
        assert(normalized_date(e) is None);
    }
    assert(normalized_date(s) == normalized_date(start));
    assert(normalized_date(e) == normalized_date(end));
}

/// The order of dates is the order of their day numbers.
pub proof fn lemma_date_order_is_day_order(a: CalendarDate, b: CalendarDate)
    requires
        a.is_valid(),
        b.is_valid(),
    ensures
        date_before(a, b) <==> days_from_civil(a.year as int, a.month as int, a.day as int)
            < days_from_civil(b.year as int, b.month as int, b.day as int),
{
    lemma_days_from_civil_order(
        a.year as int,
        a.month as int,
        a.day as int,
        b.year as int,
        b.month as int,
        b.day as int,
    );
}

/// A valid date comes back from its day number.
pub proof fn lemma_date_day_round_trip(d: CalendarDate)
    requires
        d.is_valid(),
    ensures
        spec_date_of_day(days_from_civil(d.year as int, d.month as int, d.day as int)) == d,
{
    lemma_civil_round_trip(d.year as int, d.month as int, d.day as int);
}

/// Each day number of the years 1 through 9999 is the day number of the
/// valid date made for it; the others make no valid date.
pub proof fn lemma_day_date_round_trip(n: int)
    ensures
        first_day() <= n <= last_day() ==> spec_date_of_day(n).is_valid() && days_from_civil(
            spec_date_of_day(n).year as int,
            spec_date_of_day(n).month as int,
            spec_date_of_day(n).day as int,
        ) == n,
{
    lemma_civil_from_days_inverse(n);
    lemma_civil_year_range(n);
}

/// The date of a day number, with the year truncated to 32 bits.
pub open spec fn spec_date_of_day(n: int) -> CalendarDate {
    let (y, m, d) = civil_from_days(n);
    CalendarDate { year: y as i32, month: m as u8, day: d as u8 }
}

/// The UTC date of a clock reading in whole seconds since 1970-01-01; a
/// failed reading (a clock set before 1970) counts as 1970-01-01.
pub open spec fn spec_date_of_clock(seconds: Option<u64>) -> CalendarDate {
    spec_date_of_day(
        match seconds {
            Some(s) => s as int / 86400,
            None => 0,
        },
    )
}

/// The date of a clock reading: whole days since 1970-01-01, a failed
/// reading counting as none.
pub fn date_of_clock(seconds: Option<u64>) -> (r: CalendarDate)
    ensures
        r == spec_date_of_clock(seconds),
{
    let seconds: u64 = match seconds {
        Some(s) => s,
        None => 0,
    };
    let days: i64 = (seconds / 86400) as i64;
    CalendarDate::from_days_since_unix_epoch(days)
}

/// Seconds since 1970-01-01 by the system clock; `None` when the clock
/// reads earlier than that.
#[verifier::external_body]
fn seconds_since_unix_epoch() -> (r: Option<u64>) {
    std::time::SystemTime::now().duration_since(std::time::UNIX_EPOCH).ok().map(|d| d.as_secs())
}

/// The day number of a date: days since 1970-01-01.
pub open spec fn day_number(d: CalendarDate) -> int {
    days_from_civil(d.year as int, d.month as int, d.day as int)
}

/// A trip's dates, both given: when the (trimmed) texts are the dates `s`
/// and `e`, the range is refused exactly when `e` falls on an earlier day
/// than `s`, and is otherwise kept as the two dates in `YYYY-MM-DD` form.
/// An end in a later year is never refused.
pub proof fn lemma_date_range_order(a: Seq<char>, b: Seq<char>, s: CalendarDate, e: CalendarDate)
    requires
        spec_parse_date(trim(a)) == Some(s),
        spec_parse_date(trim(b)) == Some(e),
    ensures
        spec_normalize_date_range(Some(a), Some(b)) == if day_number(e) < day_number(s) {
            Err::<(Option<Seq<char>>, Option<Seq<char>>), ValidationError>(
                ValidationError::CalendarEndBeforeStart,
            )
        } else {
            Ok::<(Option<Seq<char>>, Option<Seq<char>>), ValidationError>(
                (Some(date_text(s)), Some(date_text(e))),
            )
        },
        e.year > s.year ==> spec_normalize_date_range(Some(a), Some(b)) is Ok,
{
    lemma_parse_date_text(s);
    lemma_parse_date_text(e);
    assert(trim(a).len() > 0 && trim(b).len() > 0);
    lemma_date_order_is_day_order(e, s);
}

/// A calendar event with a non-blank name and two valid (trimmed) dates `s`
/// and `e`: it is refused exactly when `e` falls on an earlier day than
/// `s`, and otherwise keeps the trimmed name and both dates. An end in a
/// later year is never refused.
pub proof fn lemma_event_dates_order(
    name: Seq<char>,
    a: Seq<char>,
    b: Seq<char>,
    s: CalendarDate,
    e: CalendarDate,
)
    requires
        trim(name).len() > 0,
        spec_parse_date(trim(a)) == Some(s),
        spec_parse_date(trim(b)) == Some(e),
    ensures
        spec_calendar_event_fields(name, a, b) == if day_number(e) < day_number(s) {
            Err::<(Seq<char>, CalendarDate, CalendarDate), ValidationError>(
                ValidationError::CalendarEndBeforeStart,
            )
        } else {
            Ok::<(Seq<char>, CalendarDate, CalendarDate), ValidationError>((trim(name), s, e))
        },
        e.year > s.year ==> spec_calendar_event_fields(name, a, b) is Ok,
{
    lemma_parse_date_text(s);
    lemma_parse_date_text(e);
    lemma_date_order_is_day_order(e, s);
}

/// "<Month> <day> <year>" written out from its parts.
pub open spec fn written_date(d: CalendarDate) -> Seq<char> {
    spec_month_name(d.month as int) + seq![' '] + decimal(d.day as nat) + seq![' '] + signed_decimal(
        d.year as int,
    )
}

/// The label of a trip's dates names each end with its own month, day and
/// year: two different dates `s` and `e` read "<s> – <e>", so the label
/// ends with the end's own year; one date alone, or the same date twice,
/// reads as that date, "Starts <s>" or "Ends <e>".
pub proof fn lemma_date_range_label_parts(a: Seq<char>, b: Seq<char>, s: CalendarDate, e: CalendarDate)
    requires
        spec_parse_date(a) == Some(s),
        spec_parse_date(b) == Some(e),
    ensures
        s != e ==> spec_date_range_label(Some(a), Some(b)) == Some(
            written_date(s) + seq![' ', '\u{2013}', ' '] + written_date(e),
        ),
        s != e ==> ({
            let label = spec_date_range_label(Some(a), Some(b))->Some_0;
            let y = signed_decimal(e.year as int);
            label.len() >= y.len() && label.subrange(label.len() - y.len(), label.len() as int) == y
        }),
        s == e ==> spec_date_range_label(Some(a), Some(b)) == Some(written_date(s)),
        spec_date_range_label(Some(a), None) == Some("Starts "@ + written_date(s)),
        spec_date_range_label(None, Some(b)) == Some("Ends "@ + written_date(e)),
{
    assert(spec_label_with_year(s) =~= written_date(s));
    assert(spec_label_with_year(e) =~= written_date(e));
    if s != e {
        let label = written_date(s) + seq![' ', '\u{2013}', ' '] + written_date(e);
        let y = signed_decimal(e.year as int);
        assert(label =~= (spec_month_name(s.month as int) + seq![' '] + decimal(s.day as nat)
            + seq![' '] + signed_decimal(s.year as int) + seq![' ', '\u{2013}', ' ']
            + spec_month_name(e.month as int) + seq![' '] + decimal(e.day as nat) + seq![' '])
            + y);
        assert(label.subrange(label.len() - y.len(), label.len() as int) =~= y);
    }
}

} // verus!
