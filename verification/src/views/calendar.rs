//! Month navigation of the trip calendar and the placement of events on it.
use vstd::prelude::*;

use crate::components::document_pane::{truncate, truncated};
use crate::domain::calendar::{
    date_before, day_number, lemma_date_order_is_day_order, spec_date_of_clock, spec_date_of_day, spec_month_name, spec_parse_date, CalendarDate, CalendarEvent,
};
use crate::domain::day_count::{days_from_civil, lemma_next_month_start, spec_days_in_month};
use crate::text::{push_signed_decimal, push_str, signed_decimal, string_from_chars};

verus! {

/// A month shown by the calendar.
#[derive(Clone, Copy, Debug, PartialEq, Eq, Structural)]
pub struct CalendarMonth {
    pub year: i32,
    pub month: u8,
}

/// The month that a date lies in.
pub open spec fn month_of_date(d: CalendarDate) -> CalendarMonth {
    CalendarMonth { year: d.year, month: d.month }
}

/// The month before, staying at January of year 1.
pub open spec fn spec_previous(m: CalendarMonth) -> CalendarMonth {
    if m.month > 1 {
        CalendarMonth { month: (m.month - 1) as u8, ..m }
    } else if m.year > 1 {
        CalendarMonth { year: (m.year - 1) as i32, month: 12 }
    } else {
        m
    }
}

/// The month after, staying at December of year 9999.
pub open spec fn spec_next(m: CalendarMonth) -> CalendarMonth {
    if m.month < 12 {
        CalendarMonth { month: (m.month + 1) as u8, ..m }
    } else if m.year < 9999 {
        CalendarMonth { year: (m.year + 1) as i32, month: 1 }
    } else {
        m
    }
}

/// Weekday of the first of the month, Monday being 0.
pub open spec fn spec_first_weekday(m: CalendarMonth) -> int {
    (days_from_civil(m.year as int, m.month as int, 1) + 3) % 7
}

impl CalendarMonth {
    /// The month of today's date (see `CalendarDate::today`).
    pub fn today() -> (r: CalendarMonth)
        ensures
            exists|seconds: Option<u64>|
                r == month_of_date(#[trigger] spec_date_of_clock(seconds)),
    {
        let date = CalendarDate::today();
        CalendarMonth { year: date.year, month: date.month }
    }

    /// The month before; January of year 1 has none and stays.
    pub fn previous(self) -> (r: CalendarMonth)
        ensures
            r == spec_previous(self),
    {
        if self.month > 1 {
            CalendarMonth { month: self.month - 1, ..self }
        } else if self.year > 1 {
            CalendarMonth { year: self.year - 1, month: 12 }
        } else {
            self
        }
    }

    /// The month after; December of year 9999 has none and stays.
    pub fn next(self) -> (r: CalendarMonth)
        ensures
            r == spec_next(self),
    {
        if self.month < 12 {
            CalendarMonth { month: self.month + 1, ..self }
        } else if self.year < 9999 {
            CalendarMonth { year: self.year + 1, month: 1 }
        } else {
            self
        }
    }

    /// "April 2027".
    pub fn title(self) -> (r: String)
        requires
            1 <= self.month <= 12,
        ensures
            r@ == spec_month_name(self.month as int) + seq![' '] + signed_decimal(self.year as int),
    {
        let first = CalendarDate { year: self.year, month: self.month, day: 1 };
        let mut out: Vec<char> = Vec::new();
        push_str(&mut out, first.month_name());
        out.push(' ');
        push_signed_decimal(&mut out, self.year as i64);
        assert(out@ =~= spec_month_name(self.month as int) + seq![' '] + signed_decimal(
            self.year as int,
        ));
        string_from_chars(out.as_slice())
    }

    /// Weekday of the month's first day, Monday being 0.
    pub fn first_weekday(self) -> (r: usize)
        ensures
            r == spec_first_weekday(self),
            r < 7,
    {
        let days = CalendarDate { year: self.year, month: self.month, day: 1 }.days_since_unix_epoch();
        let shifted: i128 = days as i128 + 3 + 7 * 1_400_000_000_000_000_000i128;
        proof {
            vstd::arithmetic::div_mod::lemma_mod_multiples_vanish(
                1_400_000_000_000_000_000int,
                days + 3,
                7,
            );
        }
        let weekday: i128 = shifted % 7;
        weekday as usize
    }

    /// Days in the month.
    pub fn days_in_month(self) -> (r: u8)
        ensures
            r == spec_days_in_month(self.year as int, self.month as int),
    {
        CalendarDate::days_in_month(self.year, self.month)
    }
}

/// Going forward a month and back again returns to the month, except at
/// December of year 9999, where the calendar stops.
pub proof fn lemma_next_then_previous(m: CalendarMonth)
    requires
        1 <= m.month <= 12,
        1 <= m.year,
        !(m.year >= 9999 && m.month == 12),
    ensures
        spec_previous(spec_next(m)) == m,
{
}

/// Going back a month and forward again returns to the month, except at
/// January of year 1, where the calendar stops.
pub proof fn lemma_previous_then_next(m: CalendarMonth)
    requires
        1 <= m.month <= 12,
        m.year <= 9999,
        !(m.year <= 1 && m.month == 1),
    ensures
        spec_next(spec_previous(m)) == m,
{
}

/// The first weekday of the next month follows from this month's first
/// weekday and its length, so the calendar grid continues without a gap.
pub proof fn lemma_next_month_weekday(m: CalendarMonth)
    requires
        1 <= m.month <= 12,
        1 <= m.year,
        !(m.year >= 9999 && m.month == 12),
    ensures
        spec_first_weekday(spec_next(m)) == (spec_first_weekday(m) + spec_days_in_month(
            m.year as int,
            m.month as int,
        )) % 7,
{
    lemma_next_month_start(m.year as int, m.month as int);
    let d = days_from_civil(m.year as int, m.month as int, 1);
    let n = spec_days_in_month(m.year as int, m.month as int);
    assert((d + n + 3) % 7 == ((d + 3) % 7 + n) % 7);
}

/// Whether a day lies within an event, both ends included; an event whose
/// dates do not parse lies nowhere.
pub open spec fn spec_event_occurs_on(event: CalendarEvent, date: CalendarDate) -> bool {
    match (spec_parse_date(event.start_date@), spec_parse_date(event.end_date@)) {
        (Some(s), Some(e)) => !date_before(date, s) && !date_before(e, date),
        _ => false,
    }
}

/// Whether the event covers `date`.
pub fn event_occurs_on(event: &CalendarEvent, date: CalendarDate) -> (r: bool)
    ensures
        r == spec_event_occurs_on(*event, date),
{
    let start = match CalendarDate::parse(event.start_date.as_str()) {
        Ok(d) => d,
        Err(_) => return false,
    };
    let end = match CalendarDate::parse(event.end_date.as_str()) {
        Ok(d) => d,
        Err(_) => return false,
    };
    !date.is_before(&start) && !end.is_before(&date)
}

/// Positions of the events that cover `date`, in list order.
pub fn events_on_day(events: &Vec<CalendarEvent>, date: CalendarDate) -> (r: Vec<usize>)
    ensures
        forall|k: int| 0 <= k < r@.len() ==> (#[trigger] r@[k]) < events@.len()
            && spec_event_occurs_on(events@[r@[k] as int], date),
        forall|k: int, l: int| 0 <= k < l < r@.len() ==> r@[k] < r@[l],
        forall|i: int|
            0 <= i < events@.len() && spec_event_occurs_on(#[trigger] events@[i], date)
                ==> r@.contains(i as usize),
{
    let mut r: Vec<usize> = Vec::new();
    let mut i: usize = 0;
    while i < events.len()
        invariant
            i <= events@.len(),
            forall|k: int| 0 <= k < r@.len() ==> (#[trigger] r@[k]) < i
                && spec_event_occurs_on(events@[r@[k] as int], date),
            forall|k: int, l: int| 0 <= k < l < r@.len() ==> r@[k] < r@[l],
            forall|j: int|
                0 <= j < i && spec_event_occurs_on(#[trigger] events@[j], date) ==> r@.contains(
                    j as usize,
                ),
        decreases events@.len() - i,
    {
        if event_occurs_on(&events[i], date) {
            let ghost before = r@;
            r.push(i);
            assert forall|j: int|
                0 <= j < i + 1 && spec_event_occurs_on(#[trigger] events@[j], date) implies r@.contains(
                j as usize,
            ) by {
                if j < i {
                    let k = choose|k: int| 0 <= k < before.len() && before[k] == j as usize;
                    assert(r@[k] == j as usize);
                } else {
                    assert(r@[before.len() as int] == i);
                }
            }
        }
        i = i + 1;
    }
    r
}

/// An event name cut to eleven characters for the month grid.
pub fn abbreviate_event_name(name: &str) -> (r: String)
    ensures
        r@ == truncated(name@, 11),
{
    truncate(name, 11)
}

/// An event whose dates are `s` and `e` covers exactly the days from its
/// start to its end, both included: it occurs on a valid date `d` iff
/// `s`'s day number <= `d`'s <= `e`'s. So an event with `s` not after `e`
/// shows on its first day and on its last day, and a one-day event on that
/// day.
pub proof fn lemma_event_covers_its_days(event: CalendarEvent, s: CalendarDate, e: CalendarDate, d: CalendarDate)
    requires
        spec_parse_date(event.start_date@) == Some(s),
        spec_parse_date(event.end_date@) == Some(e),
        d.is_valid(),
    ensures
        spec_event_occurs_on(event, d) <==> (day_number(s) <= day_number(d) && day_number(d)
            <= day_number(e)),
        day_number(s) <= day_number(e) ==> spec_event_occurs_on(event, s)
            && spec_event_occurs_on(event, e),
{
    assert(s.is_valid() && e.is_valid());
    lemma_date_order_is_day_order(d, s);
    lemma_date_order_is_day_order(e, d);
    lemma_date_order_is_day_order(s, s);
    lemma_date_order_is_day_order(e, s);
    lemma_date_order_is_day_order(e, e);
    lemma_date_order_is_day_order(s, e);
}

} // verus!
