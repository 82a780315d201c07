//! The calendar's sheets: the month it opens on for a trip, and what saving
//! the event sheet does.
use vstd::prelude::*;

use crate::domain::calendar::{
    date_text, spec_calendar_event_fields, spec_parse_date, str_option_view, CalendarDate,
    NewCalendarEvent, UpdateCalendarEvent,
};
use crate::error::ValidationError;
use crate::views::calendar::CalendarMonth;

verus! {

/// The month that the calendar opens on for a trip whose start date is
/// `start_date`: the month of that date, when it is one.
pub fn month_of_trip_start(start_date: Option<&str>) -> (r: Option<CalendarMonth>)
    ensures
        r == match str_option_view(start_date) {
            Some(t) => match spec_parse_date(t) {
                Some(d) => Some(CalendarMonth { year: d.year, month: d.month }),
                None => None,
            },
            None => None,
        },
{
    match start_date {
        Some(text) => match CalendarDate::parse(text) {
            Ok(date) => Some(CalendarMonth { year: date.year, month: date.month }),
            Err(_) => None,
        },
        None => None,
    }
}

/// What saving the event sheet does: create an event, or change the one
/// being edited.
#[derive(Debug, Clone, PartialEq, Eq)]
pub enum EventCommand {
    Create(NewCalendarEvent),
    Update(UpdateCalendarEvent),
}

/// The command for the event sheet's fields: an update of event `editing`
/// when one is being edited, else a new event of the trip; the fields are
/// validated as `NewCalendarEvent::new` does.
pub fn event_command(
    editing: Option<i64>,
    trip_id: i64,
    name: &str,
    start_date: &str,
    end_date: &str,
) -> (r: Result<EventCommand, ValidationError>)
    ensures
        match (r, spec_calendar_event_fields(name@, start_date@, end_date@)) {
            (Ok(EventCommand::Create(ev)), Ok((n, s, e))) => editing is None && ev.trip_id == trip_id
                && ev.name@ == n && ev.start_date@ == date_text(s) && ev.end_date@ == date_text(e),
            (Ok(EventCommand::Update(ev)), Ok((n, s, e))) => editing == Some(ev.id) && ev.trip_id
                == trip_id && ev.name@ == n && ev.start_date@ == date_text(s) && ev.end_date@
                == date_text(e),
            (Err(a), Err(b)) => a == b,
            _ => false,
        },
{
    match editing {
        Some(id) => match UpdateCalendarEvent::new(id, trip_id, name, start_date, end_date) {
            Ok(ev) => Ok(EventCommand::Update(ev)),
            Err(e) => Err(e),
        },
        None => match NewCalendarEvent::new(trip_id, name, start_date, end_date) {
            Ok(ev) => Ok(EventCommand::Create(ev)),
            Err(e) => Err(e),
        },
    }
}

/// The event sheet's heading and save button label: for changing an event
/// when one is being edited, else for adding one.
pub fn event_sheet_labels(editing: bool) -> (r: (&'static str, &'static str))
    ensures
        r.0@ == if editing {
            "Edit event"@
        } else {
            "Add an event"@
        },
        r.1@ == if editing {
            "Save event"@
        } else {
            "Add event"@
        },
{
    if editing {
        ("Edit event", "Save event")
    } else {
        ("Add an event", "Add event")
    }
}

} // verus!
