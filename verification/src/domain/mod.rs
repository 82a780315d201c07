//! Validated travel planning models: trips, checklist items, documents and
//! calendar dates and events.
pub mod calendar;
pub mod checklist;
pub mod day_count;
pub mod document;
pub mod trip;

pub use calendar::{
    date_range_label, normalize_date_range, normalize_optional_date, CalendarDate, CalendarEvent,
    NewCalendarEvent, UpdateCalendarEvent,
};
pub use checklist::ChecklistItem;
pub use document::{AttachmentRef, NewTravelDocument, TravelDocument, UpdateTravelDocument};
pub use trip::{Trip, TripOverview};
