//! The logic of the trip screens: month navigation and event placement in
//! the calendar, and row reordering in the checklist.
pub mod calendar;
pub mod calendar_sheet;
pub mod checklist;
pub mod documentation;
pub mod home;
