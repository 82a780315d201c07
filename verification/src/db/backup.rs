//! The full backup of all trips with everything recorded for them.
use vstd::prelude::*;

use crate::domain::calendar::CalendarEvent;
use crate::domain::checklist::ChecklistItem;
use crate::domain::document::TravelDocument;
use crate::domain::trip::Trip;
use crate::text::{decimal, push_decimal, push_str, string_from_chars};

verus! {

/// The backup format version that this library writes and reads.
pub const BACKUP_VERSION: u32 = 1;

/// Every trip with its checklist, documents and calendar.
#[derive(Debug, Clone)]
pub struct AppBackup {
    pub version: u32,
    pub trips: Vec<FullTripBackup>,
}

/// One trip and everything recorded for it.
#[derive(Debug, Clone)]
pub struct FullTripBackup {
    pub trip: Trip,
    pub checklist_items: Vec<ChecklistItem>,
    pub documents: Vec<TravelDocument>,
    pub calendar_events: Vec<CalendarEvent>,
}

impl AppBackup {
    /// A backup of the current format holding `trips`.
    pub fn new(trips: Vec<FullTripBackup>) -> (r: Self)
        ensures
            r.version == BACKUP_VERSION,
            r.trips == trips,
    {
        AppBackup { version: BACKUP_VERSION, trips }
    }

    /// Refuses a backup of another format version, with the message that
    /// the import reports.
    pub fn check_version(&self) -> (r: Result<(), String>)
        ensures
            match r {
                Ok(()) => self.version == BACKUP_VERSION,
                Err(message) => self.version != BACKUP_VERSION && message@
                    == "unsupported backup version "@ + decimal(self.version as nat),
            },
    {
        if self.version != BACKUP_VERSION {
            let mut out: Vec<char> = Vec::new();
            push_str(&mut out, "unsupported backup version ");
            push_decimal(&mut out, self.version as u64);
            return Err(string_from_chars(out.as_slice()));
        }
        Ok(())
    }
}

} // verus!
