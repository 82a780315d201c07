//! Trips and their overview counts.
use vstd::prelude::*;

use crate::domain::calendar::{
    date_range_label, normalize_date_range, spec_date_range_label, spec_normalize_date_range,
    str_option_view, string_option_view,
};
use crate::error::ValidationError;
use crate::text::{nonblank_trimmed, trim};

verus! {

/// A planned trip, as stored; dates are `YYYY-MM-DD` when present.
#[derive(Debug, Clone, PartialEq, Eq)]
pub struct Trip {
    pub id: i64,
    pub name: String,
    pub start_date: Option<String>,
    pub end_date: Option<String>,
    pub created_at: i64,
    pub updated_at: i64,
}

fn as_str_option(value: &Option<String>) -> (r: Option<&str>)
    ensures
        str_option_view(r) == string_option_view(*value),
{
    match value {
        Some(s) => Some(s.as_str()),
        None => None,
    }
}

impl Trip {
    /// The trimmed trip name; a blank name is refused.
    pub fn validate_name(name: &str) -> (r: Result<String, ValidationError>)
        ensures
            match r {
                Ok(v) => v@ == trim(name@) && v@.len() > 0,
                Err(e) => e == ValidationError::BlankTripName && trim(name@).len() == 0,
            },
    {
        match nonblank_trimmed(name) {
            Some(v) => Ok(v),
            None => Err(ValidationError::BlankTripName),
        }
    }

    /// Normalises a trip's start and end dates (see `normalize_date_range`).
    pub fn normalize_date_range(start_date: Option<&str>, end_date: Option<&str>) -> (r: Result<
        (Option<String>, Option<String>),
        ValidationError,
    >)
        ensures
            match r {
                Ok((s, e)) => spec_normalize_date_range(
                    str_option_view(start_date),
                    str_option_view(end_date),
                ) == Ok::<(Option<Seq<char>>, Option<Seq<char>>), ValidationError>(
                    (string_option_view(s), string_option_view(e)),
                ),
                Err(err) => spec_normalize_date_range(
                    str_option_view(start_date),
                    str_option_view(end_date),
                ) == Err::<(Option<Seq<char>>, Option<Seq<char>>), ValidationError>(err),
            },
    {
        normalize_date_range(start_date, end_date)
    }

    /// The label of the trip's dates (see `date_range_label`).
    pub fn date_range_label(&self) -> (r: Option<String>)
        ensures
            string_option_view(r) == spec_date_range_label(
                string_option_view(self.start_date),
                string_option_view(self.end_date),
            ),
    {
        date_range_label(as_str_option(&self.start_date), as_str_option(&self.end_date))
    }
}

/// A trip with its checklist and document counts.
#[derive(Debug, Clone, PartialEq, Eq)]
pub struct TripOverview {
    pub trip: Trip,
    pub checklist_total: i64,
    pub checklist_completed: i64,
    pub document_count: i64,
}

impl TripOverview {
    /// Checklist items not yet checked.
    pub fn checklist_outstanding(&self) -> (r: i64)
        requires
            i64::MIN <= self.checklist_total - self.checklist_completed <= i64::MAX,
        ensures
            r == self.checklist_total - self.checklist_completed,
    {
        self.checklist_total - self.checklist_completed
    }
}

} // verus!
