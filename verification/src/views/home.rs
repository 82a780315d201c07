//! The trips screen's decisions: checking the add-trip form, and which trip
//! a confirmed deletion removes.
use vstd::prelude::*;

use crate::domain::calendar::{spec_normalize_date_range, string_option_view};
use crate::domain::trip::Trip;
use crate::error::ValidationError;
use crate::text::trim;

verus! {

/// Checks the add-trip form: the trimmed name first, then the dates as
/// `Trip::normalize_date_range` does. Returns the name and dates to save.
pub fn trip_form(name: &str, start_date: &str, end_date: &str) -> (r: Result<
    (String, Option<String>, Option<String>),
    ValidationError,
>)
    ensures
        match r {
            Ok((n, s, e)) => trim(name@).len() > 0 && n@ == trim(name@) && spec_normalize_date_range(
                Some(start_date@),
                Some(end_date@),
            ) == Ok::<(Option<Seq<char>>, Option<Seq<char>>), ValidationError>(
                (string_option_view(s), string_option_view(e)),
            ),
            Err(err) => if trim(name@).len() == 0 {
                err == ValidationError::BlankTripName
            } else {
                spec_normalize_date_range(Some(start_date@), Some(end_date@)) == Err::<
                    (Option<Seq<char>>, Option<Seq<char>>),
                    ValidationError,
                >(err)
            },
        },
{
    let cleaned = match Trip::validate_name(name) {
        Ok(v) => v,
        Err(e) => return Err(e),
    };
    match Trip::normalize_date_range(Some(start_date), Some(end_date)) {
        Ok((s, e)) => Ok((cleaned, s, e)),
        Err(e) => Err(e),
    }
}

/// The trip that confirming the delete dialog removes: none in safe mode,
/// else the trip awaiting confirmation.
pub fn trip_delete_target(safe_mode: bool, pending: Option<i64>) -> (r: Option<i64>)
    ensures
        r == if safe_mode {
            None
        } else {
            pending
        },
{
    if safe_mode {
        None
    } else {
        pending
    }
}

} // verus!
