//! Packing checklist items.
use vstd::prelude::*;

use crate::error::ValidationError;
use crate::text::{nonblank_trimmed, trim};

verus! {

/// One line of a trip's packing checklist, as stored.
#[derive(Debug, Clone, PartialEq, Eq)]
pub struct ChecklistItem {
    pub id: i64,
    pub trip_id: i64,
    pub text: String,
    pub is_checked: bool,
    pub sort_order: i64,
    pub created_at: i64,
    pub updated_at: i64,
}

impl ChecklistItem {
    /// The trimmed item text; blank text is refused.
    pub fn validate_text(text: &str) -> (r: Result<String, ValidationError>)
        ensures
            match r {
                Ok(v) => v@ == trim(text@) && v@.len() > 0,
                Err(e) => e == ValidationError::BlankChecklistText && trim(text@).len() == 0,
            },
    {
        match nonblank_trimmed(text) {
            Some(v) => Ok(v),
            None => Err(ValidationError::BlankChecklistText),
        }
    }
}

} // verus!
