//! The questions that delete confirmations ask.
use vstd::prelude::*;

use crate::text::{push_str, string_from_chars};

verus! {

/// `Delete "<name>"? This cannot be undone.`
pub fn delete_prompt(name: &str) -> (r: String)
    ensures
        r@ == "Delete \""@ + name@ + "\"? This cannot be undone."@,
{
    let mut out: Vec<char> = Vec::new();
    push_str(&mut out, "Delete \"");
    push_str(&mut out, name);
    push_str(&mut out, "\"? This cannot be undone.");
    string_from_chars(out.as_slice())
}

/// The question for deleting a trip (named "this trip" when none is given).
pub fn trip_delete_prompt(trip_name: Option<&str>) -> (r: String)
    ensures
        r@ == "Delete \""@ + match trip_name {
            Some(n) => n@,
            None => "this trip"@,
        } + "\" and all of its checklist items and documents? This cannot be undone."@,
{
    let mut out: Vec<char> = Vec::new();
    push_str(&mut out, "Delete \"");
    match trip_name {
        Some(n) => push_str(&mut out, n),
        None => push_str(&mut out, "this trip"),
    }
    push_str(&mut out, "\" and all of its checklist items and documents? This cannot be undone.");
    string_from_chars(out.as_slice())
}

} // verus!
