//! Travel documents and their optional file attachments.
use vstd::prelude::*;

use crate::error::ValidationError;
use crate::text::{nonblank_trimmed, trim, trimmed_chars};

verus! {

/// A file that a document points at: a content URI with what the provider
/// said of its name and type.
#[derive(Debug, Clone, PartialEq, Eq)]
pub struct AttachmentRef {
    pub uri: String,
    pub display_name: Option<String>,
    pub mime_type: Option<String>,
}

impl AttachmentRef {
    /// An attachment for a URI that is not blank; `None` for a blank URI.
    pub fn new(uri: String, display_name: Option<String>, mime_type: Option<String>) -> (r: Option<
        Self,
    >)
        ensures
            match r {
                Some(a) => trim(uri@).len() > 0 && a.uri == uri && a.display_name == display_name
                    && a.mime_type == mime_type,
                None => trim(uri@).len() == 0,
            },
    {
        let t = trimmed_chars(uri.as_str());
        if t.len() == 0 {
            None
        } else {
            Some(AttachmentRef { uri, display_name, mime_type })
        }
    }
}

/// A document note of a trip, as stored.
#[derive(Debug, Clone, PartialEq, Eq)]
pub struct TravelDocument {
    pub id: i64,
    pub trip_id: i64,
    pub name: String,
    pub description: String,
    pub attachment: Option<AttachmentRef>,
    pub created_at: i64,
    pub updated_at: i64,
}

/// A validated document to be created.
#[derive(Debug, Clone, PartialEq, Eq)]
pub struct NewTravelDocument {
    pub trip_id: i64,
    pub name: String,
    pub description: String,
    pub attachment: Option<AttachmentRef>,
}

impl NewTravelDocument {
    /// A new document with its name trimmed; a blank name is refused.
    pub fn new(
        trip_id: i64,
        name: &str,
        description: String,
        attachment: Option<AttachmentRef>,
    ) -> (r: Result<Self, ValidationError>)
        ensures
            match r {
                Ok(d) => trim(name@).len() > 0 && d.trip_id == trip_id && d.name@ == trim(name@)
                    && d.description == description && d.attachment == attachment,
                Err(e) => e == ValidationError::BlankDocumentName && trim(name@).len() == 0,
            },
    {
        let name = validate_name(name)?;
        Ok(NewTravelDocument { trip_id, name, description, attachment })
    }
}

/// A validated change to an existing document.
#[derive(Debug, Clone, PartialEq, Eq)]
pub struct UpdateTravelDocument {
    pub id: i64,
    pub name: String,
    pub description: String,
    pub attachment: Option<AttachmentRef>,
}

impl UpdateTravelDocument {
    /// The change with its name trimmed; a blank name is refused.
    pub fn new(
        id: i64,
        name: &str,
        description: String,
        attachment: Option<AttachmentRef>,
    ) -> (r: Result<Self, ValidationError>)
        ensures
            match r {
                Ok(d) => trim(name@).len() > 0 && d.id == id && d.name@ == trim(name@)
                    && d.description == description && d.attachment == attachment,
                Err(e) => e == ValidationError::BlankDocumentName && trim(name@).len() == 0,
            },
    {
        let name = validate_name(name)?;
        Ok(UpdateTravelDocument { id, name, description, attachment })
    }
}

/// The trimmed document name; a blank name is refused.
pub fn validate_name(name: &str) -> (r: Result<String, ValidationError>)
    ensures
        match r {
            Ok(v) => v@ == trim(name@) && v@.len() > 0,
            Err(e) => e == ValidationError::BlankDocumentName && trim(name@).len() == 0,
        },
{
    match nonblank_trimmed(name) {
        Some(v) => Ok(v),
        None => Err(ValidationError::BlankDocumentName),
    }
}

} // verus!
