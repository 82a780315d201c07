//! Error kinds that the verified library reports, and the texts they read as.
use vstd::prelude::*;

use crate::text::{push_signed_decimal, push_str, signed_decimal, string_from_chars};

verus! {

#[verifier::external_type_specification]
#[verifier::external_body]
pub struct ExSqliteError(tokio_rusqlite::rusqlite::Error);

#[verifier::external_type_specification]
#[verifier::external_body]
#[verifier::reject_recursive_types(E)]
pub struct ExConnectionError<E>(tokio_rusqlite::Error<E>);

/// Why user input was refused.
#[derive(Debug, Clone, Copy, PartialEq, Eq, Structural)]
pub enum ValidationError {
    BlankTripName,
    BlankChecklistText,
    BlankDocumentName,
    BlankCalendarEventName,
    InvalidCalendarDate,
    CalendarEndBeforeStart,
    UnsupportedUrlScheme,
}

/// The text of a validation error.
pub open spec fn validation_text(e: ValidationError) -> Seq<char> {
    match e {
        ValidationError::BlankTripName => "trip name cannot be blank"@,
        ValidationError::BlankChecklistText => "checklist item cannot be blank"@,
        ValidationError::BlankDocumentName => "document name cannot be blank"@,
        ValidationError::BlankCalendarEventName => "event name cannot be blank"@,
        ValidationError::InvalidCalendarDate => "date must use the YYYY-MM-DD format"@,
        ValidationError::CalendarEndBeforeStart => "end date cannot be earlier than start date"@,
        ValidationError::UnsupportedUrlScheme => "only HTTP and HTTPS links can be opened"@,
    }
}

impl ValidationError {
    /// The text that the error reads as.
    pub fn message(self) -> (r: &'static str)
        ensures
            r@ == validation_text(self),
    {
        match self {
            ValidationError::BlankTripName => "trip name cannot be blank",
            ValidationError::BlankChecklistText => "checklist item cannot be blank",
            ValidationError::BlankDocumentName => "document name cannot be blank",
            ValidationError::BlankCalendarEventName => "event name cannot be blank",
            ValidationError::InvalidCalendarDate => "date must use the YYYY-MM-DD format",
            ValidationError::CalendarEndBeforeStart => "end date cannot be earlier than start date",
            ValidationError::UnsupportedUrlScheme => "only HTTP and HTTPS links can be opened",
        }
    }
}

/// Failures of the device platform (document picker, viewers, browser).
#[derive(Debug, Clone, PartialEq, Eq)]
pub enum PlatformError {
    Unsupported,
    PersistablePermissionDenied,
    AttachmentUnavailable,
    NoActivityHandler,
    UnsupportedUrlScheme,
    Protocol(String),
    Native(String),
}

/// The text of a platform error.
pub open spec fn platform_text(e: PlatformError) -> Seq<char> {
    match e {
        PlatformError::Unsupported => "this capability is unsupported on the current platform"@,
        PlatformError::PersistablePermissionDenied =>
            "the selected provider did not grant persistent read access"@,
        PlatformError::AttachmentUnavailable =>
            "access to the attached file is no longer available"@,
        PlatformError::NoActivityHandler => "no installed app can open this content"@,
        PlatformError::UnsupportedUrlScheme => "only HTTP and HTTPS links can be opened"@,
        PlatformError::Protocol(m) => "native bridge protocol error: "@ + m@,
        PlatformError::Native(m) => "native operation failed: "@ + m@,
    }
}

impl PlatformError {
    /// The text that the error reads as.
    pub fn message(&self) -> (r: String)
        ensures
            r@ == platform_text(*self),
    {
        let mut out: Vec<char> = Vec::new();
        match self {
            PlatformError::Unsupported => push_str(
                &mut out,
                "this capability is unsupported on the current platform",
            ),
            PlatformError::PersistablePermissionDenied => push_str(
                &mut out,
                "the selected provider did not grant persistent read access",
            ),
            PlatformError::AttachmentUnavailable => push_str(
                &mut out,
                "access to the attached file is no longer available",
            ),
            PlatformError::NoActivityHandler => push_str(
                &mut out,
                "no installed app can open this content",
            ),
            PlatformError::UnsupportedUrlScheme => push_str(
                &mut out,
                "only HTTP and HTTPS links can be opened",
            ),
            PlatformError::Protocol(m) => {
                push_str(&mut out, "native bridge protocol error: ");
                push_str(&mut out, m.as_str());
            },
            PlatformError::Native(m) => {
                push_str(&mut out, "native operation failed: ");
                push_str(&mut out, m.as_str());
            },
        }
        string_from_chars(out.as_slice())
    }

    /// A field-by-field copy of the error.
    pub fn duplicate(&self) -> (r: PlatformError)
        ensures
            r == *self,
    {
        match self {
            PlatformError::Unsupported => PlatformError::Unsupported,
            PlatformError::PersistablePermissionDenied => PlatformError::PersistablePermissionDenied,
            PlatformError::AttachmentUnavailable => PlatformError::AttachmentUnavailable,
            PlatformError::NoActivityHandler => PlatformError::NoActivityHandler,
            PlatformError::UnsupportedUrlScheme => PlatformError::UnsupportedUrlScheme,
            PlatformError::Protocol(message) => PlatformError::Protocol(message.clone()),
            PlatformError::Native(message) => PlatformError::Native(message.clone()),
        }
    }
}

/// Failures of the storage layer.
#[derive(Debug)]
pub enum DbError {
    WorkerClosed,
    NotFound { entity: &'static str, id: i64 },
    InvalidInput(ValidationError),
    Migration(String),
    Open(tokio_rusqlite::rusqlite::Error),
    Operation(tokio_rusqlite::Error),
}

/// The refusals of `DbError` as plain values; the SQLite errors without
/// their details.
pub enum DbErrorKind {
    WorkerClosed,
    NotFound { entity: Seq<char>, id: i64 },
    InvalidInput(ValidationError),
    Migration(Seq<char>),
    Open,
    Operation,
}

impl DbError {
    /// The error without its outside details.
    pub open spec fn kind(&self) -> DbErrorKind {
        match self {
            DbError::WorkerClosed => DbErrorKind::WorkerClosed,
            DbError::NotFound { entity, id } => DbErrorKind::NotFound { entity: entity@, id: *id },
            DbError::InvalidInput(e) => DbErrorKind::InvalidInput(*e),
            DbError::Migration(m) => DbErrorKind::Migration(m@),
            DbError::Open(_) => DbErrorKind::Open,
            DbError::Operation(_) => DbErrorKind::Operation,
        }
    }

    /// The text that the error reads as; the SQLite errors add the text of
    /// the SQLite error after their prefix.
    pub fn message(&self) -> (r: String)
        ensures
            match self.kind() {
                DbErrorKind::WorkerClosed => r@ == "database worker closed"@,
                DbErrorKind::NotFound { entity, id } => r@ == entity + " "@ + signed_decimal(id as int)
                    + " was not found"@,
                DbErrorKind::InvalidInput(e) => r@ == validation_text(e),
                DbErrorKind::Migration(m) => r@ == "database migration failed: "@ + m,
                DbErrorKind::Open => "database could not be opened: "@.is_prefix_of(r@),
                DbErrorKind::Operation => "SQLite operation failed: "@.is_prefix_of(r@),
            },
    {
        let mut out: Vec<char> = Vec::new();
        match self {
            DbError::WorkerClosed => push_str(&mut out, "database worker closed"),
            DbError::NotFound { entity, id } => {
                push_str(&mut out, entity);
                push_str(&mut out, " ");
                push_signed_decimal(&mut out, *id);
                push_str(&mut out, " was not found");
            },
            DbError::InvalidInput(e) => push_str(&mut out, e.message()),
            DbError::Migration(m) => {
                push_str(&mut out, "database migration failed: ");
                push_str(&mut out, m.as_str());
            },
            DbError::Open(e) => {
                push_str(&mut out, "database could not be opened: ");
                let ghost prefix = out@;
                push_str(&mut out, sqlite_error_text(e).as_str());
                assert(prefix.is_prefix_of(out@)) by {
                    assert(out@.subrange(0, prefix.len() as int) =~= prefix);
                }
            },
            DbError::Operation(e) => {
                push_str(&mut out, "SQLite operation failed: ");
                let ghost prefix = out@;
                push_str(&mut out, connection_error_text(e).as_str());
                assert(prefix.is_prefix_of(out@)) by {
                    assert(out@.subrange(0, prefix.len() as int) =~= prefix);
                }
            },
        }
        string_from_chars(out.as_slice())
    }
}

/// The `Display` text of a SQLite error.
#[verifier::external_body]
fn sqlite_error_text(e: &tokio_rusqlite::rusqlite::Error) -> String {
    format!("{e}")
}

/// The `Display` text of an error of the background connection.
#[verifier::external_body]
fn connection_error_text(e: &tokio_rusqlite::Error) -> String {
    format!("{e}")
}

} // verus!
