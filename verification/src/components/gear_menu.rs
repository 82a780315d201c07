//! The settings menu: where a backup is written, and the notices that
//! exporting, importing and switching safe mode end with.
use vstd::prelude::*;

use crate::components::toast::ToastType;
use crate::text::{chars_of, push_str, string_from_chars};

verus! {

/// The file name that an exported backup is offered under.
pub const BACKUP_FILE_NAME: &'static str = "china_travel_app_backup.json";

/// The MIME type of an exported backup.
pub const BACKUP_MIME_TYPE: &'static str = "application/json";

/// A notification to show: its kind, title and description.
#[derive(Debug, Clone, PartialEq, Eq)]
pub struct Notice {
    pub kind: ToastType,
    pub title: String,
    pub description: String,
}

/// Why an import did not replace the data.
#[derive(Debug, Clone, PartialEq, Eq)]
pub enum ImportFailure {
    /// The chosen file is not a backup; the parser's message.
    InvalidFile(String),
    /// Picking, reading or storing failed; the error's message.
    Failed(String),
}

fn text(s: &str) -> (r: String)
    ensures
        r@ == s@,
{
    let v = chars_of(s);
    string_from_chars(v.as_slice())
}

/// A notice of `kind` with the given title and description.
pub open spec fn notice_of(kind: ToastType, title: Seq<char>, description: Seq<char>) -> (
    ToastType,
    Seq<char>,
    Seq<char>,
) {
    (kind, title, description)
}

/// A notice as plain values.
pub open spec fn notice_view(n: Notice) -> (ToastType, Seq<char>, Seq<char>) {
    (n.kind, n.title@, n.description@)
}

/// The notice after safe mode was switched to `enabled`.
pub fn safe_mode_notice(enabled: bool) -> (r: Notice)
    ensures
        notice_view(r) == if enabled {
            notice_of(ToastType::Success, "Safe Mode enabled"@, "Delete actions hidden."@)
        } else {
            notice_of(ToastType::Info, "Safe Mode disabled"@, "Delete actions visible."@)
        },
{
    if enabled {
        Notice {
            kind: ToastType::Success,
            title: text("Safe Mode enabled"),
            description: text("Delete actions hidden."),
        }
    } else {
        Notice {
            kind: ToastType::Info,
            title: text("Safe Mode disabled"),
            description: text("Delete actions visible."),
        }
    }
}

/// The notice after safe mode could not be saved.
pub fn safe_mode_failed_notice(error: String) -> (r: Notice)
    ensures
        notice_view(r) == notice_of(ToastType::Error, "Safe Mode not saved"@, error@),
{
    Notice { kind: ToastType::Error, title: text("Safe Mode not saved"), description: error }
}

/// The notice after an export: `Ok(true)` when the file was written,
/// `Ok(false)` when the user cancelled (no notice), or the error's message.
pub fn export_notice(outcome: Result<bool, String>) -> (r: Option<Notice>)
    ensures
        match outcome {
            Ok(true) => r is Some && notice_view(r.unwrap()) == notice_of(
                ToastType::Success,
                "Backup exported"@,
                "china_travel_app_backup.json saved."@,
            ),
            Ok(false) => r is None,
            Err(message) => r is Some && notice_view(r.unwrap()) == notice_of(
                ToastType::Error,
                "Export failed"@,
                message@,
            ),
        },
{
    match outcome {
        Ok(true) => Some(
            Notice {
                kind: ToastType::Success,
                title: text("Backup exported"),
                description: text("china_travel_app_backup.json saved."),
            },
        ),
        Ok(false) => None,
        Err(message) => Some(
            Notice { kind: ToastType::Error, title: text("Export failed"), description: message },
        ),
    }
}

/// The notice after an import: `Ok(true)` when the backup replaced the
/// data, `Ok(false)` when the user cancelled the file picker (no notice),
/// or why it failed; an invalid file is reported as such.
pub fn import_notice(outcome: Result<bool, ImportFailure>) -> (r: Option<Notice>)
    ensures
        match outcome {
            Ok(true) => r is Some && notice_view(r.unwrap()) == notice_of(
                ToastType::Success,
                "Backup imported"@,
                "All data replaced with backup."@,
            ),
            Ok(false) => r is None,
            Err(ImportFailure::InvalidFile(message)) => r is Some && notice_view(r.unwrap())
                == notice_of(ToastType::Error, "Import failed"@, "Invalid file: "@ + message@),
            Err(ImportFailure::Failed(message)) => r is Some && notice_view(r.unwrap())
                == notice_of(ToastType::Error, "Import failed"@, message@),
        },
{
    match outcome {
        Ok(true) => Some(
            Notice {
                kind: ToastType::Success,
                title: text("Backup imported"),
                description: text("All data replaced with backup."),
            },
        ),
        Ok(false) => None,
        Err(ImportFailure::InvalidFile(message)) => {
            let mut out: Vec<char> = Vec::new();
            push_str(&mut out, "Invalid file: ");
            push_str(&mut out, message.as_str());
            Some(
                Notice {
                    kind: ToastType::Error,
                    title: text("Import failed"),
                    description: string_from_chars(out.as_slice()),
                },
            )
        },
        Err(ImportFailure::Failed(message)) => Some(
            Notice { kind: ToastType::Error, title: text("Import failed"), description: message },
        ),
    }
}

} // verus!
