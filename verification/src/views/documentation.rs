//! The documents screen's decisions: what saving the sheet does, which
//! file read grant to give back after a save, and which pane is expanded.
use vstd::prelude::*;

use crate::components::document_sheet::DocumentSheetMode;
use crate::components::gear_menu::{notice_of, notice_view, Notice};
use crate::components::toast::ToastType;
use crate::text::{chars_of, string_from_chars};
use crate::domain::document::{AttachmentRef, NewTravelDocument, UpdateTravelDocument};
use crate::error::ValidationError;
use crate::text::trim;

verus! {

/// The URI whose read grant a saved document no longer needs: the previous
/// attachment's URI when the saved document points elsewhere or nowhere.
pub open spec fn spec_grant_to_release(previous: Option<AttachmentRef>, current: Option<AttachmentRef>) -> Option<Seq<char>> {
    match previous {
        None => None,
        Some(old) => match current {
            Some(new) => if new.uri@ == old.uri@ {
                None
            } else {
                Some(old.uri@)
            },
            None => Some(old.uri@),
        },
    }
}

/// The read grant to release once a document was saved with `current` in
/// place of `previous`.
pub fn grant_to_release(previous: Option<&AttachmentRef>, current: Option<&AttachmentRef>) -> (r:
    Option<String>)
    ensures
        match (r, spec_grant_to_release(
            match previous {
                Some(p) => Some(*p),
                None => None,
            },
            match current {
                Some(c) => Some(*c),
                None => None,
            },
        )) {
            (Some(uri), Some(expected)) => uri@ == expected,
            (None, None) => true,
            _ => false,
        },
{
    match previous {
        None => None,
        Some(old) => match current {
            Some(new) => if new.uri == old.uri {
                None
            } else {
                Some(old.uri.clone())
            },
            None => Some(old.uri.clone()),
        },
    }
}

/// Saving a document with the attachment it already had releases nothing.
pub proof fn lemma_unchanged_attachment_keeps_grant(attachment: AttachmentRef)
    ensures
        spec_grant_to_release(Some(attachment), Some(attachment)) is None,
{
}

/// What saving the document sheet does: create a document, or change the
/// one being edited.
#[derive(Debug, Clone, PartialEq, Eq)]
pub enum DocumentCommand {
    Create(NewTravelDocument),
    Update(UpdateTravelDocument),
}

/// The command for the sheet's fields in `mode`; a blank name is refused
/// and the name is saved trimmed.
pub fn document_command(
    mode: DocumentSheetMode,
    trip_id: i64,
    name: &str,
    description: String,
    attachment: Option<AttachmentRef>,
) -> (r: Result<DocumentCommand, ValidationError>)
    ensures
        match r {
            Ok(DocumentCommand::Create(d)) => mode == DocumentSheetMode::Add && trim(name@).len()
                > 0 && d.trip_id == trip_id && d.name@ == trim(name@) && d.description
                == description && d.attachment == attachment,
            Ok(DocumentCommand::Update(d)) => mode == DocumentSheetMode::Edit(d.id) && trim(
                name@,
            ).len() > 0 && d.name@ == trim(name@) && d.description == description && d.attachment
                == attachment,
            Err(e) => e == ValidationError::BlankDocumentName && trim(name@).len() == 0,
        },
{
    match mode {
        DocumentSheetMode::Add => match NewTravelDocument::new(trip_id, name, description, attachment) {
            Ok(d) => Ok(DocumentCommand::Create(d)),
            Err(e) => Err(e),
        },
        DocumentSheetMode::Edit(id) => match UpdateTravelDocument::new(
            id,
            name,
            description,
            attachment,
        ) {
            Ok(d) => Ok(DocumentCommand::Update(d)),
            Err(e) => Err(e),
        },
    }
}

/// The pane expanded after pressing the toggle of document `id`: it closes
/// when it was the expanded one, else it opens in place of any other.
pub fn toggle_expanded(expanded: Option<i64>, id: i64) -> (r: Option<i64>)
    ensures
        r == if expanded == Some(id) {
            None
        } else {
            Some(id)
        },
{
    match expanded {
        Some(current) => if current == id {
            None
        } else {
            Some(id)
        },
        None => Some(id),
    }
}

/// The warning shown when the read grant of a replaced attachment could not
/// be given back; `error` is the platform error's text.
pub fn grant_release_failed_notice(error: String) -> (r: Notice)
    ensures
        notice_view(r) == notice_of(
            ToastType::Warning,
            "Old file permission could not be released"@,
            error@,
        ),
{
    let title = chars_of("Old file permission could not be released");
    Notice { kind: ToastType::Warning, title: string_from_chars(title.as_slice()), description: error }
}

} // verus!
