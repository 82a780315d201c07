//! How an attachment is stored in the three attachment columns of a document.
use vstd::prelude::*;

use crate::domain::calendar::{str_option_view, string_option_view};
use crate::domain::document::AttachmentRef;

verus! {

/// The columns (URI, display name, MIME type) that an attachment is stored
/// in; all three are NULL without an attachment.
pub open spec fn attachment_columns(attachment: Option<AttachmentRef>) -> (
    Option<Seq<char>>,
    Option<Seq<char>>,
    Option<Seq<char>>,
) {
    match attachment {
        Some(a) => (Some(a.uri@), string_option_view(a.display_name), string_option_view(a.mime_type)),
        None => (None, None, None),
    }
}

/// The attachment that stored columns denote: one exactly when the URI
/// column is set.
pub open spec fn attachment_of_columns(
    uri: Option<Seq<char>>,
    display_name: Option<Seq<char>>,
    mime_type: Option<Seq<char>>,
) -> Option<(Seq<char>, Option<Seq<char>>, Option<Seq<char>>)> {
    match uri {
        Some(u) => Some((u, display_name, mime_type)),
        None => None,
    }
}

/// An attachment as plain values.
pub open spec fn attachment_view(attachment: Option<AttachmentRef>) -> Option<
    (Seq<char>, Option<Seq<char>>, Option<Seq<char>>),
> {
    match attachment {
        Some(a) => Some((a.uri@, string_option_view(a.display_name), string_option_view(a.mime_type))),
        None => None,
    }
}

/// The column values that store an attachment.
pub fn attachment_params(attachment: Option<&AttachmentRef>) -> (r: (
    Option<&str>,
    Option<&str>,
    Option<&str>,
))
    ensures
        (str_option_view(r.0), str_option_view(r.1), str_option_view(r.2)) == attachment_columns(
            match attachment {
                Some(a) => Some(*a),
                None => None,
            },
        ),
{
    match attachment {
        Some(item) => (
            Some(item.uri.as_str()),
            match &item.display_name {
                Some(name) => Some(name.as_str()),
                None => None,
            },
            match &item.mime_type {
                Some(mime) => Some(mime.as_str()),
                None => None,
            },
        ),
        None => (None, None, None),
    }
}

/// The attachment that a stored row holds: one exactly when the URI column
/// is set.
pub fn attachment_from_columns(
    uri: Option<String>,
    display_name: Option<String>,
    mime_type: Option<String>,
) -> (r: Option<AttachmentRef>)
    ensures
        match uri {
            Some(u) => r == Some(AttachmentRef { uri: u, display_name, mime_type }),
            None => r is None,
        },
{
    match uri {
        Some(uri) => Some(AttachmentRef { uri, display_name, mime_type }),
        None => None,
    }
}

/// An attachment read back from the columns it was stored in is the
/// attachment that was stored.
pub proof fn lemma_attachment_columns_round_trip(attachment: Option<AttachmentRef>)
    ensures
        ({
            let (u, d, m) = attachment_columns(attachment);
            attachment_of_columns(u, d, m) == attachment_view(attachment)
        }),
{
}

} // verus!
