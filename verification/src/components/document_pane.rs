//! Labels of the document panes: the attached file's name, and the
//! shortening of long labels on document and calendar panes.
use vstd::prelude::*;

use crate::domain::document::AttachmentRef;
use crate::text::{chars_of, string_from_chars};

verus! {

/// The first `max_chars` characters followed by `…` when the text is
/// longer, else the whole text.
pub open spec fn truncated(s: Seq<char>, max_chars: nat) -> Seq<char> {
    if s.len() > max_chars {
        s.take(max_chars as int).push('\u{2026}')
    } else {
        s
    }
}

/// Shortens a text to `max_chars` characters (not bytes), marking the cut
/// with `…`.
pub fn truncate(value: &str, max_chars: usize) -> (r: String)
    ensures
        r@ == truncated(value@, max_chars as nat),
{
    let chars = chars_of(value);
    if chars.len() <= max_chars {
        return string_from_chars(chars.as_slice());
    }
    let mut out: Vec<char> = Vec::new();
    let mut i: usize = 0;
    while i < max_chars
        invariant
            i <= max_chars < chars@.len(),
            out@ == chars@.take(i as int),
        decreases max_chars - i,
    {
        out.push(chars[i]);
        i = i + 1;
        assert(out@ =~= chars@.take(i as int));
    }
    out.push('\u{2026}');
    string_from_chars(out.as_slice())
}

/// The label of a document's attachment: its display name, or "Attached
/// file" when it has none.
pub open spec fn spec_attachment_label(attachment: Option<AttachmentRef>) -> Seq<char> {
    match attachment {
        Some(a) => match a.display_name {
            Some(name) => name@,
            None => "Attached file"@,
        },
        None => "Attached file"@,
    }
}

/// The label shown for a document's attachment.
pub fn attachment_label(attachment: Option<&AttachmentRef>) -> (r: String)
    ensures
        r@ == spec_attachment_label(
            match attachment {
                Some(a) => Some(*a),
                None => None,
            },
        ),
{
    match attachment {
        Some(a) => match &a.display_name {
            Some(name) => name.clone(),
            None => {
                let v = chars_of("Attached file");
                string_from_chars(v.as_slice())
            },
        },
        None => {
            let v = chars_of("Attached file");
            string_from_chars(v.as_slice())
        },
    }
}

} // verus!
