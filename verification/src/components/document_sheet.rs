//! The sheet in which a document is added or edited.
use vstd::prelude::*;

verus! {

/// Whether the document sheet adds a document or edits the one with the
/// given id.
#[derive(Debug, Clone, Copy, PartialEq, Eq, Structural)]
pub enum DocumentSheetMode {
    Add,
    Edit(i64),
}

impl DocumentSheetMode {
    /// The sheet's heading.
    pub fn title(self) -> (r: &'static str)
        ensures
            r@ == match self {
                DocumentSheetMode::Add => "Add document"@,
                DocumentSheetMode::Edit(_) => "Edit document"@,
            },
    {
        match self {
            DocumentSheetMode::Add => "Add document",
            DocumentSheetMode::Edit(_) => "Edit document",
        }
    }
}

} // verus!
