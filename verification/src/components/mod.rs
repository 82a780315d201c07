//! The logic of the interface components: style classes, toast kinds,
//! link detection in notes and label truncation.
pub mod button;
pub mod checkbox;
pub mod confirm_delete;
pub mod document_pane;
pub mod document_sheet;
pub mod gear_menu;
pub mod linked_text;
pub mod toast;
