//! Data-binding building blocks for a retained-mode GUI: a collection
//! projection with copy-on-write write-back and per-row selection, a
//! scoped edit buffer with explicit save/commit semantics, and validated
//! parsing for numeric text fields.
//!
//! The widget trees, windows and the event loop themselves live outside
//! this crate; these modules hold the state types and the pure update
//! rules that the widgets drive.

pub mod list_selection;
pub mod numeric_field;
pub mod scoped_edit;
