//! Genlib: the document-management core of a genealogy desktop application.
//!
//! The crate holds the decision logic of the application (validation of forms,
//! state transitions of views and modals, classification of files, dates and
//! file names) as verified functions over plain values.

pub mod text;
pub mod path;
pub mod date;
pub mod file_ops;
pub mod models;
pub mod ordering;
pub mod lists;
pub mod shortcuts;
pub mod exif;
pub mod error;
pub mod state;
pub mod modals;
pub mod widgets;
pub mod theme;
pub mod views;

