//! The state and decisions of the application's modal dialogs.

pub mod archive_modal;
pub mod confirm_dialog;
pub mod document_upload;
pub mod gedcom_import;
pub mod person_form;
pub mod relationship_form;
pub mod resource_form;
