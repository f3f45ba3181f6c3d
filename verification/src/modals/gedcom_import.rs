//! The dialog that imports a GEDCOM file in steps: choose a file, look at a
//! preview, import, and see the result.

use vstd::prelude::*;
use vstd::string::*;
use vstd::view::View as _;
use crate::state::{AppState, StatusType};
use crate::text::{owned, push_str};

verus! {

/// The step the import dialog is at.
#[derive(Debug, Clone, Copy, PartialEq, Eq, Structural)]
pub enum ImportStep {
    SelectFile,
    Preview,
    Importing,
    Done,
}

/// A person as the preview lists it.
pub struct PreviewPerson {
    pub name: String,
    pub birth_year: Option<String>,
    pub death_year: Option<String>,
}

/// What an import of the chosen file would do.
pub struct ImportPreview {
    pub total_individuals: usize,
    pub total_families: usize,
    pub new_persons: usize,
    pub existing_persons: usize,
    pub estimated_relations: usize,
    pub sample_persons: Vec<PreviewPerson>,
}

/// What an import did.
pub struct ImportResult {
    pub persons_imported: usize,
    pub relations_imported: usize,
    pub skipped: usize,
    pub warnings: Vec<String>,
}

/// The state of the GEDCOM import dialog.  The parsed file itself is kept by
/// the caller, beside the dialog.
pub struct GedcomImportModal {
    pub step: ImportStep,
    pub selected_file: Option<String>,
    pub preview: Option<ImportPreview>,
    pub result: Option<ImportResult>,
    pub error: Option<String>,
}

/// The state in which the dialog opens.
pub open spec fn is_start(m: GedcomImportModal) -> bool {
    &&& m.step == ImportStep::SelectFile
    &&& m.selected_file is None
    &&& m.preview is None
    &&& m.result is None
    &&& m.error is None
}

/// The message when the chosen file cannot be read.
pub open spec fn read_error_text(e: Seq<char>) -> Seq<char> {
    "Kunde inte läsa filen: "@ + e
}

/// The message when the import fails.
pub open spec fn import_error_text(e: Seq<char>) -> Seq<char> {
    "Import misslyckades: "@ + e
}

fn prefixed(prefix: &str, e: &str) -> (r: String)
    ensures
        r@ == prefix@ + e@,
{
    let mut m = owned(prefix);
    push_str(&mut m, e);
    m
}

impl GedcomImportModal {
    /// A dialog at its first step.
    pub fn new() -> (m: GedcomImportModal)
        ensures
            is_start(m),
    {
        GedcomImportModal {
            step: ImportStep::SelectFile,
            selected_file: None,
            preview: None,
            result: None,
            error: None,
        }
    }

    /// Back to the first step, with nothing chosen.
    pub fn reset(&mut self)
        ensures
            is_start(*final(self)),
    {
        self.step = ImportStep::SelectFile;
        self.selected_file = None;
        self.preview = None;
        self.result = None;
        self.error = None;
    }

    /// The user chose `path`; `parsed` is the preview of the parsed file or the
    /// reason it could not be read.  A preview moves the dialog to the preview
    /// step; an error stays at the current step and is shown.
    pub fn file_chosen(&mut self, path: &str, parsed: Result<ImportPreview, String>)
        ensures
            final(self).selected_file matches Some(p) && p@ == path@,
            final(self).result == old(self).result,
            match parsed {
                Ok(p) => final(self).step == ImportStep::Preview && final(self).preview == Some(p)
                    && final(self).error is None,
                Err(e) => {
                    &&& final(self).step == old(self).step
                    &&& final(self).preview == old(self).preview
                    &&& final(self).error matches Some(m) && m@ == read_error_text(e@)
                },
            },
    {
        self.selected_file = Some(owned(path));
        self.error = None;
        match parsed {
            Ok(p) => {
                self.preview = Some(p);
                self.step = ImportStep::Preview;
            },
            Err(e) => {
                self.error = Some(prefixed("Kunde inte läsa filen: ", e.as_str()));
            },
        }
    }

    /// Back from the preview to choosing a file.
    pub fn back(&mut self)
        ensures
            final(self).step == ImportStep::SelectFile,
            final(self).error is None,
            final(self).selected_file == old(self).selected_file,
            final(self).preview == old(self).preview,
            final(self).result == old(self).result,
    {
        self.step = ImportStep::SelectFile;
        self.error = None;
    }

    /// Whether the preview offers at least one new person to import.
    pub fn can_import(&self) -> (r: bool)
        ensures
            r == (self.preview matches Some(p) && p.new_persons > 0),
    {
        match &self.preview {
            Some(p) => p.new_persons > 0,
            None => false,
        }
    }

    /// The import begins.
    pub fn start_import(&mut self)
        ensures
            final(self).step == ImportStep::Importing,
            final(self).selected_file == old(self).selected_file,
            final(self).preview == old(self).preview,
            final(self).result == old(self).result,
            final(self).error == old(self).error,
    {
        self.step = ImportStep::Importing;
    }

    /// The import ended: a result moves to the last step; an error goes back to
    /// the preview and is shown.
    pub fn import_finished(&mut self, outcome: Result<ImportResult, String>)
        ensures
            final(self).selected_file == old(self).selected_file,
            final(self).preview == old(self).preview,
            match outcome {
                Ok(r) => final(self).step == ImportStep::Done && final(self).result == Some(r)
                    && final(self).error == old(self).error,
                Err(e) => {
                    &&& final(self).step == ImportStep::Preview
                    &&& final(self).result == old(self).result
                    &&& final(self).error matches Some(m) && m@ == import_error_text(e@)
                },
            },
    {
        match outcome {
            Ok(r) => {
                self.result = Some(r);
                self.step = ImportStep::Done;
            },
            Err(e) => {
                self.error = Some(prefixed("Import misslyckades: ", e.as_str()));
                self.step = ImportStep::Preview;
            },
        }
    }

    /// The user closes the finished import: a success message is shown and the
    /// dialog starts over.  Returns that the dialog is to close.
    pub fn close_done(&mut self, state: &mut AppState) -> (r: bool)
        ensures
            r,
            is_start(*final(self)),
            final(state).status_message matches Some(m) && m.text@ == "GEDCOM-import slutförd!"@
                && m.status_type == StatusType::Success,
            *final(state) == (AppState { status_message: final(state).status_message, ..*old(state) }),
    {
        state.show_success("GEDCOM-import slutförd!");
        self.reset();
        true
    }
}

} // verus!
