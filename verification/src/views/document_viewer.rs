//! The document viewer: when it loads a document, the editing of its tags and
//! text, and the messages of its failures.

use vstd::prelude::*;
use vstd::string::*;
use vstd::view::View as _;
use crate::state::{AppState, ConfirmAction};
use crate::text::{owned, push_str, str_is_blank};

verus! {

/// The viewer's state (the document, its person and the image texture are kept
/// beside it).
pub struct DocumentViewerState {
    pub loaded_document_id: Option<i64>,
    pub needs_refresh: bool,
    pub editing_metadata: bool,
    pub edit_tags: String,
    pub text_modified: bool,
    pub error_message: Option<String>,
}

/// Why loading a document failed.
pub enum LoadFailure {
    /// No document has the id.
    NotFound,
    /// Reading the database failed.
    Database(String),
    /// The document's person is missing.
    PersonMissing,
    /// The configuration could not be read.
    Config(String),
    /// The file does not exist (its path, written for display).
    FileMissing(String),
    /// The text file could not be read.
    ReadText(String),
}

/// The message of a load failure.
pub open spec fn load_failure_text(f: LoadFailure) -> Seq<char> {
    match f {
        LoadFailure::NotFound => "Dokument hittades inte"@,
        LoadFailure::Database(e) => "Kunde inte ladda dokument: "@ + e@,
        LoadFailure::PersonMissing => "Person saknas"@,
        LoadFailure::Config(e) => "Kunde inte hämta config: "@ + e@,
        LoadFailure::FileMissing(p) => "Filen finns inte: "@ + p@,
        LoadFailure::ReadText(e) => "Kunde inte läsa textfil: "@ + e@,
    }
}

/// The text of optional tags, empty where there are none.
pub open spec fn tags_or_empty(t: Option<String>) -> Seq<char> {
    match t {
        Some(s) => s@,
        None => Seq::empty(),
    }
}

impl DocumentViewerState {
    /// Nothing loaded yet.
    pub fn new() -> (v: DocumentViewerState)
        ensures
            v.loaded_document_id is None,
            v.needs_refresh,
            !v.editing_metadata,
            v.edit_tags@ == Seq::<char>::empty(),
            !v.text_modified,
            v.error_message is None,
    {
        DocumentViewerState {
            loaded_document_id: None,
            needs_refresh: true,
            editing_metadata: false,
            edit_tags: String::new(),
            text_modified: false,
            error_message: None,
        }
    }

    /// Asks for the document to be loaded again.
    pub fn mark_needs_refresh(&mut self)
        ensures
            *final(self) == (DocumentViewerState { needs_refresh: true, ..*old(self) }),
    {
        self.needs_refresh = true;
    }

    /// Whether the selected document is to be loaded.
    pub fn needs_load(&self, selected: i64) -> (r: bool)
        ensures
            r == (self.loaded_document_id != Some(selected) || self.needs_refresh),
    {
        self.loaded_document_id != Some(selected) || self.needs_refresh
    }

    /// The document `id` was loaded, with its tags: the tags field shows them,
    /// the text is unchanged and no error is shown.
    pub fn loaded(&mut self, id: i64, tags: &Option<String>)
        ensures
            final(self).loaded_document_id == Some(id),
            !final(self).needs_refresh,
            final(self).edit_tags@ == tags_or_empty(*tags),
            !final(self).text_modified,
            final(self).error_message is None,
            final(self).editing_metadata == old(self).editing_metadata,
    {
        self.loaded_document_id = Some(id);
        self.edit_tags = match tags {
            Some(t) => t.clone(),
            None => String::new(),
        };
        self.text_modified = false;
        self.error_message = None;
        self.needs_refresh = false;
    }

    /// Loading the document `id` failed.
    pub fn load_failed(&mut self, id: i64, failure: LoadFailure)
        ensures
            final(self).loaded_document_id == Some(id),
            !final(self).needs_refresh,
            final(self).error_message matches Some(m) && m@ == load_failure_text(failure),
            final(self).edit_tags == old(self).edit_tags,
    {
        self.loaded_document_id = Some(id);
        let m = match &failure {
            LoadFailure::NotFound => owned("Dokument hittades inte"),
            LoadFailure::Database(e) => {
                let mut m = owned("Kunde inte ladda dokument: ");
                push_str(&mut m, e.as_str());
                m
            },
            LoadFailure::PersonMissing => owned("Person saknas"),
            LoadFailure::Config(e) => {
                let mut m = owned("Kunde inte hämta config: ");
                push_str(&mut m, e.as_str());
                m
            },
            LoadFailure::FileMissing(p) => {
                let mut m = owned("Filen finns inte: ");
                push_str(&mut m, p.as_str());
                m
            },
            LoadFailure::ReadText(e) => {
                let mut m = owned("Kunde inte läsa textfil: ");
                push_str(&mut m, e.as_str());
                m
            },
        };
        self.error_message = Some(m);
        self.needs_refresh = false;
    }

    /// The tags as shown while not editing.
    pub fn tags_display(tags: &Option<String>) -> (r: String)
        ensures
            tags matches Some(t) ==> r@ == t@,
            tags is None ==> r@ == "(inga taggar)"@,
    {
        match tags {
            Some(t) => t.clone(),
            None => owned("(inga taggar)"),
        }
    }

    /// The edit button of the tags.
    pub fn start_editing(&mut self)
        ensures
            final(self).editing_metadata,
            final(self).edit_tags == old(self).edit_tags,
    {
        self.editing_metadata = true;
    }

    /// The cancel button of the tags: the field shows the stored tags again.
    pub fn cancel_editing(&mut self, stored: &Option<String>)
        ensures
            !final(self).editing_metadata,
            final(self).edit_tags@ == tags_or_empty(*stored),
    {
        self.editing_metadata = false;
        self.edit_tags = match stored {
            Some(t) => t.clone(),
            None => String::new(),
        };
    }

    /// The tags to store: none for a blank field, else the field as typed.
    pub fn tags_to_save(&self) -> (r: Option<String>)
        ensures
            crate::text::is_blank(self.edit_tags@) ==> r is None,
            !crate::text::is_blank(self.edit_tags@) ==> (r matches Some(t) && t@
                == self.edit_tags@),
    {
        if str_is_blank(self.edit_tags.as_str()) {
            None
        } else {
            Some(self.edit_tags.clone())
        }
    }

    /// The outcome of storing the tags.
    pub fn tags_saved(&mut self, result: Result<(), String>)
        ensures
            result is Ok ==> !final(self).editing_metadata && final(self).error_message
                == old(self).error_message,
            result matches Err(e) ==> final(self).editing_metadata == old(self).editing_metadata
                && (final(self).error_message matches Some(m) && m@ == "Kunde inte spara: "@ + e@),
    {
        match result {
            Ok(()) => {
                self.editing_metadata = false;
            },
            Err(e) => {
                let mut m = owned("Kunde inte spara: ");
                push_str(&mut m, e.as_str());
                self.error_message = Some(m);
            },
        }
    }

    /// The text was edited: the save button shows.
    pub fn text_edited(&mut self)
        ensures
            final(self).text_modified,
            final(self).error_message == old(self).error_message,
    {
        self.text_modified = true;
    }

    /// The outcome of writing the text file.
    pub fn text_saved(&mut self, result: Result<(), String>)
        ensures
            result is Ok ==> !final(self).text_modified && final(self).error_message
                == old(self).error_message,
            result matches Err(e) ==> final(self).text_modified == old(self).text_modified && (
            final(self).error_message matches Some(m) && m@ == "Kunde inte spara: "@ + e@),
    {
        match result {
            Ok(()) => {
                self.text_modified = false;
            },
            Err(e) => {
                let mut m = owned("Kunde inte spara: ");
                push_str(&mut m, e.as_str());
                self.error_message = Some(m);
            },
        }
    }

    /// The delete button asks to confirm deleting the document.
    pub fn confirm_delete(state: &mut AppState, document_id: i64, filename: &str)
        ensures
            final(state).confirm_dialog_message@ == "Vill du verkligen radera "@ + filename@ + "?"@,
            final(state).confirm_dialog_action == Some(ConfirmAction::DeleteDocument(document_id)),
            final(state).show_confirm_dialog,
    {
        let mut m = owned("Vill du verkligen radera ");
        push_str(&mut m, filename);
        push_str(&mut m, "?");
        state.show_confirm(m.as_str(), ConfirmAction::DeleteDocument(document_id));
    }
}

} // verus!
