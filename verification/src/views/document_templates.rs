//! The view of the document types: the form that creates or edits one, its
//! checks, and the messages of storing and removing.

use vstd::prelude::*;
use vstd::string::*;
use vstd::view::View as _;
use crate::models::DocumentType;
use crate::text::{non_empty, non_empty_text, owned, push_str, str_is_blank, trim};
use crate::theme::Icons;

verus! {

/// The document types view.
pub struct DocumentTemplatesView {
    pub document_types: Vec<DocumentType>,
    pub needs_refresh: bool,
    /// The type being edited; `None` while a new type is entered.
    pub editing_type_id: Option<i64>,
    pub form_name: String,
    pub form_target_directory: String,
    pub form_default_filename: String,
    pub form_description: String,
    pub show_form: bool,
    pub error_message: Option<String>,
}

/// The text of an optional field of a stored type, empty where absent.
pub open spec fn or_empty(s: Option<String>) -> Seq<char> {
    match s {
        Some(t) => t@,
        None => Seq::empty(),
    }
}

/// The optional characters of an optional string.
pub open spec fn opt_chars(s: Option<String>) -> Option<Seq<char>> {
    match s {
        Some(t) => Some(t@),
        None => None,
    }
}

/// The form's fields are all empty.
pub open spec fn form_is_empty(v: DocumentTemplatesView) -> bool {
    &&& v.form_name@ == Seq::<char>::empty()
    &&& v.form_target_directory@ == Seq::<char>::empty()
    &&& v.form_default_filename@ == Seq::<char>::empty()
    &&& v.form_description@ == Seq::<char>::empty()
}

fn string_or_empty(s: &Option<String>) -> (r: String)
    ensures
        r@ == or_empty(*s),
{
    match s {
        Some(t) => t.clone(),
        None => String::new(),
    }
}

impl DocumentTemplatesView {
    /// A closed form and a list that loads on the first display.
    pub fn new() -> (v: DocumentTemplatesView)
        ensures
            v.document_types@.len() == 0,
            v.needs_refresh,
            v.editing_type_id is None,
            form_is_empty(v),
            !v.show_form,
            v.error_message is None,
    {
        DocumentTemplatesView {
            document_types: Vec::new(),
            needs_refresh: true,
            editing_type_id: None,
            form_name: String::new(),
            form_target_directory: String::new(),
            form_default_filename: String::new(),
            form_description: String::new(),
            show_form: false,
            error_message: None,
        }
    }

    /// Asks for the list to be loaded again.
    pub fn mark_needs_refresh(&mut self)
        ensures
            *final(self) == (DocumentTemplatesView { needs_refresh: true, ..*old(self) }),
    {
        self.needs_refresh = true;
    }

    /// Takes the types listed; the list is up to date.
    pub fn types_loaded(&mut self, types: Vec<DocumentType>)
        ensures
            final(self).document_types == types,
            !final(self).needs_refresh,
            final(self).show_form == old(self).show_form,
    {
        self.document_types = types;
        self.needs_refresh = false;
    }

    /// Opens an empty form for a new type.
    pub fn open_new_form(&mut self)
        ensures
            final(self).editing_type_id is None,
            form_is_empty(*final(self)),
            final(self).error_message is None,
            final(self).show_form,
            final(self).document_types == old(self).document_types,
    {
        self.editing_type_id = None;
        self.form_name = String::new();
        self.form_target_directory = String::new();
        self.form_default_filename = String::new();
        self.form_description = String::new();
        self.error_message = None;
        self.show_form = true;
    }

    /// Opens the form on a stored type, its absent fields empty.
    pub fn open_edit_form(&mut self, type_id: i64, dt: &DocumentType)
        ensures
            final(self).editing_type_id == Some(type_id),
            final(self).form_name@ == dt.name@,
            final(self).form_target_directory@ == dt.target_directory@,
            final(self).form_default_filename@ == or_empty(dt.default_filename),
            final(self).form_description@ == or_empty(dt.description),
            final(self).error_message is None,
            final(self).show_form,
            final(self).document_types == old(self).document_types,
    {
        self.editing_type_id = Some(type_id);
        self.form_name = dt.name.clone();
        self.form_target_directory = dt.target_directory.clone();
        self.form_default_filename = string_or_empty(&dt.default_filename);
        self.form_description = string_or_empty(&dt.description);
        self.error_message = None;
        self.show_form = true;
    }

    /// Closes the form.
    pub fn close_form(&mut self)
        ensures
            !final(self).show_form,
            final(self).editing_type_id is None,
            final(self).error_message is None,
            final(self).document_types == old(self).document_types,
    {
        self.show_form = false;
        self.editing_type_id = None;
        self.error_message = None;
    }

    /// Whether the form enters a new type.
    pub fn is_new(&self) -> (r: bool)
        ensures
            r == self.editing_type_id is None,
    {
        self.editing_type_id.is_none()
    }

    /// The heading of the form.
    pub fn form_title(&self) -> (r: &'static str)
        ensures
            self.editing_type_id is None ==> r@ == "Ny dokumenttyp"@,
            self.editing_type_id is Some ==> r@ == "Redigera dokumenttyp"@,
    {
        if self.is_new() {
            "Ny dokumenttyp"
        } else {
            "Redigera dokumenttyp"
        }
    }

    /// The label of the form's save button.
    pub fn save_button_text(&self) -> (r: String)
        ensures
            self.editing_type_id is None ==> r@ == Icons::ADD@ + " Skapa"@,
            self.editing_type_id is Some ==> r@ == Icons::SAVE@ + " Spara"@,
    {
        if self.is_new() {
            let mut t = owned(Icons::ADD);
            push_str(&mut t, " Skapa");
            t
        } else {
            let mut t = owned(Icons::SAVE);
            push_str(&mut t, " Spara");
            t
        }
    }

    /// The checks of the save button.  A blank name, then a blank target
    /// directory, leaves its message in the form and gives `None`.  Otherwise
    /// the type to store: the fields trimmed, blank optional fields absent, the
    /// id of the type being edited.
    pub fn document_type_to_save(&mut self) -> (r: Option<DocumentType>)
        ensures
            crate::text::is_blank(old(self).form_name@) ==> r is None && (
            final(self).error_message matches Some(m) && m@ == "Namn krävs"@),
            !crate::text::is_blank(old(self).form_name@) && crate::text::is_blank(
                old(self).form_target_directory@,
            ) ==> r is None && (final(self).error_message matches Some(m) && m@
                == "Målkatalog krävs"@),
            !crate::text::is_blank(old(self).form_name@) && !crate::text::is_blank(
                old(self).form_target_directory@,
            ) ==> (r matches Some(dt) && dt.id == old(self).editing_type_id && dt.name@
                == crate::text::trimmed(old(self).form_name@) && dt.target_directory@
                == crate::text::trimmed(old(self).form_target_directory@) && opt_chars(
                dt.default_filename,
            ) == non_empty_text(old(self).form_default_filename@) && opt_chars(dt.description)
                == non_empty_text(old(self).form_description@)) && final(self).error_message
                == old(self).error_message,
            final(self).show_form == old(self).show_form,
            final(self).editing_type_id == old(self).editing_type_id,
            final(self).form_name == old(self).form_name,
            final(self).document_types == old(self).document_types,
    {
        if str_is_blank(self.form_name.as_str()) {
            self.error_message = Some(owned("Namn krävs"));
            return None;
        }
        if str_is_blank(self.form_target_directory.as_str()) {
            self.error_message = Some(owned("Målkatalog krävs"));
            return None;
        }
        let default_filename = non_empty(self.form_default_filename.as_str());
        let description = non_empty(self.form_description.as_str());
        Some(
            DocumentType {
                id: self.editing_type_id,
                name: owned(trim(self.form_name.as_str())),
                target_directory: owned(trim(self.form_target_directory.as_str())),
                default_filename,
                description,
            },
        )
    }

    /// The outcome of storing the type: the form closes and the list reloads,
    /// or the error is shown in the form.
    pub fn save_finished(&mut self, result: Result<(), String>)
        ensures
            match result {
                Ok(()) => !final(self).show_form && final(self).editing_type_id is None
                    && final(self).error_message is None && final(self).needs_refresh,
                Err(e) => (final(self).error_message matches Some(m) && m@ == "Kunde inte spara: "@
                    + e@) && final(self).show_form == old(self).show_form
                    && final(self).editing_type_id == old(self).editing_type_id,
            },
    {
        match result {
            Ok(()) => {
                self.close_form();
                self.needs_refresh = true;
            },
            Err(e) => {
                let mut m = owned("Kunde inte spara: ");
                push_str(&mut m, e.as_str());
                self.error_message = Some(m);
            },
        }
    }

    /// The outcome of removing a type: the list reloads, or the error is shown.
    pub fn delete_finished(&mut self, result: Result<(), String>)
        ensures
            match result {
                Ok(()) => final(self).needs_refresh && final(self).error_message
                    == old(self).error_message,
                Err(e) => (final(self).error_message matches Some(m) && m@
                    == "Kunde inte ta bort: "@ + e@) && final(self).needs_refresh
                    == old(self).needs_refresh,
            },
            final(self).show_form == old(self).show_form,
    {
        match result {
            Ok(()) => {
                self.needs_refresh = true;
            },
            Err(e) => {
                let mut m = owned("Kunde inte ta bort: ");
                push_str(&mut m, e.as_str());
                self.error_message = Some(m);
            },
        }
    }
}

} // verus!
