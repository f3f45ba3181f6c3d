//! The application state shared by all views: which view is shown, what is
//! selected, which dialogs are open, and the status message.

use vstd::prelude::*;
use vstd::string::*;
use vstd::view::View as _;
use std::collections::HashSet;
use crate::date;
use crate::date::format_date;
use crate::models::{Person, RelationshipType};
use crate::text::owned;

verus! {

#[verifier::external_type_specification]
#[verifier::external_body]
pub struct ExInstant(std::time::Instant);

/// Calls `Instant::now`.  It reads the clock, so nothing is claimed of it.
#[verifier::external_body]
fn instant_now() -> (r: std::time::Instant) {
    std::time::Instant::now()
}

/// Calls `Instant::elapsed` and takes the whole seconds.  It reads the clock,
/// so nothing is claimed of it.
#[verifier::external_body]
fn elapsed_whole_seconds(t: &std::time::Instant) -> (r: u64) {
    t.elapsed().as_secs()
}

/// The view that the main window shows.
#[derive(Debug, Clone, Copy, PartialEq, Eq, Structural)]
pub enum View {
    Dashboard,
    PersonList,
    PersonDetail,
    DocumentViewer,
    FamilyTree,
    Settings,
    Backup,
    SetupWizard,
    ChecklistTemplates,
    Reports,
    DocumentTemplates,
}

impl Default for View {
    fn default() -> (v: View)
        ensures
            v == View::Dashboard,
    {
        View::Dashboard
    }
}

/// An action that waits for the user's confirmation.
#[derive(Debug, Clone, Copy, PartialEq, Eq, Structural)]
pub enum ConfirmAction {
    DeletePerson(i64),
    DeleteRelationship(i64),
    DeleteDocument(i64),
}

/// The kind of a status message.
#[derive(Debug, Clone, Copy, PartialEq, Eq, Structural)]
pub enum StatusType {
    Success,
    Error,
    Info,
    Warning,
}

/// Whether the document dialog imports files or creates a text document.
#[derive(Debug, Clone, Copy, PartialEq, Eq, Structural)]
pub enum DocumentUploadMode {
    Import,
    Create,
}

impl Default for DocumentUploadMode {
    fn default() -> (m: DocumentUploadMode)
        ensures
            m == DocumentUploadMode::Import,
    {
        DocumentUploadMode::Import
    }
}

/// A message in the status bar, with the moment it was shown.
pub struct StatusMessage {
    pub text: String,
    pub status_type: StatusType,
    pub created_at: std::time::Instant,
}

/// The number of whole seconds after which a status message is removed.
pub const STATUS_LIFETIME_SECS: u64 = 5;

/// A status message shown `elapsed_secs` whole seconds ago is to be removed.
pub open spec fn status_expired_spec(elapsed_secs: u64) -> bool {
    elapsed_secs > STATUS_LIFETIME_SECS
}

/// Whether a status message shown `elapsed_secs` whole seconds ago is to be
/// removed.
pub fn status_expired(elapsed_secs: u64) -> (r: bool)
    ensures
        r == (elapsed_secs > STATUS_LIFETIME_SECS),
{
    elapsed_secs > STATUS_LIFETIME_SECS
}

/// The state of the application that all views share.
pub struct AppState {
    pub current_view: View,
    pub selected_person_id: Option<i64>,
    pub selected_document_id: Option<i64>,
    pub bookmarked_persons: HashSet<i64>,
    pub show_person_form: bool,
    /// The person being edited; `None` for a new person.
    pub editing_person_id: Option<i64>,
    pub show_relationship_form: bool,
    pub show_document_upload: bool,
    pub document_upload_mode: DocumentUploadMode,
    pub show_gedcom_import: bool,
    pub show_confirm_dialog: bool,
    pub confirm_dialog_message: String,
    pub confirm_dialog_action: Option<ConfirmAction>,
    pub status_message: Option<StatusMessage>,
    pub search_query: String,
    pub dark_mode: bool,
}


/// `after` is `before` with a status message of the given text and type,
/// created at `at`, and nothing else changed.
pub open spec fn status_shown(
    before: AppState,
    after: AppState,
    text: Seq<char>,
    kind: StatusType,
    at: std::time::Instant,
) -> bool {
    &&& after.status_message is Some
    &&& after.status_message->0.text@ == text
    &&& after.status_message->0.status_type == kind
    &&& after.status_message->0.created_at == at
    &&& after == (AppState { status_message: after.status_message, ..before })
}

/// Showing a status message at a given instant decides the whole new state:
/// two states that show the same text and type created at the same instant,
/// from the same state, differ in nothing but the storage of the text.  So an
/// error shown by `show_error_at` is the state that `show_status_at` gives
/// with the error type.
pub proof fn law_status_shown_determined(
    before: AppState,
    a1: AppState,
    a2: AppState,
    text: Seq<char>,
    kind: StatusType,
    at: std::time::Instant,
)
    requires
        status_shown(before, a1, text, kind, at),
        status_shown(before, a2, text, kind, at),
    ensures
        a1 == (AppState { status_message: a1.status_message, ..a2 }),
        a1.status_message->0.text@ == a2.status_message->0.text@,
        a1.status_message->0.status_type == a2.status_message->0.status_type,
        a1.status_message->0.created_at == a2.status_message->0.created_at,
{
}

/// The state in which the application starts.
pub open spec fn is_initial_state(s: AppState) -> bool {
    &&& s.current_view == View::Dashboard
    &&& s.selected_person_id is None
    &&& s.selected_document_id is None
    &&& s.bookmarked_persons@ == Set::<i64>::empty()
    &&& !s.show_person_form
    &&& s.editing_person_id is None
    &&& !s.show_relationship_form
    &&& !s.show_document_upload
    &&& s.document_upload_mode == DocumentUploadMode::Import
    &&& !s.show_gedcom_import
    &&& !s.show_confirm_dialog
    &&& s.confirm_dialog_message@ == Seq::<char>::empty()
    &&& s.confirm_dialog_action is None
    &&& s.status_message is None
    &&& s.search_query@ == Seq::<char>::empty()
    &&& !s.dark_mode
}

impl Default for AppState {
    fn default() -> (s: AppState)
        ensures
            is_initial_state(s),
    {
        AppState {
            current_view: View::Dashboard,
            selected_person_id: None,
            selected_document_id: None,
            bookmarked_persons: HashSet::new(),
            show_person_form: false,
            editing_person_id: None,
            show_relationship_form: false,
            show_document_upload: false,
            document_upload_mode: DocumentUploadMode::Import,
            show_gedcom_import: false,
            show_confirm_dialog: false,
            confirm_dialog_message: String::new(),
            confirm_dialog_action: None,
            status_message: None,
            search_query: String::new(),
            dark_mode: false,
        }
    }
}

impl AppState {
    /// The state in which the application starts.
    pub fn new() -> (s: AppState)
        ensures
            is_initial_state(s),
    {
        AppState::default()
    }

    /// Shows `view`.
    pub fn navigate(&mut self, view: View)
        ensures
            *final(self) == (AppState { current_view: view, ..*old(self) }),
    {
        self.current_view = view;
    }

    /// Shows the details of a person.
    pub fn navigate_to_person(&mut self, person_id: i64)
        ensures
            *final(self) == (AppState {
                selected_person_id: Some(person_id),
                current_view: View::PersonDetail,
                ..*old(self)
            }),
    {
        self.selected_person_id = Some(person_id);
        self.current_view = View::PersonDetail;
    }

    /// Shows a document.
    pub fn navigate_to_document(&mut self, document_id: i64)
        ensures
            *final(self) == (AppState {
                selected_document_id: Some(document_id),
                current_view: View::DocumentViewer,
                ..*old(self)
            }),
    {
        self.selected_document_id = Some(document_id);
        self.current_view = View::DocumentViewer;
    }

    /// Opens the document dialog to import files.
    pub fn open_document_import(&mut self)
        ensures
            *final(self) == (AppState {
                document_upload_mode: DocumentUploadMode::Import,
                show_document_upload: true,
                ..*old(self)
            }),
    {
        self.document_upload_mode = DocumentUploadMode::Import;
        self.show_document_upload = true;
    }

    /// Opens the document dialog to create a text document.
    pub fn open_document_create(&mut self)
        ensures
            *final(self) == (AppState {
                document_upload_mode: DocumentUploadMode::Create,
                show_document_upload: true,
                ..*old(self)
            }),
    {
        self.document_upload_mode = DocumentUploadMode::Create;
        self.show_document_upload = true;
    }

    /// Closes the document dialog.
    pub fn close_document_upload(&mut self)
        ensures
            *final(self) == (AppState { show_document_upload: false, ..*old(self) }),
    {
        self.show_document_upload = false;
    }

    /// Opens the person form for a new person.
    pub fn open_new_person_form(&mut self)
        ensures
            *final(self) == (AppState {
                editing_person_id: None,
                show_person_form: true,
                ..*old(self)
            }),
    {
        self.editing_person_id = None;
        self.show_person_form = true;
    }

    /// Opens the person form to edit a person.
    pub fn open_edit_person_form(&mut self, person_id: i64)
        ensures
            *final(self) == (AppState {
                editing_person_id: Some(person_id),
                show_person_form: true,
                ..*old(self)
            }),
    {
        self.editing_person_id = Some(person_id);
        self.show_person_form = true;
    }

    /// Closes the person form.
    pub fn close_person_form(&mut self)
        ensures
            *final(self) == (AppState {
                show_person_form: false,
                editing_person_id: None,
                ..*old(self)
            }),
    {
        self.show_person_form = false;
        self.editing_person_id = None;
    }

    /// Asks the user to confirm `action`, with `message`.
    pub fn show_confirm(&mut self, message: &str, action: ConfirmAction)
        ensures
            final(self).confirm_dialog_message@ == message@,
            *final(self) == (AppState {
                confirm_dialog_message: final(self).confirm_dialog_message,
                confirm_dialog_action: Some(action),
                show_confirm_dialog: true,
                ..*old(self)
            }),
    {
        self.confirm_dialog_message = owned(message);
        self.confirm_dialog_action = Some(action);
        self.show_confirm_dialog = true;
    }

    /// Closes the confirmation dialog and drops its action.
    pub fn close_confirm(&mut self)
        ensures
            *final(self) == (AppState {
                show_confirm_dialog: false,
                confirm_dialog_action: None,
                ..*old(self)
            }),
    {
        self.show_confirm_dialog = false;
        self.confirm_dialog_action = None;
    }

    /// Shows a status message of the given type, from now on.
    pub fn show_status(&mut self, message: &str, status_type: StatusType)
        ensures
            final(self).status_message matches Some(m) && m.text@ == message@ && m.status_type
                == status_type,
            *final(self) == (AppState { status_message: final(self).status_message, ..*old(self) }),
    {
        let created_at = instant_now();
        self.show_status_at(message, status_type, created_at);
    }

    /// Shows a status message of the given type as created at `created_at`.
    pub fn show_status_at(
        &mut self,
        message: &str,
        status_type: StatusType,
        created_at: std::time::Instant,
    )
        ensures
            status_shown(*old(self), *final(self), message@, status_type, created_at),
    {
        self.status_message = Some(StatusMessage { text: owned(message), status_type, created_at });
    }

    /// Shows a success message.
    pub fn show_success(&mut self, message: &str)
        ensures
            final(self).status_message matches Some(m) && m.text@ == message@ && m.status_type
                == StatusType::Success,
            *final(self) == (AppState { status_message: final(self).status_message, ..*old(self) }),
    {
        self.show_status(message, StatusType::Success);
    }

    /// Shows an error message.
    pub fn show_error(&mut self, message: &str)
        ensures
            final(self).status_message matches Some(m) && m.text@ == message@ && m.status_type
                == StatusType::Error,
            *final(self) == (AppState { status_message: final(self).status_message, ..*old(self) }),
    {
        self.show_status(message, StatusType::Error);
    }

    /// Shows an error message as created at `created_at`.
    pub fn show_error_at(&mut self, message: &str, created_at: std::time::Instant)
        ensures
            status_shown(*old(self), *final(self), message@, StatusType::Error, created_at),
    {
        self.show_status_at(message, StatusType::Error, created_at);
    }

    /// Removes the status message once it is older than the lifetime of a status
    /// message; the clock decides when.
    pub fn clear_old_status(&mut self)
        ensures
            *final(self) == *old(self) || (old(self).status_message is Some && *final(self) == (
            AppState { status_message: None, ..*old(self) })),
    {
        let elapsed = match &self.status_message {
            Some(status) => elapsed_whole_seconds(&status.created_at),
            None => 0,
        };
        self.expire_status(elapsed);
    }

    /// Removes the status message when it was shown `elapsed_secs` whole seconds
    /// ago and that is more than the lifetime of a status message.
    pub fn expire_status(&mut self, elapsed_secs: u64)
        ensures
            old(self).status_message is Some && status_expired_spec(elapsed_secs) ==> *final(self)
                == (AppState { status_message: None, ..*old(self) }),
            !(old(self).status_message is Some && status_expired_spec(elapsed_secs))
                ==> *final(self) == *old(self),
    {
        if self.status_message.is_some() && status_expired(elapsed_secs) {
            self.status_message = None;
        }
    }
}

/// The fields of the person form, as typed.
pub struct PersonFormData {
    pub firstname: String,
    pub surname: String,
    pub birth_date: String,
    pub death_date: String,
    pub directory_name: String,
}

/// Person form fields that are all empty.
pub open spec fn is_empty_person_form(f: PersonFormData) -> bool {
    &&& f.firstname@ == Seq::<char>::empty()
    &&& f.surname@ == Seq::<char>::empty()
    &&& f.birth_date@ == Seq::<char>::empty()
    &&& f.death_date@ == Seq::<char>::empty()
    &&& f.directory_name@ == Seq::<char>::empty()
}

/// The text of an optional string field, empty where it is absent.
pub open spec fn text_or_empty(s: Option<String>) -> Seq<char> {
    match s {
        Some(t) => t@,
        None => Seq::empty(),
    }
}

/// The text of an optional date field, `YYYY-MM-DD` or empty.
pub open spec fn date_or_empty(d: Option<crate::date::Date>) -> Seq<char> {
    match d {
        Some(x) => date::date_text(x@.0, x@.1, x@.2),
        None => Seq::empty(),
    }
}

fn string_or_empty(s: &Option<String>) -> (r: String)
    ensures
        r@ == text_or_empty(*s),
{
    match s {
        Some(t) => t.clone(),
        None => String::new(),
    }
}

fn date_string_or_empty(d: &Option<crate::date::Date>) -> (r: String)
    ensures
        r@ == date_or_empty(*d),
{
    match d {
        Some(x) => format_date(x),
        None => String::new(),
    }
}

impl Default for PersonFormData {
    fn default() -> (f: PersonFormData)
        ensures
            is_empty_person_form(f),
    {
        PersonFormData {
            firstname: String::new(),
            surname: String::new(),
            birth_date: String::new(),
            death_date: String::new(),
            directory_name: String::new(),
        }
    }
}

impl Clone for PersonFormData {
    fn clone(&self) -> (f: PersonFormData)
        ensures
            f.firstname@ == self.firstname@,
            f.surname@ == self.surname@,
            f.birth_date@ == self.birth_date@,
            f.death_date@ == self.death_date@,
            f.directory_name@ == self.directory_name@,
    {
        PersonFormData {
            firstname: self.firstname.clone(),
            surname: self.surname.clone(),
            birth_date: self.birth_date.clone(),
            death_date: self.death_date.clone(),
            directory_name: self.directory_name.clone(),
        }
    }
}

impl PersonFormData {
    /// Empties every field.
    pub fn clear(&mut self)
        ensures
            is_empty_person_form(*final(self)),
    {
        *self = PersonFormData::default();
    }

    /// The fields filled in from a stored person: names as they are, dates as
    /// `YYYY-MM-DD`, absent values as empty fields.
    pub fn from_person(person: &Person) -> (f: PersonFormData)
        ensures
            f.firstname@ == text_or_empty(person.firstname),
            f.surname@ == text_or_empty(person.surname),
            f.birth_date@ == date_or_empty(person.birth_date),
            f.death_date@ == date_or_empty(person.death_date),
            f.directory_name@ == person.directory_name@,
    {
        PersonFormData {
            firstname: string_or_empty(&person.firstname),
            surname: string_or_empty(&person.surname),
            birth_date: date_string_or_empty(&person.birth_date),
            death_date: date_string_or_empty(&person.death_date),
            directory_name: person.directory_name.clone(),
        }
    }
}

/// The fields of the relationship form.
#[derive(Debug, Clone, Copy, PartialEq, Eq, Structural)]
pub struct RelationshipFormData {
    pub other_person_id: Option<i64>,
    pub relationship_type: Option<RelationshipType>,
}

impl Default for RelationshipFormData {
    fn default() -> (f: RelationshipFormData)
        ensures
            f.other_person_id is None,
            f.relationship_type is None,
    {
        RelationshipFormData { other_person_id: None, relationship_type: None }
    }
}

impl RelationshipFormData {
    /// Empties the form.
    pub fn clear(&mut self)
        ensures
            final(self).other_person_id is None,
            final(self).relationship_type is None,
    {
        *self = RelationshipFormData::default();
    }
}

/// Closing the confirmation dialog undoes opening it: the dialog is hidden and
/// no action waits, and the rest of the state is as before the dialog opened
/// (the message excepted).
pub proof fn law_confirm_then_close(
    before: AppState,
    opened: AppState,
    closed: AppState,
    action: ConfirmAction,
    message: Seq<char>,
)
    requires
        opened.confirm_dialog_message@ == message,
        opened == (AppState {
            confirm_dialog_message: opened.confirm_dialog_message,
            confirm_dialog_action: Some(action),
            show_confirm_dialog: true,
            ..before
        }),
        closed == (AppState { show_confirm_dialog: false, confirm_dialog_action: None, ..opened }),
    ensures
        !closed.show_confirm_dialog,
        closed.confirm_dialog_action is None,
        closed.current_view == before.current_view,
        closed.selected_person_id == before.selected_person_id,
        closed.status_message == before.status_message,
{
}

} // verus!
