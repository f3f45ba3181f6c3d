//! The details of a person: the tabs, the bookmark, the confirmations it asks
//! for, and the import of images into the person's directory.

use vstd::prelude::*;
use vstd::string::*;
use vstd::view::View as _;
use crate::models::{DocumentType, Person};
use crate::state::{AppState, ConfirmAction, StatusType};
use crate::text::{owned, push_decimal, push_signed_decimal, push_str};
use crate::theme::Icons;
use crate::widgets::checklist_panel::ChecklistPanel;
use crate::widgets::image_gallery::{GalleryAction, GalleryState};

verus! {

/// The tabs of the person view.
#[derive(Debug, Clone, Copy, PartialEq, Eq, Structural)]
pub enum PersonDetailTab {
    PersonInfo,
    Documents,
    Images,
    Checklist,
}

/// The person view (the profile image's texture is kept beside it).
pub struct PersonDetailState {
    pub person_cache: Option<Person>,
    pub document_count: i64,
    pub is_bookmarked: bool,
    pub needs_refresh: bool,
    pub checklist_panel: ChecklistPanel,
    pub image_gallery: GalleryState,
    /// The profile image whose texture is loaded.
    pub profile_texture_path: Option<String>,
    pub selected_tab: PersonDetailTab,
}

/// The id of a cached person.
pub open spec fn cached_id(p: Option<Person>) -> Option<i64> {
    match p {
        Some(x) => x.id,
        None => None,
    }
}

/// The optional characters of an optional string.
pub open spec fn opt_chars(s: Option<String>) -> Option<Seq<char>> {
    match s {
        Some(t) => Some(t@),
        None => None,
    }
}

/// The first character of a string is where it starts with `prefix`.
pub open spec fn starts_with(s: Seq<char>, prefix: Seq<char>) -> bool {
    prefix.len() <= s.len() && s.subrange(0, prefix.len() as int) == prefix
}

/// The id of the image type: the first type whose target directory starts with
/// "bilder".  None where there is no such type (or it is not stored).
pub open spec fn image_type_of(types: Seq<DocumentType>) -> Option<i64>
    decreases types.len(),
{
    if types.len() == 0 {
        None
    } else if starts_with(types[0].target_directory@, "bilder"@) {
        types[0].id
    } else {
        image_type_of(types.drop_first())
    }
}

/// The message after images were imported.
pub open spec fn imported_text(n: nat) -> Seq<char> {
    crate::text::decimal(n) + " bild(er) importerade"@
}

fn text_starts_with(s: &str, prefix: &str) -> (r: bool)
    ensures
        r == starts_with(s@, prefix@),
{
    let n = prefix.unicode_len();
    if n > s.unicode_len() {
        return false;
    }
    let mut i: usize = 0;
    while i < n
        invariant
            n == prefix@.len(),
            n <= s@.len(),
            i <= n,
            forall|k: int| 0 <= k < i ==> s@[k] == prefix@[k],
        decreases n - i,
    {
        if s.get_char(i) != prefix.get_char(i) {
            return false;
        }
        i = i + 1;
    }
    assert(s@.subrange(0, n as int) =~= prefix@);
    true
}

/// The document type that imported images get.
pub fn image_type_id(types: &Vec<DocumentType>) -> (r: Option<i64>)
    ensures
        r == image_type_of(types@),
{
    let mut i: usize = 0;
    proof {
        reveal_strlit("bilder");
    }
    assert(types@.skip(0) =~= types@);
    while i < types.len()
        invariant
            i <= types@.len(),
            image_type_of(types@) == image_type_of(types@.skip(i as int)),
        decreases types@.len() - i,
    {
        let ghost rest = types@.skip(i as int);
        assert(rest.drop_first() =~= types@.skip(i + 1));
        assert(rest[0] == types@[i as int]);
        if text_starts_with(types[i].target_directory.as_str(), "bilder") {
            return types[i].id;
        }
        i = i + 1;
    }
    None
}

/// What importing images came to: the number imported, or an error where none
/// could be.
pub fn import_outcome(imported: usize) -> (r: Result<usize, String>)
    ensures
        imported > 0 ==> r == Ok::<usize, String>(imported),
        imported == 0 ==> (r matches Err(e) && e@ == "Inga bilder kunde importeras"@),
{
    if imported > 0 {
        Ok(imported)
    } else {
        Err(owned("Inga bilder kunde importeras"))
    }
}

/// The path of an imported image within the person's directory.
pub fn imported_image_path(filename: &str) -> (r: String)
    ensures
        r@ == "bilder/"@ + filename@,
{
    let mut t = owned("bilder/");
    push_str(&mut t, filename);
    t
}

impl PersonDetailState {
    /// A view that loads on its first display, on the first tab.
    pub fn new() -> (v: PersonDetailState)
        ensures
            v.person_cache is None,
            v.document_count == 0,
            !v.is_bookmarked,
            v.needs_refresh,
            v.profile_texture_path is None,
            v.selected_tab == PersonDetailTab::PersonInfo,
    {
        PersonDetailState {
            person_cache: None,
            document_count: 0,
            is_bookmarked: false,
            needs_refresh: true,
            checklist_panel: ChecklistPanel::new(),
            image_gallery: GalleryState::new(),
            profile_texture_path: None,
            selected_tab: PersonDetailTab::PersonInfo,
        }
    }

    /// Whether the person is to be loaded before showing `person_id`.
    pub fn needs_reload(&self, person_id: i64) -> (r: bool)
        ensures
            r == (self.needs_refresh || cached_id(self.person_cache) != Some(person_id)),
    {
        let cached = match &self.person_cache {
            Some(p) => p.id,
            None => None,
        };
        self.needs_refresh || cached != Some(person_id)
    }

    /// Takes what was loaded.  Returns whether the profile texture is to be
    /// dropped: the loaded person's profile image is not the one whose texture
    /// is loaded.
    pub fn loaded(&mut self, person: Option<Person>, document_count: i64, is_bookmarked: bool) -> (drop_texture: bool)
        ensures
            final(self).person_cache == person,
            final(self).document_count == document_count,
            final(self).is_bookmarked == is_bookmarked,
            !final(self).needs_refresh,
            drop_texture == (person matches Some(p) && opt_chars(old(self).profile_texture_path)
                != opt_chars(p.profile_image_path)),
            drop_texture ==> opt_chars(final(self).profile_texture_path) == opt_chars(
                person->0.profile_image_path,
            ),
            !drop_texture ==> final(self).profile_texture_path == old(self).profile_texture_path,
            final(self).selected_tab == old(self).selected_tab,
    {
        let mut drop_texture = false;
        if let Some(p) = &person {
            let same = match (&self.profile_texture_path, &p.profile_image_path) {
                (Some(a), Some(b)) => crate::text::str_equals(a.as_str(), b.as_str()),
                (None, None) => true,
                _ => false,
            };
            if !same {
                self.profile_texture_path = match &p.profile_image_path {
                    Some(b) => Some(b.clone()),
                    None => None,
                };
                drop_texture = true;
            }
        }
        self.person_cache = person;
        self.document_count = document_count;
        self.is_bookmarked = is_bookmarked;
        self.needs_refresh = false;
        drop_texture
    }

    /// Asks for everything to be loaded again: the person, the checklist and the
    /// gallery; the profile texture is dropped.
    pub fn mark_needs_refresh(&mut self)
        ensures
            final(self).needs_refresh,
            final(self).checklist_panel.needs_refresh,
            final(self).image_gallery.needs_refresh,
            final(self).profile_texture_path is None,
            final(self).selected_tab == old(self).selected_tab,
    {
        self.needs_refresh = true;
        self.checklist_panel.mark_needs_refresh();
        self.image_gallery.mark_needs_refresh();
        self.profile_texture_path = None;
    }

    /// The icon of the bookmark button.
    pub fn bookmark_icon(&self) -> (r: &'static str)
        ensures
            self.is_bookmarked ==> r@ == Icons::BOOKMARK@,
            !self.is_bookmarked ==> r@ == Icons::BOOKMARK_EMPTY@,
    {
        if self.is_bookmarked {
            Icons::BOOKMARK
        } else {
            Icons::BOOKMARK_EMPTY
        }
    }

    /// The bookmark was toggled in the database, which tells the new state.
    pub fn bookmark_toggled(&mut self, now_bookmarked: bool)
        ensures
            final(self).is_bookmarked == now_bookmarked,
            final(self).person_cache == old(self).person_cache,
    {
        self.is_bookmarked = now_bookmarked;
    }

    /// Chooses a tab.
    pub fn select_tab(&mut self, tab: PersonDetailTab)
        ensures
            final(self).selected_tab == tab,
            final(self).person_cache == old(self).person_cache,
    {
        self.selected_tab = tab;
    }

    /// The delete button asks to confirm deleting the person.
    pub fn confirm_delete_person(state: &mut AppState, person_id: i64, name: &str)
        ensures
            final(state).confirm_dialog_message@ == "Vill du verkligen radera "@ + name@ + "?"@,
            final(state).confirm_dialog_action == Some(ConfirmAction::DeletePerson(person_id)),
            final(state).show_confirm_dialog,
    {
        let mut m = owned("Vill du verkligen radera ");
        push_str(&mut m, name);
        push_str(&mut m, "?");
        state.show_confirm(m.as_str(), ConfirmAction::DeletePerson(person_id));
    }

    /// The remove button of a relationship asks to confirm removing it.
    pub fn confirm_delete_relationship(state: &mut AppState, relationship_id: i64, other_name: &str)
        ensures
            final(state).confirm_dialog_message@ == "Ta bort relation till "@ + other_name@
                + "?"@,
            final(state).confirm_dialog_action == Some(
                ConfirmAction::DeleteRelationship(relationship_id),
            ),
            final(state).show_confirm_dialog,
    {
        let mut m = owned("Ta bort relation till ");
        push_str(&mut m, other_name);
        push_str(&mut m, "?");
        state.show_confirm(m.as_str(), ConfirmAction::DeleteRelationship(relationship_id));
    }

    /// What the gallery asked for.  A document to open is opened; an image to
    /// delete asks for confirmation.  The profile image to set is returned as
    /// its path below the media directory, `persons/<dir>/<path>`, to be stored.
    pub fn gallery_action(state: &mut AppState, action: &GalleryAction, person_dir: &str) -> (r: Option<String>)
        ensures
            action.set_profile_image is None ==> r is None,
            action.set_profile_image matches Some(p) ==> (r matches Some(t) && t@ == "persons/"@
                + person_dir@ + seq!['/'] + p@),
            action.delete_image is None && action.open_document is None ==> *final(state)
                == *old(state),
            action.delete_image is None && action.open_document is Some ==> *final(state)
                == (AppState {
                selected_document_id: action.open_document,
                current_view: crate::state::View::DocumentViewer,
                ..*old(state)
            }),
            action.delete_image matches Some(del) ==> final(state).confirm_dialog_message@
                == "Vill du radera bilden \""@ + del.1@ + "\"? Filen tas bort permanent."@
                && final(state).confirm_dialog_action == Some(ConfirmAction::DeleteDocument(del.0))
                && final(state).show_confirm_dialog,
    {
        let r = match &action.set_profile_image {
            Some(p) => {
                let mut t = owned("persons/");
                push_str(&mut t, person_dir);
                crate::text::push_char(&mut t, '/');
                push_str(&mut t, p.as_str());
                Some(t)
            },
            None => None,
        };
        if let Some(d) = action.open_document {
            state.navigate_to_document(d);
        }
        if let Some((doc_id, filename)) = &action.delete_image {
            let mut m = owned("Vill du radera bilden \"");
            push_str(&mut m, filename.as_str());
            push_str(&mut m, "\"? Filen tas bort permanent.");
            state.show_confirm(m.as_str(), ConfirmAction::DeleteDocument(*doc_id));
        }
        r
    }

    /// The outcome of storing the profile image.
    pub fn profile_image_set(&mut self, state: &mut AppState, result: Result<(), String>)
        ensures
            match result {
                Ok(()) => (final(state).status_message matches Some(m) && m.text@
                    == "Profilbild uppdaterad"@ && m.status_type == StatusType::Success)
                    && final(self).needs_refresh,
                Err(e) => (final(state).status_message matches Some(m) && m.text@
                    == "Kunde inte sätta profilbild: "@ + e@ && m.status_type == StatusType::Error)
                    && final(self).needs_refresh == old(self).needs_refresh,
            },
    {
        match result {
            Ok(()) => {
                state.show_success("Profilbild uppdaterad");
                self.needs_refresh = true;
            },
            Err(e) => {
                let mut m = owned("Kunde inte sätta profilbild: ");
                push_str(&mut m, e.as_str());
                state.show_error(m.as_str());
            },
        }
    }

    /// The outcome of importing images (picked or dropped): a message, and on
    /// success the view and the gallery reload.
    pub fn images_imported(&mut self, state: &mut AppState, result: Result<usize, String>)
        ensures
            match result {
                Ok(n) => (final(state).status_message matches Some(m) && m.text@ == imported_text(
                    n as nat,
                ) && m.status_type == StatusType::Success) && final(self).needs_refresh
                    && final(self).image_gallery.needs_refresh,
                Err(e) => (final(state).status_message matches Some(m) && m.text@
                    == "Import misslyckades: "@ + e@ && m.status_type == StatusType::Error)
                    && final(self).needs_refresh == old(self).needs_refresh,
            },
    {
        match result {
            Ok(n) => {
                let mut m = String::new();
                push_decimal(&mut m, n as u64);
                push_str(&mut m, " bild(er) importerade");
                state.show_success(m.as_str());
                self.image_gallery.mark_needs_refresh();
                self.needs_refresh = true;
            },
            Err(e) => {
                let mut m = owned("Import misslyckades: ");
                push_str(&mut m, e.as_str());
                state.show_error(m.as_str());
            },
        }
    }

    /// The outcome of synchronising the person's documents with the files:
    /// whether anything changed and its summary, or the error.
    pub fn documents_synced(state: &mut AppState, result: Result<(bool, String), String>)
        ensures
            match result {
                Ok((true, summary)) => final(state).status_message matches Some(m) && m.text@
                    == "Synkronisering klar: "@ + summary@ && m.status_type == StatusType::Success,
                Ok((false, _)) => final(state).status_message matches Some(m) && m.text@
                    == "Inga ändringar"@ && m.status_type == StatusType::Info,
                Err(e) => final(state).status_message matches Some(m) && m.text@
                    == "Synkronisering misslyckades: "@ + e@ && m.status_type == StatusType::Error,
            },
    {
        match result {
            Ok((true, summary)) => {
                let mut m = owned("Synkronisering klar: ");
                push_str(&mut m, summary.as_str());
                state.show_success(m.as_str());
            },
            Ok((false, _)) => {
                state.show_status("Inga ändringar", StatusType::Info);
            },
            Err(e) => {
                let mut m = owned("Synkronisering misslyckades: ");
                push_str(&mut m, e.as_str());
                state.show_error(m.as_str());
            },
        }
    }

    /// The heading of a group of documents: the type's name, or
    /// "Okategoriserade", and the number of documents.
    pub fn document_group_label(kind_name: Option<&str>, count: usize) -> (r: String)
        ensures
            r@ == (match kind_name {
                Some(n) => n@,
                None => "Okategoriserade"@,
            }) + " ("@ + crate::text::decimal(count as nat) + seq![')'],
    {
        let mut t = match kind_name {
            Some(n) => owned(n),
            None => owned("Okategoriserade"),
        };
        push_str(&mut t, " (");
        push_decimal(&mut t, count as u64);
        crate::text::push_char(&mut t, ')');
        t
    }

    /// The number of documents beside the heading of the documents panel.
    pub fn document_count_label(&self) -> (r: String)
        ensures
            r@ == seq!['('] + crate::text::signed_decimal(self.document_count as int) + seq![')'],
    {
        let mut t = String::new();
        crate::text::push_char(&mut t, '(');
        push_signed_decimal(&mut t, self.document_count);
        crate::text::push_char(&mut t, ')');
        t
    }
}

} // verus!
