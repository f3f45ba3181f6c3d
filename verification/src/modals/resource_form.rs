//! The form that creates or edits a resource.

use vstd::prelude::*;
use vstd::string::*;
use vstd::view::View as _;
use crate::models::{Resource, ResourceType};
use crate::state::{AppState, StatusType};
use crate::text;
use crate::text::{owned, push_str, str_is_blank, trim};

verus! {

/// The state of the resource form.
pub struct ResourceFormModal {
    pub name: String,
    pub resource_type_id: Option<i64>,
    pub information: String,
    pub comment: String,
    pub lat_str: String,
    pub lon_str: String,
    pub directory_name: String,
    /// Whether the directory name was set by hand (it then no longer follows
    /// the name).
    pub dir_locked: bool,
    pub types_cache: Vec<ResourceType>,
    pub error_message: Option<String>,
    pub loaded_for_id: Option<i64>,
}

/// An empty resource form.
pub open spec fn is_clear(m: ResourceFormModal) -> bool {
    &&& m.name@ == Seq::<char>::empty()
    &&& m.resource_type_id is None
    &&& m.information@ == Seq::<char>::empty()
    &&& m.comment@ == Seq::<char>::empty()
    &&& m.lat_str@ == Seq::<char>::empty()
    &&& m.lon_str@ == Seq::<char>::empty()
    &&& m.directory_name@ == Seq::<char>::empty()
    &&& !m.dir_locked
    &&& m.types_cache@.len() == 0
    &&& m.error_message is None
    &&& m.loaded_for_id is None
}

impl ResourceFormModal {
    /// An empty form.
    pub fn new() -> (m: ResourceFormModal)
        ensures
            is_clear(m),
    {
        ResourceFormModal {
            name: String::new(),
            resource_type_id: None,
            information: String::new(),
            comment: String::new(),
            lat_str: String::new(),
            lon_str: String::new(),
            directory_name: String::new(),
            dir_locked: false,
            types_cache: Vec::new(),
            error_message: None,
            loaded_for_id: None,
        }
    }

    /// Empties the form, the cached types included.
    pub fn clear(&mut self)
        ensures
            is_clear(*final(self)),
    {
        *self = ResourceFormModal::new();
    }

    /// With no type chosen, the first loaded type is chosen.
    pub fn choose_default_type(&mut self)
        ensures
            old(self).resource_type_id is None && old(self).types_cache@.len() > 0
                ==> final(self).resource_type_id == old(self).types_cache@[0].id,
            !(old(self).resource_type_id is None && old(self).types_cache@.len() > 0)
                ==> final(self).resource_type_id == old(self).resource_type_id,
            final(self).types_cache == old(self).types_cache,
            final(self).name == old(self).name,
    {
        if self.resource_type_id.is_none() && self.types_cache.len() > 0 {
            self.resource_type_id = self.types_cache[0].id;
        }
    }

    /// Whether the form is to be loaded anew for the resource being edited.
    pub fn editing_changed(&self, editing_id: Option<i64>) -> (r: bool)
        ensures
            r == (editing_id != self.loaded_for_id),
    {
        editing_id != self.loaded_for_id
    }

    /// The checks that come first when saving: a name that is not blank, then a
    /// type.  A failed check leaves its message in the form.
    pub fn check_required(&mut self) -> (r: bool)
        ensures
            r == (!text::is_blank(old(self).name@) && old(self).resource_type_id is Some),
            text::is_blank(old(self).name@)
                ==> (final(self).error_message matches Some(m) && m@ == "Namn krävs"@),
            !text::is_blank(old(self).name@) && old(self).resource_type_id is None
                ==> (final(self).error_message matches Some(m) && m@ == "Välj en typ"@),
            r ==> final(self).error_message == old(self).error_message,
            *final(self) == (ResourceFormModal { error_message: final(self).error_message, ..*old(self) }),
    {
        if str_is_blank(self.name.as_str()) {
            self.error_message = Some(owned("Namn krävs"));
            return false;
        }
        if self.resource_type_id.is_none() {
            self.error_message = Some(owned("Välj en typ"));
            return false;
        }
        true
    }
    /// The form of a stored resource: its fields, the coordinates as the text
    /// they are shown as, and the directory name locked.
    pub fn load_resource(&mut self, id: i64, resource: &Resource, lat_text: String, lon_text: String)
        ensures
            final(self).loaded_for_id == Some(id),
            final(self).name@ == resource.name@,
            final(self).resource_type_id == Some(resource.resource_type_id),
            final(self).information@ == text_or_empty(resource.information),
            final(self).comment@ == text_or_empty(resource.comment),
            final(self).lat_str == lat_text,
            final(self).lon_str == lon_text,
            final(self).directory_name@ == resource.directory_name@,
            final(self).dir_locked,
            final(self).error_message is None,
            final(self).types_cache == old(self).types_cache,
    {
        self.loaded_for_id = Some(id);
        self.name = resource.name.clone();
        self.resource_type_id = Some(resource.resource_type_id);
        self.information = string_or_empty(&resource.information);
        self.comment = string_or_empty(&resource.comment);
        self.lat_str = lat_text;
        self.lon_str = lon_text;
        self.directory_name = resource.directory_name.clone();
        self.dir_locked = true;
        self.error_message = None;
    }

    /// The heading of the form.
    pub fn title(editing: bool) -> (r: &'static str)
        ensures
            editing ==> r@ == "Redigera resurs"@,
            !editing ==> r@ == "Ny resurs"@,
    {
        if editing {
            "Redigera resurs"
        } else {
            "Ny resurs"
        }
    }

    /// The name was edited: an unlocked directory name follows it, as the
    /// directory name made from the name.
    pub fn name_edited(&mut self, dir_from_name: &str)
        ensures
            !old(self).dir_locked ==> final(self).directory_name@ == dir_from_name@,
            old(self).dir_locked ==> final(self).directory_name == old(self).directory_name,
            final(self).name == old(self).name,
            final(self).dir_locked == old(self).dir_locked,
    {
        if !self.dir_locked {
            self.directory_name = owned(dir_from_name);
        }
    }

    /// The edit button beside a locked directory name unlocks it.
    pub fn unlock_directory(&mut self)
        ensures
            !final(self).dir_locked,
            final(self).directory_name == old(self).directory_name,
    {
        self.dir_locked = false;
    }

    /// The check of the coordinates, after name and type: an empty field is no
    /// coordinate, any other must read as a number (`lat_ok` and `lon_ok` tell
    /// whether they do).  A failed check leaves its message in the form.
    pub fn check_coordinates(&mut self, lat_ok: bool, lon_ok: bool) -> (r: bool)
        ensures
            r == (lat_ok && lon_ok),
            !lat_ok ==> (final(self).error_message matches Some(m) && m@
                == "Ogiltigt latitudvärde"@),
            lat_ok && !lon_ok ==> (final(self).error_message matches Some(m) && m@
                == "Ogiltigt longitudvärde"@),
            r ==> final(self).error_message == old(self).error_message,
            final(self).name == old(self).name,
    {
        if !lat_ok {
            self.error_message = Some(owned("Ogiltigt latitudvärde"));
            return false;
        }
        if !lon_ok {
            self.error_message = Some(owned("Ogiltigt longitudvärde"));
            return false;
        }
        true
    }

    /// The resource that the save button stores (its coordinates are added by
    /// the caller): the name trimmed, the directory name (the one made from the
    /// name where it is empty, which the form then keeps), empty texts absent,
    /// and the id of the resource being edited.
    pub fn resource_to_save(&mut self, type_id: i64, editing_id: Option<i64>, dir_from_name: &str) -> (r: Resource)
        ensures
            r.id == editing_id,
            r.name@ == crate::text::trimmed(old(self).name@),
            r.resource_type_id == type_id,
            old(self).directory_name@.len() == 0 ==> r.directory_name@ == dir_from_name@,
            old(self).directory_name@.len() > 0 ==> r.directory_name@ == old(self).directory_name@,
            final(self).directory_name@ == r.directory_name@,
            opt_text(r.information) == none_if_empty(old(self).information@),
            opt_text(r.comment) == none_if_empty(old(self).comment@),
            final(self).name == old(self).name,
    {
        if self.directory_name.as_str().unicode_len() == 0 {
            self.directory_name = owned(dir_from_name);
        }
        let information = if self.information.as_str().unicode_len() == 0 {
            None
        } else {
            Some(self.information.clone())
        };
        let comment = if self.comment.as_str().unicode_len() == 0 {
            None
        } else {
            Some(self.comment.clone())
        };
        Resource {
            id: editing_id,
            name: owned(trim(self.name.as_str())),
            resource_type_id: type_id,
            information,
            comment,
            directory_name: self.directory_name.clone(),
        }
    }

    /// The outcome of storing: a success message (the form is then closed by
    /// the caller, and a new resource opened), or the error in the form.
    pub fn save_finished(&mut self, state: &mut AppState, editing: bool, result: Result<(), String>) -> (saved: bool)
        ensures
            saved == result is Ok,
            saved && editing ==> (final(state).status_message matches Some(m) && m.text@
                == "Resurs uppdaterad"@ && m.status_type == StatusType::Success),
            saved && !editing ==> (final(state).status_message matches Some(m) && m.text@
                == "Resurs skapad"@ && m.status_type == StatusType::Success),
            !saved ==> *final(state) == *old(state) && (final(self).error_message matches Some(m)
                && m@ == "Fel: "@ + result->Err_0@),
    {
        match result {
            Ok(()) => {
                if editing {
                    state.show_success("Resurs uppdaterad");
                } else {
                    state.show_success("Resurs skapad");
                }
                true
            },
            Err(e) => {
                let mut m = owned("Fel: ");
                push_str(&mut m, e.as_str());
                self.error_message = Some(m);
                false
            },
        }
    }
}

/// The text of an optional field, empty where it is absent.
pub open spec fn text_or_empty(s: Option<String>) -> Seq<char> {
    match s {
        Some(t) => t@,
        None => Seq::empty(),
    }
}

/// The optional characters of an optional string.
pub open spec fn opt_text(s: Option<String>) -> Option<Seq<char>> {
    match s {
        Some(t) => Some(t@),
        None => None,
    }
}

/// An empty text is no text.
pub open spec fn none_if_empty(s: Seq<char>) -> Option<Seq<char>> {
    if s.len() == 0 {
        None
    } else {
        Some(s)
    }
}

fn string_or_empty(s: &Option<String>) -> (r: String)
    ensures
        r@ == text_or_empty(*s),
{
    match s {
        Some(t) => t.clone(),
        None => String::new(),
    }
}

} // verus!
