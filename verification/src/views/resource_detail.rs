//! The details of a resource: its tabs, the address form, the lightbox, and
//! how uploaded and synchronised files are named and reported.

use vstd::prelude::*;
use vstd::string::*;
use vstd::view::View as _;
use crate::models::{Resource, ResourceType};
use crate::state::{AppState, StatusType};
use crate::text::{non_empty, non_empty_text, owned, push_decimal, push_str, str_equals};

verus! {

/// The tabs of the resource view.
#[derive(Debug, Clone, Copy, PartialEq, Eq, Structural)]
pub enum ResourceDetailTab {
    Info,
    Images,
    Documents,
}

/// An address of a resource; every part is optional.
pub struct ResourceAddress {
    pub id: Option<i64>,
    pub resource_id: i64,
    pub street: Option<String>,
    pub postal_code: Option<String>,
    pub city: Option<String>,
    pub country: Option<String>,
}

/// A file of a resource, with its path relative to the resource's directory.
pub struct ResourceDocument {
    pub id: Option<i64>,
    pub resource_id: i64,
    pub document_type_id: Option<i64>,
    pub filename: String,
    pub relative_path: String,
    pub file_size: i64,
    pub file_type: Option<String>,
}

/// The resource view (the thumbnails and the lightbox texture are kept beside
/// it).
pub struct ResourceDetailState {
    pub resource_cache: Option<Resource>,
    pub type_cache: Option<ResourceType>,
    pub addresses_cache: Vec<ResourceAddress>,
    pub documents_cache: Vec<ResourceDocument>,
    pub needs_refresh: bool,
    pub selected_tab: ResourceDetailTab,
    pub lightbox_image: Option<i64>,
    pub show_add_address: bool,
    pub new_addr_street: String,
    pub new_addr_postal_code: String,
    pub new_addr_city: String,
    pub new_addr_country: String,
}

/// The address form is empty.
pub open spec fn address_form_is_empty(v: ResourceDetailState) -> bool {
    &&& v.new_addr_street@ == Seq::<char>::empty()
    &&& v.new_addr_postal_code@ == Seq::<char>::empty()
    &&& v.new_addr_city@ == Seq::<char>::empty()
    &&& v.new_addr_country@ == Seq::<char>::empty()
}

/// The optional characters of an optional string.
pub open spec fn opt_chars(s: Option<String>) -> Option<Seq<char>> {
    match s {
        Some(t) => Some(t@),
        None => None,
    }
}

/// The id of a cached resource.
pub open spec fn cached_id(r: Option<Resource>) -> Option<i64> {
    match r {
        Some(x) => x.id,
        None => None,
    }
}

/// The subdirectory that uploaded files go to.
pub open spec fn upload_subdir(images_only: bool) -> Seq<char> {
    if images_only {
        "bilder"@
    } else {
        "dokument"@
    }
}

/// The summary of a synchronisation: the files added and the errors, each part
/// only where it is not zero, joined by a comma; empty for no change.
pub open spec fn sync_summary_text(added: nat, errors: nat) -> Seq<char> {
    let a = crate::text::decimal(added) + " tillagd(a)"@;
    let e = crate::text::decimal(errors) + " fel"@;
    if added > 0 && errors > 0 {
        a + ", "@ + e
    } else if added > 0 {
        a
    } else if errors > 0 {
        e
    } else {
        Seq::empty()
    }
}

/// The paths, relative to the resource's directory, of the files found in
/// `subdir` that no stored document has, in the order found.
pub open spec fn new_paths(existing: Seq<Seq<char>>, subdir: Seq<char>, found: Seq<Seq<char>>) -> Seq<
    Seq<char>,
>
    decreases found.len(),
{
    if found.len() == 0 {
        Seq::empty()
    } else {
        let rest = new_paths(existing, subdir, found.drop_last());
        let p = subdir + seq!['/'] + found.last();
        if existing.contains(p) {
            rest
        } else {
            rest.push(p)
        }
    }
}

/// The characters of each string.
pub open spec fn texts(v: Seq<String>) -> Seq<Seq<char>> {
    v.map_values(|s: String| s@)
}

impl ResourceDetailState {
    /// A view that loads on its first display, on the info tab.
    pub fn new() -> (v: ResourceDetailState)
        ensures
            v.resource_cache is None,
            v.type_cache is None,
            v.needs_refresh,
            v.selected_tab == ResourceDetailTab::Info,
            v.lightbox_image is None,
            !v.show_add_address,
            address_form_is_empty(v),
    {
        ResourceDetailState {
            resource_cache: None,
            type_cache: None,
            addresses_cache: Vec::new(),
            documents_cache: Vec::new(),
            needs_refresh: true,
            selected_tab: ResourceDetailTab::Info,
            lightbox_image: None,
            show_add_address: false,
            new_addr_street: String::new(),
            new_addr_postal_code: String::new(),
            new_addr_city: String::new(),
            new_addr_country: String::new(),
        }
    }

    /// Asks for the resource to be loaded again: the lightbox closes and the
    /// address form closes empty.
    pub fn mark_needs_refresh(&mut self)
        ensures
            final(self).needs_refresh,
            final(self).lightbox_image is None,
            !final(self).show_add_address,
            address_form_is_empty(*final(self)),
            final(self).selected_tab == old(self).selected_tab,
    {
        self.needs_refresh = true;
        self.lightbox_image = None;
        self.show_add_address = false;
        self.clear_address_form();
    }

    /// Empties the address form.
    pub fn clear_address_form(&mut self)
        ensures
            address_form_is_empty(*final(self)),
            final(self).show_add_address == old(self).show_add_address,
            final(self).needs_refresh == old(self).needs_refresh,
            final(self).lightbox_image == old(self).lightbox_image,
            final(self).selected_tab == old(self).selected_tab,
    {
        self.new_addr_street = String::new();
        self.new_addr_postal_code = String::new();
        self.new_addr_city = String::new();
        self.new_addr_country = String::new();
    }

    /// Whether the resource is to be loaded before showing `resource_id`.
    pub fn needs_reload(&self, resource_id: i64) -> (r: bool)
        ensures
            r == (self.needs_refresh || cached_id(self.resource_cache) != Some(resource_id)),
    {
        let cached = match &self.resource_cache {
            Some(r) => r.id,
            None => None,
        };
        self.needs_refresh || cached != Some(resource_id)
    }

    /// Takes what was loaded.
    pub fn loaded(
        &mut self,
        resource: Option<Resource>,
        resource_type: Option<ResourceType>,
        addresses: Vec<ResourceAddress>,
        documents: Vec<ResourceDocument>,
    )
        ensures
            final(self).resource_cache == resource,
            final(self).type_cache == resource_type,
            final(self).addresses_cache == addresses,
            final(self).documents_cache == documents,
            !final(self).needs_refresh,
            final(self).selected_tab == old(self).selected_tab,
    {
        self.resource_cache = resource;
        self.type_cache = resource_type;
        self.addresses_cache = addresses;
        self.documents_cache = documents;
        self.needs_refresh = false;
    }

    /// The directory of the resource's type, or empty before it is known.
    pub fn type_dir(&self) -> (r: String)
        ensures
            self.type_cache matches Some(t) ==> r@ == t.directory_name@,
            self.type_cache is None ==> r@ == Seq::<char>::empty(),
    {
        match &self.type_cache {
            Some(t) => t.directory_name.clone(),
            None => String::new(),
        }
    }

    /// Chooses a tab.
    pub fn select_tab(&mut self, tab: ResourceDetailTab)
        ensures
            final(self).selected_tab == tab,
            final(self).lightbox_image == old(self).lightbox_image,
    {
        self.selected_tab = tab;
    }

    /// Opens the address form.
    pub fn open_address_form(&mut self)
        ensures
            final(self).show_add_address,
            final(self).new_addr_street == old(self).new_addr_street,
    {
        self.show_add_address = true;
    }

    /// The cancel button of the address form: it closes empty.
    pub fn cancel_address_form(&mut self)
        ensures
            !final(self).show_add_address,
            address_form_is_empty(*final(self)),
    {
        self.show_add_address = false;
        self.clear_address_form();
    }

    /// The address that the save button stores: each part trimmed, blank parts
    /// absent.
    pub fn address_to_save(&self, resource_id: i64) -> (a: ResourceAddress)
        ensures
            a.id is None,
            a.resource_id == resource_id,
            opt_chars(a.street) == non_empty_text(self.new_addr_street@),
            opt_chars(a.postal_code) == non_empty_text(self.new_addr_postal_code@),
            opt_chars(a.city) == non_empty_text(self.new_addr_city@),
            opt_chars(a.country) == non_empty_text(self.new_addr_country@),
    {
        ResourceAddress {
            id: None,
            resource_id,
            street: non_empty(self.new_addr_street.as_str()),
            postal_code: non_empty(self.new_addr_postal_code.as_str()),
            city: non_empty(self.new_addr_city.as_str()),
            country: non_empty(self.new_addr_country.as_str()),
        }
    }

    /// The outcome of storing an address: the form closes empty and the
    /// resource reloads, or the error is shown.
    pub fn address_saved(&mut self, state: &mut AppState, result: Result<(), String>)
        ensures
            match result {
                Ok(()) => !final(self).show_add_address && address_form_is_empty(*final(self))
                    && final(self).needs_refresh && (final(state).status_message matches Some(m)
                    && m.text@ == "Adress sparad"@ && m.status_type == StatusType::Success),
                Err(e) => final(self).show_add_address == old(self).show_add_address
                    && final(self).new_addr_street == old(self).new_addr_street && (final(state).status_message matches Some(m) && m.text@ == "Kunde inte spara adress: "@ + e@
                    && m.status_type == StatusType::Error),
            },
    {
        match result {
            Ok(()) => {
                self.show_add_address = false;
                self.clear_address_form();
                self.needs_refresh = true;
                state.show_success("Adress sparad");
            },
            Err(e) => {
                let mut m = owned("Kunde inte spara adress: ");
                push_str(&mut m, e.as_str());
                state.show_error(m.as_str());
            },
        }
    }

    /// A click on a thumbnail opens the lightbox on that image.
    pub fn open_lightbox(&mut self, document_id: i64)
        ensures
            final(self).lightbox_image == Some(document_id),
            final(self).selected_tab == old(self).selected_tab,
    {
        self.lightbox_image = Some(document_id);
    }

    /// Closes the lightbox.
    pub fn close_lightbox(&mut self)
        ensures
            final(self).lightbox_image is None,
            final(self).selected_tab == old(self).selected_tab,
    {
        self.lightbox_image = None;
    }
}

/// The question before deleting a resource.
pub fn delete_resource_question(name: &str) -> (r: String)
    ensures
        r@ == "Ta bort resursen \""@ + name@ + "\"?"@,
{
    let mut t = owned("Ta bort resursen \"");
    push_str(&mut t, name);
    push_str(&mut t, "\"?");
    t
}

/// The question before deleting an image of a resource.
pub fn delete_image_question(filename: &str) -> (r: String)
    ensures
        r@ == "Ta bort bilden \""@ + filename@ + "\"?"@,
{
    let mut t = owned("Ta bort bilden \"");
    push_str(&mut t, filename);
    push_str(&mut t, "\"?");
    t
}

/// The question before deleting a document of a resource.
pub fn delete_document_question(filename: &str) -> (r: String)
    ensures
        r@ == "Ta bort dokumentet \""@ + filename@ + "\"?"@,
{
    let mut t = owned("Ta bort dokumentet \"");
    push_str(&mut t, filename);
    push_str(&mut t, "\"?");
    t
}

/// The subdirectory that uploaded files go to: images to "bilder", other files
/// to "dokument".
pub fn upload_subdirectory(images_only: bool) -> (r: &'static str)
    ensures
        r@ == upload_subdir(images_only),
{
    if images_only {
        "bilder"
    } else {
        "dokument"
    }
}

/// The path of a file relative to the resource's directory.
pub fn relative_file_path(subdir: &str, filename: &str) -> (r: String)
    ensures
        r@ == subdir@ + seq!['/'] + filename@,
{
    let mut t = owned(subdir);
    crate::text::push_char(&mut t, '/');
    push_str(&mut t, filename);
    t
}

/// The stored file type: the extension, or none for a file without one.
pub fn file_type_of(extension: String) -> (r: Option<String>)
    ensures
        extension@.len() == 0 ==> r is None,
        extension@.len() > 0 ==> r == Some(extension),
{
    if extension.as_str().unicode_len() == 0 {
        None
    } else {
        Some(extension)
    }
}

/// Whether a path is among the stored ones.
fn contains_text(existing: &Vec<String>, p: &str) -> (r: bool)
    ensures
        r == texts(existing@).contains(p@),
{
    let mut i: usize = 0;
    while i < existing.len()
        invariant
            i <= existing@.len(),
            forall|k: int| 0 <= k < i ==> existing@[k]@ != p@,
        decreases existing@.len() - i,
    {
        if str_equals(existing[i].as_str(), p) {
            assert(texts(existing@)[i as int] == p@);
            return true;
        }
        i = i + 1;
    }
    proof {
        if texts(existing@).contains(p@) {
            let k = choose|k: int| 0 <= k < texts(existing@).len() && texts(existing@)[k] == p@;
            assert(existing@[k]@ == p@);
        }
    }
    false
}

/// The files of `subdir` that synchronising adds: the paths found there, as
/// paths relative to the resource's directory, that no stored document has.
pub fn sync_candidates(existing: &Vec<String>, subdir: &str, found: &Vec<String>) -> (r: Vec<String>)
    ensures
        texts(r@) == new_paths(texts(existing@), subdir@, texts(found@)),
{
    let mut r: Vec<String> = Vec::new();
    let mut i: usize = 0;
    while i < found.len()
        invariant
            i <= found@.len(),
            texts(r@) == new_paths(texts(existing@), subdir@, texts(found@.subrange(0, i as int))),
        decreases found@.len() - i,
    {
        let ghost before = r@;
        proof {
            assert(texts(found@.subrange(0, i + 1)).drop_last() =~= texts(
                found@.subrange(0, i as int),
            ));
            assert(texts(found@.subrange(0, i + 1)).last() == found@[i as int]@);
        }
        let p = relative_file_path(subdir, found[i].as_str());
        if !contains_text(existing, p.as_str()) {
            r.push(p);
            assert(texts(r@) =~= texts(before).push(r@.last()@));
        }
        i = i + 1;
    }
    assert(found@.subrange(0, i as int) =~= found@);
    r
}

/// The summary of a synchronisation.
pub fn sync_summary(added: u64, errors: u64) -> (r: String)
    ensures
        r@ == sync_summary_text(added as nat, errors as nat),
{
    let mut t = String::new();
    if added > 0 {
        push_decimal(&mut t, added);
        push_str(&mut t, " tillagd(a)");
    }
    if errors > 0 {
        if added > 0 {
            push_str(&mut t, ", ");
        }
        push_decimal(&mut t, errors);
        push_str(&mut t, " fel");
    }
    proof {
        let s = t@;
        assert(s =~= sync_summary_text(added as nat, errors as nat));
    }
    t
}

/// The message of a synchronisation: none of it for no change.
pub fn sync_finished(state: &mut AppState, summary: &str)
    ensures
        summary@.len() == 0 ==> (final(state).status_message matches Some(m) && m.text@
            == "Inga ändringar"@ && m.status_type == StatusType::Info),
        summary@.len() > 0 ==> (final(state).status_message matches Some(m) && m.text@
            == "Synkronisering klar: "@ + summary@ && m.status_type == StatusType::Success),
{
    if summary.unicode_len() == 0 {
        state.show_status("Inga ändringar", StatusType::Info);
    } else {
        let mut m = owned("Synkronisering klar: ");
        push_str(&mut m, summary);
        state.show_success(m.as_str());
    }
}

/// The error of one step of an upload.
#[derive(Debug, Clone, Copy, PartialEq, Eq, Structural)]
pub enum UploadStep {
    /// Making the target directory.
    Directory,
    /// Copying a file.
    Copy,
    /// Storing a document.
    Store,
}

/// Reports the error of a step of an upload.
pub fn upload_failed(state: &mut AppState, step: UploadStep, e: &str)
    ensures
        final(state).status_message matches Some(m) && m.status_type == StatusType::Error
            && m.text@ == (match step {
            UploadStep::Directory => "Kunde inte skapa katalog: "@,
            UploadStep::Copy => "Kunde inte kopiera fil: "@,
            UploadStep::Store => "Kunde inte spara dokument: "@,
        }) + e@,
{
    let mut m = match step {
        UploadStep::Directory => owned("Kunde inte skapa katalog: "),
        UploadStep::Copy => owned("Kunde inte kopiera fil: "),
        UploadStep::Store => owned("Kunde inte spara dokument: "),
    };
    push_str(&mut m, e);
    state.show_error(m.as_str());
}

} // verus!
