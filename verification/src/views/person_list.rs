//! The list of persons: its search filter, the order of the persons, and what a
//! click on a row does.

use vstd::prelude::*;
use vstd::string::*;
use vstd::view::View as _;
use std::collections::HashSet;
use crate::models::Person;
use crate::ordering::{
    is_stable_arrangement, lemma_opt_text_antisymmetric, lemma_opt_text_total,
    lemma_opt_text_transitive, opt_text, opt_text_gt, opt_text_le, sorted_by_key, stable_sort,
    SortKey,
};
use crate::state::AppState;
use crate::text::{push_decimal, push_str};
use crate::theme::Icons;
use crate::views::filters::{any_bound, DateBound, DateFilters};

verus! {

/// Persons stand by surname, then by first name; a missing name comes first.
impl SortKey for Person {
    open spec fn key_le(self, other: Self) -> bool {
        let (a, b) = (opt_text(self.surname), opt_text(other.surname));
        opt_text_le(a, b) && (opt_text_le(b, a) ==> opt_text_le(
            opt_text(self.firstname),
            opt_text(other.firstname),
        ))
    }

    proof fn lemma_key_total(a: Self, b: Self) {
        lemma_opt_text_total(opt_text(a.surname), opt_text(b.surname));
        lemma_opt_text_total(opt_text(a.firstname), opt_text(b.firstname));
    }

    proof fn lemma_key_transitive(a: Self, b: Self, c: Self) {
        let (sa, sb, sc) = (opt_text(a.surname), opt_text(b.surname), opt_text(c.surname));
        let (fa, fb, fc) = (opt_text(a.firstname), opt_text(b.firstname), opt_text(c.firstname));
        lemma_opt_text_transitive(sa, sb, sc);
        if opt_text_le(sc, sa) {
            lemma_opt_text_transitive(sb, sc, sa);
            lemma_opt_text_transitive(sc, sa, sb);
            lemma_opt_text_antisymmetric(sa, sb);
            lemma_opt_text_antisymmetric(sb, sc);
            lemma_opt_text_transitive(fa, fb, fc);
        }
    }

    fn key_gt(&self, other: &Self) -> (r: bool) {
        if opt_text_gt(&self.surname, &other.surname) {
            return true;
        }
        if opt_text_gt(&other.surname, &self.surname) {
            return false;
        }
        opt_text_gt(&self.firstname, &other.firstname)
    }
}

/// Persons are ordered by surname, as `Option<String>` orders them (a missing
/// surname first); where the surnames are equal, both missing included, the
/// first names decide in the same way.
pub proof fn law_person_order(a: Person, b: Person)
    ensures
        opt_text(a.surname) == opt_text(b.surname) ==> (a.key_le(b) == opt_text_le(
            opt_text(a.firstname),
            opt_text(b.firstname),
        )),
        opt_text(a.surname) != opt_text(b.surname) ==> (a.key_le(b) == opt_text_le(
            opt_text(a.surname),
            opt_text(b.surname),
        )),
{
    let (sa, sb) = (opt_text(a.surname), opt_text(b.surname));
    lemma_opt_text_total(sa, sb);
    if opt_text_le(sa, sb) && opt_text_le(sb, sa) {
        lemma_opt_text_antisymmetric(sa, sb);
    }
}

/// Which part of a person the search text is matched against.
#[derive(Debug, Clone, Copy, PartialEq, Eq, Structural)]
pub enum SearchField {
    Name,
    Firstname,
    Surname,
    Directory,
}

/// The label of a search field in the selector.
pub fn search_field_label(f: SearchField) -> (r: &'static str)
    ensures
        f == SearchField::Name ==> r@ == "Namn"@,
        f == SearchField::Firstname ==> r@ == "Förnamn"@,
        f == SearchField::Surname ==> r@ == "Efternamn"@,
        f == SearchField::Directory ==> r@ == "Katalog"@,
{
    match f {
        SearchField::Name => "Namn",
        SearchField::Firstname => "Förnamn",
        SearchField::Surname => "Efternamn",
        SearchField::Directory => "Katalog",
    }
}

/// The search of the person list.
pub struct PersonSearchFilter {
    pub query: String,
    pub search_field: SearchField,
    /// Living persons only (`Some(true)`), dead only (`Some(false)`), or all.
    pub filter_alive: Option<bool>,
    pub dates: DateFilters,
    pub only_bookmarked: bool,
    pub has_relations: Option<bool>,
    pub has_documents: Option<bool>,
    pub has_profile_image: Option<bool>,
}

/// A filter of the advanced panel is in use: a date bound, bookmarks only, or a
/// choice about relations, documents or profile image.
pub open spec fn advanced_in_use(f: PersonSearchFilter) -> bool {
    ||| any_bound(f.dates)
    ||| f.only_bookmarked
    ||| f.has_relations is Some
    ||| f.has_documents is Some
    ||| f.has_profile_image is Some
}

impl PersonSearchFilter {
    /// An empty search over names.
    pub fn new() -> (f: PersonSearchFilter)
        ensures
            f.query@ == Seq::<char>::empty(),
            f.search_field == SearchField::Name,
            f.filter_alive is None,
            crate::views::filters::is_clear(f.dates),
            !advanced_in_use(f),
    {
        let f = PersonSearchFilter {
            query: String::new(),
            search_field: SearchField::Name,
            filter_alive: None,
            dates: DateFilters::new(),
            only_bookmarked: false,
            has_relations: None,
            has_documents: None,
            has_profile_image: None,
        };
        proof {
            assert forall|b: DateBound| !(#[trigger] crate::views::filters::bound_date(f.dates, b)
                is Some) by {
                assert(crate::views::filters::bound_text(f.dates, b) == Seq::<char>::empty());
            }
        }
        f
    }

    /// Whether a filter of the advanced panel is in use.
    pub fn has_advanced_filters(&self) -> (r: bool)
        ensures
            r == advanced_in_use(*self),
    {
        self.dates.has_date_filters() || self.only_bookmarked || self.has_relations.is_some()
            || self.has_documents.is_some() || self.has_profile_image.is_some()
    }

    /// Clears the advanced panel; the search text, its field and the choice of
    /// living or dead stay.
    pub fn reset_advanced(&mut self)
        ensures
            !advanced_in_use(*final(self)),
            crate::views::filters::is_clear(final(self).dates),
            final(self).query == old(self).query,
            final(self).search_field == old(self).search_field,
            final(self).filter_alive == old(self).filter_alive,
    {
        self.dates.reset();
        self.only_bookmarked = false;
        self.has_relations = None;
        self.has_documents = None;
        self.has_profile_image = None;
        proof {
            assert forall|b: DateBound| !(#[trigger] crate::views::filters::bound_date(
                final(self).dates,
                b,
            ) is Some) by {
                assert(crate::views::filters::bound_text(final(self).dates, b)
                    == Seq::<char>::empty());
            }
        }
    }
}

/// The person list view.
pub struct PersonListView {
    pub filter: PersonSearchFilter,
    pub show_advanced_filters: bool,
    pub persons_cache: Vec<Person>,
    pub bookmarks_cache: HashSet<i64>,
    pub needs_refresh: bool,
    /// The media directory, where the profile images are.
    pub media_root: Option<String>,
}

/// The label of the person count.
pub open spec fn person_count_text(n: nat) -> Seq<char> {
    crate::text::decimal(n) + " personer"@
}

impl PersonListView {
    /// An empty list that loads on its first display.
    pub fn new() -> (v: PersonListView)
        ensures
            v.needs_refresh,
            !v.show_advanced_filters,
            v.persons_cache@.len() == 0,
            v.bookmarks_cache@ == Set::<i64>::empty(),
            v.media_root is None,
            !advanced_in_use(v.filter),
    {
        PersonListView {
            filter: PersonSearchFilter::new(),
            show_advanced_filters: false,
            persons_cache: Vec::new(),
            bookmarks_cache: HashSet::new(),
            needs_refresh: true,
            media_root: None,
        }
    }

    /// Asks for the list to be loaded again.
    pub fn mark_needs_refresh(&mut self)
        ensures
            final(self).needs_refresh,
            final(self).persons_cache == old(self).persons_cache,
    {
        self.needs_refresh = true;
    }

    /// Takes what was loaded: the persons ordered by surname and then first
    /// name (persons with equal names as they came), the bookmarked ids and the
    /// media directory.
    pub fn loaded(&mut self, persons: Vec<Person>, bookmarks: HashSet<i64>, media_root: Option<String>)
        ensures
            sorted_by_key(final(self).persons_cache@),
            exists|p: Seq<int>| is_stable_arrangement(persons@, final(self).persons_cache@, p),
            final(self).bookmarks_cache@ == bookmarks@,
            final(self).media_root == media_root,
            !final(self).needs_refresh,
    {
        let ghost given = persons@;
        let sorted = stable_sort(persons);
        proof {
            let p = choose|p: Seq<int>| is_stable_arrangement(given, sorted@, p);
            assert(is_stable_arrangement(given, sorted@, p));
        }
        self.persons_cache = sorted;
        self.bookmarks_cache = bookmarks;
        self.media_root = media_root;
        self.needs_refresh = false;
    }

    /// The search text was edited, or the search field, the choice of living or
    /// dead, or a choice of the advanced panel was changed: the list is loaded
    /// again.
    pub fn search_changed(&mut self)
        ensures
            final(self).needs_refresh,
            final(self).filter == old(self).filter,
    {
        self.needs_refresh = true;
    }

    /// Chooses living persons, dead persons or all.
    pub fn set_alive_filter(&mut self, v: Option<bool>)
        ensures
            final(self).filter.filter_alive == v,
            final(self).needs_refresh,
            final(self).filter.query == old(self).filter.query,
    {
        self.filter.filter_alive = v;
        self.needs_refresh = true;
    }

    /// A date field of the advanced panel was edited.
    pub fn edit_date(&mut self, bound: DateBound, text: String)
        ensures
            crate::views::filters::bound_text(final(self).filter.dates, bound) == text@,
            crate::views::filters::bound_date(final(self).filter.dates, bound)
                == crate::date::filter_date(text@),
            final(self).needs_refresh,
    {
        self.filter.dates.edit(bound, text);
        self.needs_refresh = true;
    }

    /// The reset button of the advanced panel.
    pub fn reset_advanced(&mut self)
        ensures
            !advanced_in_use(final(self).filter),
            final(self).needs_refresh,
            final(self).filter.query == old(self).filter.query,
    {
        self.filter.reset_advanced();
        self.needs_refresh = true;
    }

    /// Opens or closes the advanced panel.
    pub fn toggle_advanced(&mut self)
        ensures
            final(self).show_advanced_filters == !old(self).show_advanced_filters,
            final(self).filter == old(self).filter,
    {
        self.show_advanced_filters = !self.show_advanced_filters;
    }

    /// The label of the advanced-panel toggle: it tells whether filters are in
    /// use.
    pub fn advanced_label(&self) -> (r: String)
        ensures
            advanced_in_use(self.filter) ==> r@ == Icons::FILTER@ + " Filter aktiva"@,
            !advanced_in_use(self.filter) ==> r@ == Icons::FILTER@ + " Fler filter"@,
    {
        let mut t = crate::text::owned(Icons::FILTER);
        if self.filter.has_advanced_filters() {
            push_str(&mut t, " Filter aktiva");
        } else {
            push_str(&mut t, " Fler filter");
        }
        t
    }

    /// The number of persons listed.
    pub fn count_label(&self) -> (r: String)
        ensures
            r@ == person_count_text(self.persons_cache@.len()),
    {
        let mut t = String::new();
        push_decimal(&mut t, self.persons_cache.len() as u64);
        push_str(&mut t, " personer");
        t
    }

    /// Whether a person is bookmarked.
    pub fn is_bookmarked(&self, person: &Person) -> (r: bool)
        ensures
            r == (person.id matches Some(id) && self.bookmarks_cache@.contains(id)),
    {
        match person.id {
            Some(id) => self.bookmarks_cache.contains(&id),
            None => false,
        }
    }

    /// A click on a row selects the person, if the person is stored.  Returns
    /// whether a person was selected.
    pub fn person_clicked(state: &mut AppState, person: &Person) -> (r: bool)
        ensures
            r == person.id is Some,
            person.id matches Some(id) ==> *final(state) == (AppState {
                selected_person_id: Some(id),
                ..*old(state)
            }),
            person.id is None ==> *final(state) == *old(state),
    {
        match person.id {
            Some(id) => {
                state.selected_person_id = Some(id);
                true
            },
            None => false,
        }
    }

    /// The persons whose profile image is still to be loaded, in list order,
    /// with the image's path below the media directory: stored persons with a
    /// profile image whose id is not among `loaded`.
    pub fn profile_images_to_load(&self, loaded: &Vec<i64>) -> (r: Vec<(i64, String)>)
        ensures
            entries_view(r@) == load_list(self.persons_cache@, loaded@),
    {
        let mut r: Vec<(i64, String)> = Vec::new();
        let mut i: usize = 0;
        while i < self.persons_cache.len()
            invariant
                i <= self.persons_cache@.len(),
                entries_view(r@) == load_list(self.persons_cache@.subrange(0, i as int), loaded@),
            decreases self.persons_cache@.len() - i,
        {
            let ghost before = r@;
            proof {
                assert(self.persons_cache@.subrange(0, i + 1).drop_last()
                    =~= self.persons_cache@.subrange(0, i as int));
            }
            let person = &self.persons_cache[i];
            if let Some(id) = person.id {
                if !crate::lists::contains_id(loaded, id) {
                    if let Some(path) = &person.profile_image_path {
                        r.push((id, path.clone()));
                        assert(entries_view(r@) =~= entries_view(before).push((id, path@)));
                    }
                }
            }
            i = i + 1;
        }
        assert(self.persons_cache@.subrange(0, i as int) =~= self.persons_cache@);
        r
    }
}

/// The entries of a load list as ids and path characters.
pub open spec fn entries_view(r: Seq<(i64, String)>) -> Seq<(i64, Seq<char>)> {
    r.map_values(|e: (i64, String)| (e.0, e.1@))
}

/// The profile images to load for `persons`, in order.
pub open spec fn load_list(persons: Seq<Person>, loaded: Seq<i64>) -> Seq<(i64, Seq<char>)>
    decreases persons.len(),
{
    if persons.len() == 0 {
        Seq::empty()
    } else {
        let p = persons.last();
        let rest = load_list(persons.drop_last(), loaded);
        if wants_profile_image(p, loaded) {
            rest.push((p.id->0, p.profile_image_path->0@))
        } else {
            rest
        }
    }
}

/// A person whose profile image is to be loaded: stored, with a profile image,
/// and not loaded yet.
pub open spec fn wants_profile_image(p: Person, loaded: Seq<i64>) -> bool {
    &&& p.id matches Some(id) && !loaded.contains(id)
    &&& p.profile_image_path is Some
}

} // verus!
