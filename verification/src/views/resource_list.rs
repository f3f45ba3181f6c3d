//! The list of resources: its search and type filter.

use vstd::prelude::*;
use vstd::string::*;
use vstd::view::View as _;
use crate::models::{Resource, ResourceType};
use crate::text::{owned, trim};

verus! {

/// The resource list view.
pub struct ResourceListView {
    pub search_query: String,
    pub type_filter: Option<i64>,
    pub resources_cache: Vec<(Resource, ResourceType)>,
    pub types_cache: Vec<ResourceType>,
    pub needs_refresh: bool,
}

/// The name of the first type with the given id, if any.
pub open spec fn type_name_of(types: Seq<ResourceType>, id: i64) -> Option<Seq<char>>
    decreases types.len(),
{
    if types.len() == 0 {
        None
    } else if types[0].id == Some(id) {
        Some(types[0].name@)
    } else {
        type_name_of(types.drop_first(), id)
    }
}

/// The label of the type filter: the chosen type's name ("Alla" where it is not
/// listed), or "Alla typer".
pub open spec fn type_filter_text(types: Seq<ResourceType>, filter: Option<i64>) -> Seq<char> {
    match filter {
        None => "Alla typer"@,
        Some(id) => match type_name_of(types, id) {
            Some(n) => n,
            None => "Alla"@,
        },
    }
}

impl ResourceListView {
    /// An empty list that loads on its first display.
    pub fn new() -> (v: ResourceListView)
        ensures
            v.search_query@ == Seq::<char>::empty(),
            v.type_filter is None,
            v.resources_cache@.len() == 0,
            v.types_cache@.len() == 0,
            v.needs_refresh,
    {
        ResourceListView {
            search_query: String::new(),
            type_filter: None,
            resources_cache: Vec::new(),
            types_cache: Vec::new(),
            needs_refresh: true,
        }
    }

    /// Asks for the list to be loaded again.
    pub fn mark_needs_refresh(&mut self)
        ensures
            *final(self) == (ResourceListView { needs_refresh: true, ..*old(self) }),
    {
        self.needs_refresh = true;
    }

    /// The text searched for: the search field without surrounding white space.
    pub fn query(&self) -> (r: String)
        ensures
            r@ == crate::text::trimmed(self.search_query@),
    {
        owned(trim(self.search_query.as_str()))
    }

    /// Takes what a search read; a part that could not be read keeps what was
    /// there.
    pub fn loaded(
        &mut self,
        types: Option<Vec<ResourceType>>,
        results: Option<Vec<(Resource, ResourceType)>>,
    )
        ensures
            types matches Some(t) ==> final(self).types_cache == t,
            types is None ==> final(self).types_cache == old(self).types_cache,
            results matches Some(r) ==> final(self).resources_cache == r,
            results is None ==> final(self).resources_cache == old(self).resources_cache,
            !final(self).needs_refresh,
            final(self).type_filter == old(self).type_filter,
    {
        if let Some(t) = types {
            self.types_cache = t;
        }
        if let Some(r) = results {
            self.resources_cache = r;
        }
        self.needs_refresh = false;
    }

    /// Chooses the type to list, or all types; the search runs again.
    pub fn set_type_filter(&mut self, filter: Option<i64>)
        ensures
            final(self).type_filter == filter,
            final(self).needs_refresh,
            final(self).search_query == old(self).search_query,
    {
        self.type_filter = filter;
        self.needs_refresh = true;
    }

    /// The label of the type filter.
    pub fn type_filter_label(&self) -> (r: String)
        ensures
            r@ == type_filter_text(self.types_cache@, self.type_filter),
    {
        match self.type_filter {
            None => owned("Alla typer"),
            Some(id) => {
                let mut i: usize = 0;
                assert(self.types_cache@.skip(0) =~= self.types_cache@);
                while i < self.types_cache.len()
                    invariant
                        i <= self.types_cache@.len(),
                        self.type_filter == Some(id),
                        type_name_of(self.types_cache@, id) == type_name_of(
                            self.types_cache@.skip(i as int),
                            id,
                        ),
                    decreases self.types_cache@.len() - i,
                {
                    proof {
                        assert(self.types_cache@.skip(i as int).drop_first()
                            =~= self.types_cache@.skip(i + 1));
                    }
                    if self.types_cache[i].id == Some(id) {
                        let ghost rest = self.types_cache@.skip(i as int);
                        assert(rest.len() > 0 && rest[0] == self.types_cache@[i as int]);
                        assert(type_name_of(rest, id) == Some(self.types_cache@[i as int].name@));
                        let name = self.types_cache[i].name.clone();
                        return name;
                    }
                    i = i + 1;
                }
                owned("Alla")
            },
        }
    }

    /// A click on a row or a name opens the resource, if it is stored.
    pub fn row_clicked(resource: &Resource) -> (r: Option<i64>)
        ensures
            r == resource.id,
    {
        resource.id
    }
}

} // verus!
