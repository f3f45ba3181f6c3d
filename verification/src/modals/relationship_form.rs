//! The form that relates the current person to another person.

use vstd::prelude::*;
use vstd::string::*;
use vstd::view::View as _;
use crate::models::{Person, RelationshipType};
use crate::text;
use crate::text::{owned, push_str, str_contains, to_lowercase};

verus! {

/// Why a relationship cannot be created.
#[derive(Debug, Clone, Copy, PartialEq, Eq, Structural)]
pub enum RelationshipFormError {
    NoPerson,
    NoType,
    AlreadyRelated,
}

/// The text shown for an error.
pub open spec fn relationship_error_text(e: RelationshipFormError) -> Seq<char> {
    match e {
        RelationshipFormError::NoPerson => "Ingen person vald"@,
        RelationshipFormError::NoType => "Ingen relationstyp vald"@,
        RelationshipFormError::AlreadyRelated => "Relation finns redan mellan dessa personer"@,
    }
}

impl RelationshipFormError {
    /// The text shown for this error.
    pub fn message(&self) -> (r: String)
        ensures
            r@ == relationship_error_text(*self),
    {
        match self {
            RelationshipFormError::NoPerson => owned("Ingen person vald"),
            RelationshipFormError::NoType => owned("Ingen relationstyp vald"),
            RelationshipFormError::AlreadyRelated => owned("Relation finns redan mellan dessa personer"),
        }
    }
}

/// A relationship to store: the person `person_id` has the relationship type
/// toward the person `related_person_id`.
#[derive(Debug, Clone, Copy, PartialEq, Eq, Structural)]
pub struct NewRelationship {
    pub person_id: i64,
    pub related_person_id: i64,
    pub relationship_type: RelationshipType,
}

/// The state of the relationship form.
pub struct RelationshipFormModal {
    pub persons_cache: Vec<Person>,
    pub selected_other_person_id: Option<i64>,
    pub selected_relationship_type: Option<RelationshipType>,
    pub search_query: String,
    pub error_message: Option<String>,
    pub needs_refresh: bool,
}

/// Whether a person is offered in the list: not the current person, and with
/// the search text (in lower case) in the lower-case full name or directory
/// name, or with no search text.
pub open spec fn is_listed_spec(
    person_id: Option<i64>,
    current_person_id: i64,
    full_name: Seq<char>,
    directory_name: Seq<char>,
    query: Seq<char>,
) -> bool {
    &&& person_id != Some(current_person_id)
    &&& (query.len() == 0 || text::occurs_in(text::lowercase(query), text::lowercase(full_name))
        || text::occurs_in(text::lowercase(query), text::lowercase(directory_name)))
}

/// The sentence that explains a relationship type for the current person.
pub open spec fn description_text(t: RelationshipType, name: Seq<char>) -> Seq<char> {
    match t {
        RelationshipType::Parent => "Den valda personen är förälder till "@ + name,
        RelationshipType::Child => "Den valda personen är barn till "@ + name,
        RelationshipType::Spouse => "Den valda personen är gift med "@ + name,
        RelationshipType::Sibling => "Den valda personen är syskon med "@ + name,
    }
}

impl RelationshipFormModal {
    /// An empty form whose persons are still to be loaded.
    pub fn new() -> (m: RelationshipFormModal)
        ensures
            m.persons_cache@.len() == 0,
            m.selected_other_person_id is None,
            m.selected_relationship_type is None,
            m.search_query@ == Seq::<char>::empty(),
            m.error_message is None,
            m.needs_refresh,
    {
        RelationshipFormModal {
            persons_cache: Vec::new(),
            selected_other_person_id: None,
            selected_relationship_type: None,
            search_query: String::new(),
            error_message: None,
            needs_refresh: true,
        }
    }

    /// Empties the form; the persons are to be loaded again.
    pub fn reset(&mut self)
        ensures
            final(self).selected_other_person_id is None,
            final(self).selected_relationship_type is None,
            final(self).search_query@ == Seq::<char>::empty(),
            final(self).error_message is None,
            final(self).needs_refresh,
            final(self).persons_cache == old(self).persons_cache,
    {
        self.selected_other_person_id = None;
        self.selected_relationship_type = None;
        self.search_query = String::new();
        self.error_message = None;
        self.needs_refresh = true;
    }

    /// Whether a person with the given id, full name and directory name is
    /// offered under the current search text.
    pub fn is_listed(
        &self,
        person_id: Option<i64>,
        current_person_id: i64,
        full_name: &str,
        directory_name: &str,
    ) -> (r: bool)
        ensures
            r == is_listed_spec(
                person_id,
                current_person_id,
                full_name@,
                directory_name@,
                self.search_query@,
            ),
    {
        if person_id == Some(current_person_id) {
            return false;
        }
        if self.search_query.as_str().unicode_len() == 0 {
            return true;
        }
        let query = to_lowercase(self.search_query.as_str());
        let name = to_lowercase(full_name);
        if str_contains(name.as_str(), query.as_str()) {
            return true;
        }
        let dir = to_lowercase(directory_name);
        str_contains(dir.as_str(), query.as_str())
    }

    /// Whether both a person and a relationship type are chosen.
    pub fn can_save(&self) -> (r: bool)
        ensures
            r == (self.selected_other_person_id is Some && self.selected_relationship_type is Some),
    {
        self.selected_other_person_id.is_some() && self.selected_relationship_type.is_some()
    }

    /// The chosen person and relationship type, or which is missing (the person
    /// is checked first).
    pub fn selection(&self) -> (r: Result<(i64, RelationshipType), RelationshipFormError>)
        ensures
            match (self.selected_other_person_id, self.selected_relationship_type) {
                (None, _) => r == Err::<(i64, RelationshipType), RelationshipFormError>(
                    RelationshipFormError::NoPerson,
                ),
                (Some(_), None) => r == Err::<(i64, RelationshipType), RelationshipFormError>(
                    RelationshipFormError::NoType,
                ),
                (Some(p), Some(t)) => r == Ok::<(i64, RelationshipType), RelationshipFormError>(
                    (p, t),
                ),
            },
    {
        let p = match self.selected_other_person_id {
            Some(p) => p,
            None => {
                return Err(RelationshipFormError::NoPerson);
            },
        };
        match self.selected_relationship_type {
            Some(t) => Ok((p, t)),
            None => Err(RelationshipFormError::NoType),
        }
    }

    /// The relationship to store between the current person and the chosen
    /// one, given whether the two are already related: the chosen person has
    /// the chosen type toward the current person.
    pub fn relationship_to_create(
        &self,
        current_person_id: i64,
        already_related: bool,
    ) -> (r: Result<NewRelationship, RelationshipFormError>)
        ensures
            match (self.selected_other_person_id, self.selected_relationship_type) {
                (None, _) => r == Err::<NewRelationship, RelationshipFormError>(
                    RelationshipFormError::NoPerson,
                ),
                (Some(_), None) => r == Err::<NewRelationship, RelationshipFormError>(
                    RelationshipFormError::NoType,
                ),
                (Some(p), Some(t)) => if already_related {
                    r == Err::<NewRelationship, RelationshipFormError>(
                        RelationshipFormError::AlreadyRelated,
                    )
                } else {
                    r == Ok::<NewRelationship, RelationshipFormError>(
                        NewRelationship {
                            person_id: p,
                            related_person_id: current_person_id,
                            relationship_type: t,
                        },
                    )
                },
            },
    {
        let (p, t) = match self.selection() {
            Ok(x) => x,
            Err(e) => {
                return Err(e);
            },
        };
        if already_related {
            return Err(RelationshipFormError::AlreadyRelated);
        }
        Ok(NewRelationship { person_id: p, related_person_id: current_person_id, relationship_type: t })
    }

    /// The sentence that explains the chosen type for the person named
    /// `current_name`.
    pub fn description(t: RelationshipType, current_name: &str) -> (r: String)
        ensures
            r@ == description_text(t, current_name@),
    {
        let mut m = match t {
            RelationshipType::Parent => owned("Den valda personen är förälder till "),
            RelationshipType::Child => owned("Den valda personen är barn till "),
            RelationshipType::Spouse => owned("Den valda personen är gift med "),
            RelationshipType::Sibling => owned("Den valda personen är syskon med "),
        };
        push_str(&mut m, current_name);
        m
    }

    /// Shows why saving failed.
    pub fn save_failed(&mut self, message: &str)
        ensures
            final(self).error_message matches Some(m) && m@ == message@,
            final(self).selected_other_person_id == old(self).selected_other_person_id,
            final(self).selected_relationship_type == old(self).selected_relationship_type,
    {
        self.error_message = Some(owned(message));
    }
}

/// The current person is never offered as the other person.
pub proof fn law_current_person_not_listed(
    current_person_id: i64,
    full_name: Seq<char>,
    directory_name: Seq<char>,
    query: Seq<char>,
)
    ensures
        !is_listed_spec(Some(current_person_id), current_person_id, full_name, directory_name, query),
{
}

/// With no search text every other person is offered.
pub proof fn law_empty_search_lists_all(
    person_id: Option<i64>,
    current_person_id: i64,
    full_name: Seq<char>,
    directory_name: Seq<char>,
)
    requires
        person_id != Some(current_person_id),
    ensures
        is_listed_spec(person_id, current_person_id, full_name, directory_name, Seq::empty()),
{
}

} // verus!
