//! The records of the genealogy database that the decision logic reads.

use vstd::prelude::*;
use crate::date::Date;

verus! {

/// How another person relates to a person.
#[derive(Debug, Clone, Copy, PartialEq, Eq, Structural)]
pub enum RelationshipType {
    Parent,
    Child,
    Spouse,
    Sibling,
}

/// A person of the family tree, as stored in the database.
pub struct Person {
    pub id: Option<i64>,
    pub firstname: Option<String>,
    pub surname: Option<String>,
    pub birth_date: Option<Date>,
    pub death_date: Option<Date>,
    pub age: Option<i32>,
    pub directory_name: String,
    pub profile_image_path: Option<String>,
}

/// A kind of document, with the directory its files go to.
pub struct DocumentType {
    pub id: Option<i64>,
    pub name: String,
    pub target_directory: String,
    pub default_filename: Option<String>,
    pub description: Option<String>,
}

/// A kind of resource (a church, an archive, a farm and the like).
pub struct ResourceType {
    pub id: Option<i64>,
    pub name: String,
    pub directory_name: String,
}

/// A task of a person's checklist.
pub struct PersonChecklistItem {
    pub id: Option<i64>,
    pub person_id: i64,
    pub template_item_id: Option<i64>,
    pub title: String,
    pub is_completed: bool,
    pub sort_order: i32,
}

/// A predefined task that can be given to persons.
pub struct ChecklistTemplateItem {
    pub id: Option<i64>,
    pub template_id: i64,
    pub title: String,
    pub sort_order: i32,
}

/// A resource (a church, an archive, a farm and the like).  Its coordinates,
/// which are floating-point numbers, are kept by the code that shows them.
pub struct Resource {
    pub id: Option<i64>,
    pub name: String,
    pub resource_type_id: i64,
    pub information: Option<String>,
    pub comment: Option<String>,
    pub directory_name: String,
}

} // verus!
