//! The view of the task templates: adding, renaming and removing the tasks
//! that can be given to persons.

use vstd::prelude::*;
use vstd::string::*;
use vstd::view::View as _;
use crate::models::ChecklistTemplateItem;
use crate::state::{AppState, StatusType};
use crate::text::{owned, str_is_blank, trim};

verus! {

/// The name of the template that is made when none exists.
pub const DEFAULT_TEMPLATE_NAME: &'static str = "Standard";

/// The task templates view.
pub struct ChecklistTemplatesView {
    pub items: Vec<ChecklistTemplateItem>,
    pub template_id: Option<i64>,
    pub needs_refresh: bool,
    pub new_item_title: String,
    pub editing_item_id: Option<i64>,
    pub edit_item_title: String,
}

impl ChecklistTemplatesView {
    /// An empty view that loads on its first display.
    pub fn new() -> (v: ChecklistTemplatesView)
        ensures
            v.items@.len() == 0,
            v.template_id is None,
            v.needs_refresh,
            v.new_item_title@ == Seq::<char>::empty(),
            v.editing_item_id is None,
            v.edit_item_title@ == Seq::<char>::empty(),
    {
        ChecklistTemplatesView {
            items: Vec::new(),
            template_id: None,
            needs_refresh: true,
            new_item_title: String::new(),
            editing_item_id: None,
            edit_item_title: String::new(),
        }
    }

    /// Asks for the tasks to be loaded again.
    pub fn mark_needs_refresh(&mut self)
        ensures
            *final(self) == (ChecklistTemplatesView { needs_refresh: true, ..*old(self) }),
    {
        self.needs_refresh = true;
    }

    /// Takes the template in use and its tasks; without a template there are no
    /// tasks.
    pub fn loaded(&mut self, template_id: Option<i64>, items: Vec<ChecklistTemplateItem>)
        ensures
            final(self).template_id == template_id,
            template_id is Some ==> final(self).items == items,
            template_id is None ==> final(self).items@.len() == 0,
            !final(self).needs_refresh,
            final(self).new_item_title == old(self).new_item_title,
    {
        self.template_id = template_id;
        if template_id.is_some() {
            self.items = items;
        } else {
            self.items = Vec::new();
        }
        self.needs_refresh = false;
    }

    /// The task that the add button creates: the typed title without the
    /// surrounding white space, in the template in use, first in order.  None
    /// where the title is blank or no template is in use.
    pub fn item_to_add(&self) -> (r: Option<ChecklistTemplateItem>)
        ensures
            crate::text::is_blank(self.new_item_title@) || self.template_id is None ==> r is None,
            !crate::text::is_blank(self.new_item_title@) && self.template_id is Some ==> (
            r matches Some(item) && item.id is None && item.template_id == self.template_id->0
                && item.title@ == crate::text::trimmed(self.new_item_title@) && item.sort_order
                == 0),
    {
        if str_is_blank(self.new_item_title.as_str()) {
            return None;
        }
        match self.template_id {
            Some(template_id) => Some(
                ChecklistTemplateItem {
                    id: None,
                    template_id,
                    title: owned(trim(self.new_item_title.as_str())),
                    sort_order: 0,
                },
            ),
            None => None,
        }
    }

    /// After a task was added: the field empties and the list reloads.
    pub fn item_added(&mut self, state: &mut AppState)
        ensures
            final(self).new_item_title@ == Seq::<char>::empty(),
            final(self).needs_refresh,
            final(state).status_message matches Some(m) && m.text@ == "Uppgift tillagd"@
                && m.status_type == StatusType::Success,
    {
        self.new_item_title = String::new();
        self.needs_refresh = true;
        state.show_success("Uppgift tillagd");
    }

    /// Whether the task is the one being renamed.
    pub fn is_editing(&self, item: &ChecklistTemplateItem) -> (r: bool)
        ensures
            r == (self.editing_item_id == item.id),
    {
        self.editing_item_id == item.id
    }

    /// Starts renaming a task, from its title.
    pub fn start_edit(&mut self, item: &ChecklistTemplateItem)
        ensures
            final(self).editing_item_id == item.id,
            final(self).edit_item_title@ == item.title@,
            final(self).items == old(self).items,
    {
        self.editing_item_id = item.id;
        self.edit_item_title = item.title.clone();
    }

    /// The renamed task that the save button stores: the typed title without the
    /// surrounding white space, the task's id and sort order.  None where the
    /// title is blank, the task is not stored, or no template is in use.
    pub fn edited_item(&self, item: &ChecklistTemplateItem) -> (r: Option<ChecklistTemplateItem>)
        ensures
            crate::text::is_blank(self.edit_item_title@) || item.id is None
                || self.template_id is None ==> r is None,
            !crate::text::is_blank(self.edit_item_title@) && item.id is Some
                && self.template_id is Some ==> (r matches Some(u) && u.id == item.id
                && u.template_id == self.template_id->0 && u.title@ == crate::text::trimmed(
                self.edit_item_title@,
            ) && u.sort_order == item.sort_order),
    {
        if str_is_blank(self.edit_item_title.as_str()) {
            return None;
        }
        match (item.id, self.template_id) {
            (Some(id), Some(template_id)) => Some(
                ChecklistTemplateItem {
                    id: Some(id),
                    template_id,
                    title: owned(trim(self.edit_item_title.as_str())),
                    sort_order: item.sort_order,
                },
            ),
            _ => None,
        }
    }

    /// After a rename was stored.
    pub fn item_updated(&mut self, state: &mut AppState)
        ensures
            final(self).editing_item_id is None,
            final(self).needs_refresh,
            final(state).status_message matches Some(m) && m.text@ == "Uppgift uppdaterad"@
                && m.status_type == StatusType::Success,
    {
        self.editing_item_id = None;
        self.needs_refresh = true;
        state.show_success("Uppgift uppdaterad");
    }

    /// The cancel button of a rename.
    pub fn cancel_edit(&mut self)
        ensures
            final(self).editing_item_id is None,
            final(self).items == old(self).items,
            final(self).edit_item_title == old(self).edit_item_title,
    {
        self.editing_item_id = None;
    }

    /// After a task was removed.
    pub fn item_deleted(&mut self, state: &mut AppState)
        ensures
            final(self).needs_refresh,
            final(self).editing_item_id == old(self).editing_item_id,
            final(state).status_message matches Some(m) && m.text@ == "Uppgift borttagen"@
                && m.status_type == StatusType::Success,
    {
        self.needs_refresh = true;
        state.show_success("Uppgift borttagen");
    }
}

/// The template to use: the first of the listed templates, if any; else a new
/// one is to be made with the default name (`None`).
pub fn first_template(template_ids: &Vec<Option<i64>>) -> (r: Option<Option<i64>>)
    ensures
        template_ids@.len() == 0 ==> r is None,
        template_ids@.len() > 0 ==> r == Some(template_ids@[0]),
{
    if template_ids.len() > 0 {
        Some(template_ids[0])
    } else {
        None
    }
}

} // verus!
