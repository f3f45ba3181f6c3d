//! The checklist of a person: open tasks first, each group in its sort order.

use vstd::prelude::*;
use vstd::string::*;
use vstd::view::View as _;
use crate::models::{ChecklistTemplateItem, PersonChecklistItem};
use crate::ordering::{is_stable_arrangement, sorted_by_key, stable_sort, SortKey};
use crate::state::AppState;
use crate::lists::contains_id;
use crate::text::{owned, push_str};

verus! {

/// Open tasks come before completed ones; within each group the sort order
/// decides.
impl SortKey for PersonChecklistItem {
    open spec fn key_le(self, other: Self) -> bool {
        ||| (!self.is_completed && other.is_completed)
        ||| (self.is_completed == other.is_completed && self.sort_order <= other.sort_order)
    }

    proof fn lemma_key_total(a: Self, b: Self) {
    }

    proof fn lemma_key_transitive(a: Self, b: Self, c: Self) {
    }

    fn key_gt(&self, other: &Self) -> (r: bool) {
        if self.is_completed != other.is_completed {
            self.is_completed
        } else {
            self.sort_order > other.sort_order
        }
    }
}

/// Open tasks stand before completed ones; among tasks of the same state the
/// sort order decides, lower first.
pub proof fn law_checklist_item_order(a: PersonChecklistItem, b: PersonChecklistItem)
    ensures
        !a.is_completed && b.is_completed ==> a.key_le(b) && !b.key_le(a),
        a.is_completed == b.is_completed ==> (a.key_le(b) == (a.sort_order <= b.sort_order)),
{
}

/// The checklist panel of a person.
pub struct ChecklistPanel {
    pub items: Vec<PersonChecklistItem>,
    /// Completed and total tasks.
    pub progress: (i64, i64),
    pub needs_refresh: bool,
    pub person_id: Option<i64>,
    pub show_add_form: bool,
    pub available_tasks: Vec<ChecklistTemplateItem>,
    pub editing_item_id: Option<i64>,
    pub edit_title: String,
}

/// A panel that shows nothing yet and loads on its first display.
pub open spec fn is_new_panel(p: ChecklistPanel) -> bool {
    &&& p.items@.len() == 0
    &&& p.progress == (0i64, 0i64)
    &&& p.needs_refresh
    &&& p.person_id is None
    &&& !p.show_add_form
    &&& p.available_tasks@.len() == 0
    &&& p.editing_item_id is None
    &&& p.edit_title@ == Seq::<char>::empty()
}

/// The progress shown beside the heading: `completed/total`.
pub open spec fn progress_text(completed: int, total: int) -> Seq<char> {
    crate::text::signed_decimal(completed) + seq!['/'] + crate::text::signed_decimal(total)
}

/// Whether a task of the template list is already on the person's checklist.
pub open spec fn already_added(task_id: Option<i64>, existing: Seq<i64>) -> bool {
    match task_id {
        Some(id) => existing.contains(id),
        None => false,
    }
}

/// The message after a task was added: its title in quotes, then "tillagd".
pub open spec fn task_added_text(title: Seq<char>) -> Seq<char> {
    seq!['"'] + title + "\" tillagd"@
}

impl ChecklistPanel {
    /// A panel that loads on its first display.
    pub fn new() -> (p: ChecklistPanel)
        ensures
            is_new_panel(p),
    {
        ChecklistPanel {
            items: Vec::new(),
            progress: (0, 0),
            needs_refresh: true,
            person_id: None,
            show_add_form: false,
            available_tasks: Vec::new(),
            editing_item_id: None,
            edit_title: String::new(),
        }
    }

    /// Asks for the checklist to be loaded again.
    pub fn mark_needs_refresh(&mut self)
        ensures
            *final(self) == (ChecklistPanel { needs_refresh: true, ..*old(self) }),
    {
        self.needs_refresh = true;
    }

    /// Whether the checklist is to be loaded before showing it for `person_id`.
    pub fn needs_reload(&self, person_id: i64) -> (r: bool)
        ensures
            r == (self.needs_refresh || self.person_id != Some(person_id)),
    {
        self.needs_refresh || self.person_id != Some(person_id)
    }

    /// Takes what was loaded for `person_id`: the items are ordered open tasks
    /// first, then by sort order, tasks of equal rank as they came.
    pub fn loaded(
        &mut self,
        person_id: i64,
        items: Vec<PersonChecklistItem>,
        progress: (i64, i64),
        available_tasks: Vec<ChecklistTemplateItem>,
    )
        ensures
            final(self).person_id == Some(person_id),
            sorted_by_key(final(self).items@),
            exists|p: Seq<int>| is_stable_arrangement(items@, final(self).items@, p),
            final(self).progress == progress,
            final(self).available_tasks == available_tasks,
            !final(self).needs_refresh,
            final(self).show_add_form == old(self).show_add_form,
            final(self).editing_item_id == old(self).editing_item_id,
            final(self).edit_title == old(self).edit_title,
    {
        let ghost given = items@;
        let sorted = stable_sort(items);
        proof {
            let p = choose|p: Seq<int>| is_stable_arrangement(given, sorted@, p);
            assert(is_stable_arrangement(given, sorted@, p));
        }
        self.person_id = Some(person_id);
        self.items = sorted;
        self.progress = progress;
        self.available_tasks = available_tasks;
        self.needs_refresh = false;
    }

    /// The progress beside the heading, once there are tasks.
    pub fn progress_label(&self) -> (r: Option<String>)
        ensures
            self.progress.1 > 0 ==> (r matches Some(t) && t@ == progress_text(
                self.progress.0 as int,
                self.progress.1 as int,
            )),
            self.progress.1 <= 0 ==> r is None,
    {
        let (completed, total) = self.progress;
        if total > 0 {
            let mut t = String::new();
            crate::text::push_signed_decimal(&mut t, completed);
            crate::text::push_char(&mut t, '/');
            crate::text::push_signed_decimal(&mut t, total);
            Some(t)
        } else {
            None
        }
    }

    /// Whether every task is done (the progress is then shown in green).
    pub fn all_done(&self) -> (r: bool)
        ensures
            r == (self.progress.0 == self.progress.1),
    {
        self.progress.0 == self.progress.1
    }

    /// The add button opens and closes the list of tasks to add; it is shown only
    /// where there are tasks to choose from.
    pub fn toggle_add_form(&mut self)
        ensures
            old(self).available_tasks@.len() > 0 ==> final(self).show_add_form
                == !old(self).show_add_form,
            old(self).available_tasks@.len() == 0 ==> final(self).show_add_form
                == old(self).show_add_form,
            final(self).items == old(self).items,
            final(self).available_tasks == old(self).available_tasks,
    {
        if self.available_tasks.len() > 0 {
            self.show_add_form = !self.show_add_form;
        }
    }

    /// The positions, in order, of the template tasks that the person does not
    /// have yet; `existing` holds the template ids already on the checklist.
    pub fn tasks_to_offer(&self, existing: &Vec<i64>) -> (r: Vec<usize>)
        ensures
            forall|j: int, k: int| 0 <= j < k < r@.len() ==> r@[j] < r@[k],
            forall|j: int|
                0 <= j < r@.len() ==> #[trigger] r@[j] < self.available_tasks@.len()
                    && !already_added(self.available_tasks@[r@[j] as int].id, existing@),
            forall|k: int|
                0 <= k < self.available_tasks@.len() && !already_added(
                    #[trigger] self.available_tasks@[k].id,
                    existing@,
                ) ==> r@.contains(k as usize),
    {
        let mut r: Vec<usize> = Vec::new();
        let mut i: usize = 0;
        while i < self.available_tasks.len()
            invariant
                i <= self.available_tasks@.len(),
                forall|j: int, k: int| 0 <= j < k < r@.len() ==> r@[j] < r@[k],
                forall|j: int| 0 <= j < r@.len() ==> #[trigger] r@[j] < i,
                forall|j: int|
                    0 <= j < r@.len() ==> !already_added(
                        self.available_tasks@[#[trigger] r@[j] as int].id,
                        existing@,
                    ),
                forall|k: int|
                    0 <= k < i && !already_added(#[trigger] self.available_tasks@[k].id, existing@)
                        ==> r@.contains(k as usize),
            decreases self.available_tasks@.len() - i,
        {
            let added = match self.available_tasks[i].id {
                Some(id) => contains_id(existing, id),
                None => false,
            };
            if !added {
                let ghost before = r@;
                r.push(i);
                proof {
                    assert forall|k: int|
                        0 <= k < i + 1 && !already_added(
                            #[trigger] self.available_tasks@[k].id,
                            existing@,
                        ) implies r@.contains(k as usize) by {
                        if k < i {
                            assert(before.contains(k as usize));
                            let w = choose|w: int| 0 <= w < before.len() && before[w] == k as usize;
                            assert(r@[w] == k as usize);
                        } else {
                            assert(r@[before.len() as int] == i);
                        }
                    }
                }
            }
            i = i + 1;
        }
        r
    }

    /// The checklist item that adding a template task creates: open, with the
    /// task's title and sort order, linked to the task.
    pub fn item_from_template(person_id: i64, task: &ChecklistTemplateItem) -> (item:
        PersonChecklistItem)
        ensures
            item.id is None,
            item.person_id == person_id,
            item.template_item_id == task.id,
            item.title@ == task.title@,
            !item.is_completed,
            item.sort_order == task.sort_order,
    {
        PersonChecklistItem {
            id: None,
            person_id,
            template_item_id: task.id,
            title: task.title.clone(),
            is_completed: false,
            sort_order: task.sort_order,
        }
    }

    /// After a task was added: a success message naming it, and a reload.
    pub fn task_added(&mut self, state: &mut AppState, title: &str)
        ensures
            final(self).needs_refresh,
            final(self).items == old(self).items,
            final(state).status_message matches Some(m) && m.text@ == task_added_text(title@)
                && m.status_type == crate::state::StatusType::Success,
    {
        let mut m = owned("\"");
        push_str(&mut m, title);
        push_str(&mut m, "\" tillagd");
        proof {
            reveal_strlit("\"");
            assert(m@ =~= task_added_text(title@));
        }
        state.show_success(m.as_str());
        self.needs_refresh = true;
    }

    /// Whether the item is the one whose title is being edited.
    pub fn is_editing(&self, item: &PersonChecklistItem) -> (r: bool)
        ensures
            r == (self.editing_item_id == item.id),
    {
        self.editing_item_id == item.id
    }

    /// Starts editing the title of an item.
    pub fn start_edit(&mut self, item: &PersonChecklistItem)
        ensures
            final(self).editing_item_id == item.id,
            final(self).edit_title@ == item.title@,
            final(self).items == old(self).items,
    {
        self.editing_item_id = item.id;
        self.edit_title = item.title.clone();
    }

    /// Stops editing, whether the title was saved or not.
    pub fn stop_edit(&mut self)
        ensures
            final(self).editing_item_id is None,
            final(self).items == old(self).items,
            final(self).edit_title == old(self).edit_title,
    {
        self.editing_item_id = None;
    }

    /// After a change was stored (a toggle, an edit, a removal): the success
    /// message if there is one, and a reload.
    pub fn changed(&mut self, state: &mut AppState, message: Option<&str>)
        ensures
            final(self).needs_refresh,
            final(self).items == old(self).items,
            message is None ==> *final(state) == *old(state),
            message matches Some(t) ==> (final(state).status_message matches Some(m) && m.text@
                == t@ && m.status_type == crate::state::StatusType::Success),
    {
        if let Some(t) = message {
            state.show_success(t);
        }
        self.needs_refresh = true;
    }
}

} // verus!
