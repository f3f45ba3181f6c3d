//! The task view over all persons: its filter, its counts, and which rows it
//! shows under which person heading.

use vstd::prelude::*;
use vstd::string::*;
use vstd::view::View as _;
use crate::models::PersonChecklistItem;
use crate::text::{push_decimal, push_str};
use crate::theme::Icons;
use crate::views::filters::{any_bound, DateBound, DateFilters};

verus! {

/// The filter of the task view.
pub struct ChecklistSearchFilter {
    /// Matched against the persons' names.
    pub query: String,
    /// Living persons only (`Some(true)`), dead only (`Some(false)`), or all.
    pub filter_alive: Option<bool>,
    pub dates: DateFilters,
}

/// A task found, with the name of its person.
pub struct ChecklistSearchResult {
    pub item: PersonChecklistItem,
    pub person_name: String,
}

/// The task view.
pub struct ChecklistSearchView {
    pub filter: ChecklistSearchFilter,
    pub results: Vec<ChecklistSearchResult>,
    pub needs_refresh: bool,
    pub show_completed: bool,
    pub show_advanced_filters: bool,
}

/// A row of the view: the position of a result, and whether a heading with the
/// person's name comes before it.
pub struct ResultRow {
    pub index: usize,
    pub person_heading: bool,
}

/// The number of completed tasks among the results.
pub open spec fn completed_count(results: Seq<ChecklistSearchResult>) -> nat
    decreases results.len(),
{
    if results.len() == 0 {
        0
    } else {
        completed_count(results.drop_last()) + if results.last().item.is_completed {
            1nat
        } else {
            0nat
        }
    }
}

/// The rows shown: completed tasks only when they are to be shown, and a
/// person heading wherever the person differs from the one of the row shown
/// before.  `last` is the person of the last row shown before `results`.
pub open spec fn shown_rows(results: Seq<ChecklistSearchResult>, show_completed: bool) -> Seq<(
    int,
    bool,
)>
    decreases results.len(),
{
    if results.len() == 0 {
        Seq::empty()
    } else {
        let rest = shown_rows(results.drop_last(), show_completed);
        let k = results.len() - 1;
        let r = results.last();
        if !show_completed && r.item.is_completed {
            rest
        } else {
            let heading = rest.len() == 0 || results[rest.last().0].item.person_id
                != r.item.person_id;
            rest.push((k, heading))
        }
    }
}

/// The rows as positions and heading flags.
pub open spec fn rows_view(rows: Seq<ResultRow>) -> Seq<(int, bool)> {
    rows.map_values(|r: ResultRow| (r.index as int, r.person_heading))
}

/// The counts line: `total uppgifter (completed klara, visible visas)`.
pub open spec fn stats_text(total: nat, completed: nat, visible: nat) -> Seq<char> {
    crate::text::decimal(total) + " uppgifter ("@ + crate::text::decimal(completed)
        + " klara, "@ + crate::text::decimal(visible) + " visas)"@
}

impl ChecklistSearchView {
    /// An empty view that loads on its first display.
    pub fn new() -> (v: ChecklistSearchView)
        ensures
            v.filter.query@ == Seq::<char>::empty(),
            v.filter.filter_alive is None,
            crate::views::filters::is_clear(v.filter.dates),
            v.results@.len() == 0,
            v.needs_refresh,
            !v.show_completed,
            !v.show_advanced_filters,
    {
        ChecklistSearchView {
            filter: ChecklistSearchFilter {
                query: String::new(),
                filter_alive: None,
                dates: DateFilters::new(),
            },
            results: Vec::new(),
            needs_refresh: true,
            show_completed: false,
            show_advanced_filters: false,
        }
    }

    /// Asks for the results to be loaded again.
    pub fn mark_needs_refresh(&mut self)
        ensures
            final(self).needs_refresh,
            final(self).results == old(self).results,
            final(self).filter == old(self).filter,
    {
        self.needs_refresh = true;
    }

    /// Takes the results of a search; the view is up to date.
    pub fn loaded(&mut self, results: Vec<ChecklistSearchResult>)
        ensures
            final(self).results == results,
            !final(self).needs_refresh,
            final(self).filter == old(self).filter,
            final(self).show_completed == old(self).show_completed,
    {
        self.results = results;
        self.needs_refresh = false;
    }

    /// Whether a date bound is set.
    pub fn has_date_filters(&self) -> (r: bool)
        ensures
            r == any_bound(self.filter.dates),
    {
        self.filter.dates.has_date_filters()
    }

    /// The clear button empties the search text; the search runs again.
    pub fn clear_query(&mut self)
        ensures
            final(self).filter.query@ == Seq::<char>::empty(),
            final(self).needs_refresh,
            final(self).filter.filter_alive == old(self).filter.filter_alive,
    {
        self.filter.query = String::new();
        self.needs_refresh = true;
    }

    /// Chooses living persons, dead persons or all; the search runs again.
    pub fn set_alive_filter(&mut self, v: Option<bool>)
        ensures
            final(self).filter.filter_alive == v,
            final(self).needs_refresh,
            final(self).filter.query == old(self).filter.query,
    {
        self.filter.filter_alive = v;
        self.needs_refresh = true;
    }

    /// The search text, or the choice of showing completed tasks, changed: the
    /// search runs again.
    pub fn search_changed(&mut self)
        ensures
            final(self).needs_refresh,
            final(self).filter == old(self).filter,
            final(self).show_completed == old(self).show_completed,
    {
        self.needs_refresh = true;
    }

    /// A date field was edited; the search runs again.
    pub fn edit_date(&mut self, bound: DateBound, text: String)
        ensures
            crate::views::filters::bound_text(final(self).filter.dates, bound) == text@,
            crate::views::filters::bound_date(final(self).filter.dates, bound)
                == crate::date::filter_date(text@),
            final(self).needs_refresh,
    {
        self.filter.dates.edit(bound, text);
        self.needs_refresh = true;
    }

    /// The reset button of the date panel clears every date field; the search
    /// runs again.
    pub fn reset_dates(&mut self)
        ensures
            crate::views::filters::is_clear(final(self).filter.dates),
            final(self).needs_refresh,
            final(self).filter.query == old(self).filter.query,
    {
        self.filter.dates.reset();
        self.needs_refresh = true;
    }

    /// Opens or closes the date panel.
    pub fn toggle_advanced(&mut self)
        ensures
            final(self).show_advanced_filters == !old(self).show_advanced_filters,
            final(self).filter == old(self).filter,
    {
        self.show_advanced_filters = !self.show_advanced_filters;
    }

    /// The label of the date-panel toggle: it tells whether date filters are in
    /// use.
    pub fn advanced_label(&self) -> (r: String)
        ensures
            any_bound(self.filter.dates) ==> r@ == Icons::FILTER@ + " Filter aktiva"@,
            !any_bound(self.filter.dates) ==> r@ == Icons::FILTER@ + " Fler filter"@,
    {
        let mut t = crate::text::owned(Icons::FILTER);
        if self.has_date_filters() {
            push_str(&mut t, " Filter aktiva");
        } else {
            push_str(&mut t, " Fler filter");
        }
        t
    }

    /// The number of completed tasks among the results.
    pub fn completed(&self) -> (r: usize)
        ensures
            r == completed_count(self.results@),
            r <= self.results@.len(),
    {
        let mut c: usize = 0;
        let mut i: usize = 0;
        while i < self.results.len()
            invariant
                i <= self.results@.len(),
                c == completed_count(self.results@.subrange(0, i as int)),
                c <= i,
            decreases self.results@.len() - i,
        {
            proof {
                assert(self.results@.subrange(0, i + 1).drop_last()
                    =~= self.results@.subrange(0, i as int));
            }
            if self.results[i].item.is_completed {
                c = c + 1;
            }
            i = i + 1;
        }
        assert(self.results@.subrange(0, i as int) =~= self.results@);
        c
    }

    /// The counts line: all results, completed ones, and the ones shown.
    pub fn stats_label(&self) -> (r: String)
        ensures
            completed_count(self.results@) <= self.results@.len(),
            r@ == stats_text(
                self.results@.len(),
                completed_count(self.results@),
                if self.show_completed {
                    self.results@.len()
                } else {
                    (self.results@.len() - completed_count(self.results@)) as nat
                },
            ),
    {
        let total = self.results.len();
        let completed = self.completed();
        let visible = if self.show_completed {
            total
        } else {
            total - completed
        };
        let mut t = String::new();
        push_decimal(&mut t, total as u64);
        push_str(&mut t, " uppgifter (");
        push_decimal(&mut t, completed as u64);
        push_str(&mut t, " klara, ");
        push_decimal(&mut t, visible as u64);
        push_str(&mut t, " visas)");
        t
    }

    /// The rows to show, in order.
    pub fn rows(&self) -> (r: Vec<ResultRow>)
        ensures
            rows_view(r@) == shown_rows(self.results@, self.show_completed),
    {
        let mut r: Vec<ResultRow> = Vec::new();
        let mut last_person: Option<i64> = None;
        let mut i: usize = 0;
        while i < self.results.len()
            invariant
                i <= self.results@.len(),
                rows_view(r@) == shown_rows(self.results@.subrange(0, i as int), self.show_completed),
                forall|j: int| 0 <= j < r@.len() ==> #[trigger] r@[j].index < i,
                r@.len() == 0 ==> last_person is None,
                r@.len() > 0 ==> last_person == Some(
                    self.results@[r@.last().index as int].item.person_id,
                ),
            decreases self.results@.len() - i,
        {
            let ghost before = r@;
            let ghost pre = self.results@.subrange(0, i + 1);
            proof {
                assert(pre.drop_last() =~= self.results@.subrange(0, i as int));
                assert(pre.last() == self.results@[i as int]);
                let rest = shown_rows(pre.drop_last(), self.show_completed);
                if rest.len() > 0 {
                    assert(rest.last() == rows_view(before).last());
                    assert(pre[rest.last().0] == self.results@[rest.last().0]);
                }
            }
            let item = &self.results[i].item;
            if self.show_completed || !item.is_completed {
                let heading = last_person != Some(item.person_id);
                last_person = Some(item.person_id);
                r.push(ResultRow { index: i, person_heading: heading });
                assert(rows_view(r@) =~= rows_view(before).push((i as int, heading)));
            }
            i = i + 1;
        }
        assert(self.results@.subrange(0, i as int) =~= self.results@);
        r
    }
}

} // verus!
