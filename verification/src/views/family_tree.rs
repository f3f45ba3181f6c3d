//! The family tree: which person it is built around, how many generations it
//! spans, what a click on a node does, and the years shown under a name.  The
//! drawing, with its pan and zoom, is done by the code that paints.

use vstd::prelude::*;
use vstd::string::*;
use vstd::view::View as _;
use crate::date::{format_year, year_text, Date};
use crate::models::Person;
use crate::state::AppState;
use crate::text::{owned, push_str};

verus! {

/// The fewest and the most generations the tree spans.
pub const MIN_GENERATIONS: i32 = 1;
pub const MAX_GENERATIONS: i32 = 5;

/// The family tree's choice of person and depth.
pub struct FamilyTreeState {
    /// The person the tree is built around.
    pub focus_person_id: Option<i64>,
    pub generations: i32,
    pub needs_refresh: bool,
}

/// The years under a name: birth and death years, either alone with its
/// prefix, or nothing.
pub open spec fn years_text(birth: Option<(int, int, int)>, death: Option<(int, int, int)>) -> Seq<
    char,
> {
    match (birth, death) {
        (Some(b), Some(d)) => year_text(b.0) + " - "@ + year_text(d.0),
        (Some(b), None) => "f. "@ + year_text(b.0),
        (None, Some(d)) => "d. "@ + year_text(d.0),
        (None, None) => Seq::empty(),
    }
}

/// An optional date as year, month and day.
pub open spec fn date_of(d: Option<Date>) -> Option<(int, int, int)> {
    match d {
        Some(x) => Some(x@),
        None => None,
    }
}

/// The years shown under a person's name in the tree.
pub fn format_years(person: &Person) -> (r: String)
    ensures
        r@ == years_text(date_of(person.birth_date), date_of(person.death_date)),
{
    match (&person.birth_date, &person.death_date) {
        (Some(b), Some(d)) => {
            let mut t = format_year(b);
            push_str(&mut t, " - ");
            let dy = format_year(d);
            push_str(&mut t, dy.as_str());
            t
        },
        (Some(b), None) => {
            let mut t = owned("f. ");
            let by = format_year(b);
            push_str(&mut t, by.as_str());
            t
        },
        (None, Some(d)) => {
            let mut t = owned("d. ");
            let dy = format_year(d);
            push_str(&mut t, dy.as_str());
            t
        },
        (None, None) => String::new(),
    }
}

/// The depth that the generations field takes: the typed value within its
/// range.
pub open spec fn clamp_generations(g: int) -> int {
    if g < MIN_GENERATIONS {
        MIN_GENERATIONS as int
    } else if g > MAX_GENERATIONS {
        MAX_GENERATIONS as int
    } else {
        g
    }
}

impl FamilyTreeState {
    /// Three generations around no one yet; the tree builds on its first
    /// display.
    pub fn new() -> (s: FamilyTreeState)
        ensures
            s.focus_person_id is None,
            s.generations == 3,
            s.needs_refresh,
    {
        FamilyTreeState { focus_person_id: None, generations: 3, needs_refresh: true }
    }

    /// Asks for the tree to be built again.
    pub fn mark_needs_refresh(&mut self)
        ensures
            *final(self) == (FamilyTreeState { needs_refresh: true, ..*old(self) }),
    {
        self.needs_refresh = true;
    }

    /// Whether the tree is to be built before showing it for `person_id`.
    pub fn needs_rebuild(&self, person_id: i64) -> (r: bool)
        ensures
            r == (self.needs_refresh || self.focus_person_id != Some(person_id)),
    {
        self.needs_refresh || self.focus_person_id != Some(person_id)
    }

    /// The tree was built around `person_id`.
    pub fn built(&mut self, person_id: i64)
        ensures
            *final(self) == (FamilyTreeState {
                focus_person_id: Some(person_id),
                needs_refresh: false,
                ..*old(self)
            }),
    {
        self.focus_person_id = Some(person_id);
        self.needs_refresh = false;
    }

    /// The generations field was changed; the tree is built again.
    pub fn set_generations(&mut self, generations: i32)
        ensures
            final(self).generations == clamp_generations(generations as int),
            final(self).needs_refresh,
            final(self).focus_person_id == old(self).focus_person_id,
    {
        self.generations = if generations < MIN_GENERATIONS {
            MIN_GENERATIONS
        } else if generations > MAX_GENERATIONS {
            MAX_GENERATIONS
        } else {
            generations
        };
        self.needs_refresh = true;
    }

    /// Centres the tree on another person.  Returns whether it moved (the view
    /// is then recentred).
    pub fn set_person(&mut self, person_id: i64) -> (moved: bool)
        ensures
            moved == (old(self).focus_person_id != Some(person_id)),
            moved ==> *final(self) == (FamilyTreeState {
                focus_person_id: Some(person_id),
                needs_refresh: true,
                ..*old(self)
            }),
            !moved ==> *final(self) == *old(self),
    {
        if self.focus_person_id != Some(person_id) {
            self.focus_person_id = Some(person_id);
            self.needs_refresh = true;
            true
        } else {
            false
        }
    }

    /// A click on the canvas: a double click on a node opens that person; a
    /// click on a node other than the tree's centre centres the tree on it.
    /// Returns whether the view is recentred.
    pub fn canvas_clicked(
        &mut self,
        state: &mut AppState,
        tree_focus: Option<i64>,
        double_clicked: Option<i64>,
        clicked: Option<i64>,
    ) -> (recentre: bool)
        ensures
            double_clicked matches Some(p) ==> !recentre && *final(self) == *old(self)
                && *final(state) == (AppState {
                selected_person_id: Some(p),
                current_view: crate::state::View::PersonDetail,
                ..*old(state)
            }),
            double_clicked is None ==> *final(state) == *old(state),
            double_clicked is None && clicked is Some && tree_focus != clicked ==> recentre
                && *final(self) == (FamilyTreeState {
                focus_person_id: clicked,
                needs_refresh: true,
                ..*old(self)
            }),
            double_clicked is None && (clicked is None || tree_focus == clicked) ==> !recentre
                && *final(self) == *old(self),
    {
        if let Some(pid) = double_clicked {
            state.navigate_to_person(pid);
            false
        } else if let Some(pid) = clicked {
            if tree_focus != Some(pid) {
                self.focus_person_id = Some(pid);
                self.needs_refresh = true;
                true
            } else {
                false
            }
        } else {
            false
        }
    }
}

} // verus!
