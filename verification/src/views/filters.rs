//! The date filters that the search views share: four fields, each read as a
//! date when edited.

use vstd::prelude::*;
use vstd::view::View as _;
use crate::date::{filter_date, parse_filter_date, Date};

verus! {

/// One of the four date bounds of a search.
#[derive(Debug, Clone, Copy, PartialEq, Eq, Structural)]
pub enum DateBound {
    BirthAfter,
    BirthBefore,
    DeathAfter,
    DeathBefore,
}

/// The date bounds of a search, with the text typed in each field.
pub struct DateFilters {
    pub birth_after: Option<Date>,
    pub birth_before: Option<Date>,
    pub death_after: Option<Date>,
    pub death_before: Option<Date>,
    pub birth_after_str: String,
    pub birth_before_str: String,
    pub death_after_str: String,
    pub death_before_str: String,
}

/// An optional date as year, month and day.
pub open spec fn date_opt(d: Option<Date>) -> Option<(int, int, int)> {
    match d {
        Some(x) => Some(x@),
        None => None,
    }
}

/// The date of a bound, as year, month and day.
pub open spec fn bound_date(f: DateFilters, b: DateBound) -> Option<(int, int, int)> {
    match b {
        DateBound::BirthAfter => date_opt(f.birth_after),
        DateBound::BirthBefore => date_opt(f.birth_before),
        DateBound::DeathAfter => date_opt(f.death_after),
        DateBound::DeathBefore => date_opt(f.death_before),
    }
}

/// The text typed for a bound.
pub open spec fn bound_text(f: DateFilters, b: DateBound) -> Seq<char> {
    match b {
        DateBound::BirthAfter => f.birth_after_str@,
        DateBound::BirthBefore => f.birth_before_str@,
        DateBound::DeathAfter => f.death_after_str@,
        DateBound::DeathBefore => f.death_before_str@,
    }
}

/// No bound is set and every field is empty.
pub open spec fn is_clear(f: DateFilters) -> bool {
    forall|b: DateBound| bound_date(f, b) is None && #[trigger] bound_text(f, b) == Seq::<char>::empty()
}

/// Some date bound is set.
pub open spec fn any_bound(f: DateFilters) -> bool {
    exists|b: DateBound| #[trigger] bound_date(f, b) is Some
}

impl DateFilters {
    /// No bounds and empty fields.
    pub fn new() -> (f: DateFilters)
        ensures
            is_clear(f),
    {
        DateFilters {
            birth_after: None,
            birth_before: None,
            death_after: None,
            death_before: None,
            birth_after_str: String::new(),
            birth_before_str: String::new(),
            death_after_str: String::new(),
            death_before_str: String::new(),
        }
    }

    /// Removes every bound and empties the fields.
    pub fn reset(&mut self)
        ensures
            is_clear(*final(self)),
    {
        *self = DateFilters::new();
    }

    /// Whether some date bound is set.
    pub fn has_date_filters(&self) -> (r: bool)
        ensures
            r == any_bound(*self),
    {
        let r = self.birth_after.is_some() || self.birth_before.is_some()
            || self.death_after.is_some() || self.death_before.is_some();
        proof {
            if self.birth_after.is_some() {
                assert(bound_date(*self, DateBound::BirthAfter) is Some);
            }
            if self.birth_before.is_some() {
                assert(bound_date(*self, DateBound::BirthBefore) is Some);
            }
            if self.death_after.is_some() {
                assert(bound_date(*self, DateBound::DeathAfter) is Some);
            }
            if self.death_before.is_some() {
                assert(bound_date(*self, DateBound::DeathBefore) is Some);
            }
        }
        r
    }

    /// The field of `bound` was edited to `text`: the bound becomes the date
    /// that the text reads as, or none.  The other bounds stay.
    pub fn edit(&mut self, bound: DateBound, text: String)
        ensures
            bound_text(*final(self), bound) == text@,
            bound_date(*final(self), bound) == filter_date(text@),
            forall|b: DateBound|
                b != bound ==> #[trigger] bound_date(*final(self), b) == bound_date(*old(self), b)
                    && bound_text(*final(self), b) == bound_text(*old(self), b),
    {
        let date = parse_filter_date(text.as_str());
        match bound {
            DateBound::BirthAfter => {
                self.birth_after = date;
                self.birth_after_str = text;
            },
            DateBound::BirthBefore => {
                self.birth_before = date;
                self.birth_before_str = text;
            },
            DateBound::DeathAfter => {
                self.death_after = date;
                self.death_after_str = text;
            },
            DateBound::DeathBefore => {
                self.death_before = date;
                self.death_before_str = text;
            },
        }
    }
}

/// The choice of the three-way filters (alive or dead, has relations, ...):
/// "Alla" for no choice, "Har" and "Saknar" for the two others.
pub fn tri_state_text(v: Option<bool>) -> (r: &'static str)
    ensures
        v is None ==> r@ == "Alla"@,
        v == Some(true) ==> r@ == "Har"@,
        v == Some(false) ==> r@ == "Saknar"@,
{
    match v {
        None => "Alla",
        Some(true) => "Har",
        Some(false) => "Saknar",
    }
}

} // verus!
