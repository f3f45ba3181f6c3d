//! The dashboard: the counts it shows and the labels of its lists.

use vstd::prelude::*;
use vstd::string::*;
use vstd::view::View as _;
use crate::text::{owned, push_signed_decimal, push_str, trim};

verus! {

/// The dashboard view.
pub struct DashboardView {
    pub person_count: i64,
    pub document_count: i64,
    pub image_count: i64,
    /// The total size of the documents, in bytes.
    pub total_size: i64,
    pub tasks_completed: i64,
    pub tasks_total: i64,
    pub needs_refresh: bool,
}

/// The unit a size is shown in.
#[derive(Debug, Clone, Copy, PartialEq, Eq, Structural)]
pub enum SizeUnit {
    Bytes,
    Kilobytes,
    Megabytes,
    Gigabytes,
}

pub const KB: i64 = 1024;
pub const MB: i64 = 1048576;
pub const GB: i64 = 1073741824;

/// The largest unit that the size reaches (binary units).
pub fn size_unit(bytes: i64) -> (u: SizeUnit)
    ensures
        bytes >= GB ==> u == SizeUnit::Gigabytes,
        MB <= bytes < GB ==> u == SizeUnit::Megabytes,
        KB <= bytes < MB ==> u == SizeUnit::Kilobytes,
        bytes < KB ==> u == SizeUnit::Bytes,
{
    if bytes >= GB {
        SizeUnit::Gigabytes
    } else if bytes >= MB {
        SizeUnit::Megabytes
    } else if bytes >= KB {
        SizeUnit::Kilobytes
    } else {
        SizeUnit::Bytes
    }
}

/// A count as the dashboard writes it.
pub fn count_text(n: i64) -> (r: String)
    ensures
        r@ == crate::text::signed_decimal(n as int),
{
    let mut t = String::new();
    push_signed_decimal(&mut t, n);
    t
}

/// The tasks card: `remaining / total`.
pub open spec fn tasks_text(completed: int, total: int) -> Seq<char> {
    crate::text::signed_decimal(total - completed) + " / "@ + crate::text::signed_decimal(total)
}

/// The name of the person beside a recent task or document: trimmed, in
/// brackets.
pub open spec fn owner_text(name: Seq<char>) -> Seq<char> {
    seq!['('] + crate::text::trimmed(name) + seq![')']
}

impl DashboardView {
    /// A dashboard with zero counts that loads on its first display.
    pub fn new() -> (v: DashboardView)
        ensures
            v.person_count == 0 && v.document_count == 0 && v.image_count == 0,
            v.total_size == 0 && v.tasks_completed == 0 && v.tasks_total == 0,
            v.needs_refresh,
    {
        DashboardView {
            person_count: 0,
            document_count: 0,
            image_count: 0,
            total_size: 0,
            tasks_completed: 0,
            tasks_total: 0,
            needs_refresh: true,
        }
    }

    /// Asks for the counts to be read again.
    pub fn mark_needs_refresh(&mut self)
        ensures
            *final(self) == (DashboardView { needs_refresh: true, ..*old(self) }),
    {
        self.needs_refresh = true;
    }

    /// Takes the counts read from the database.
    pub fn stats_loaded(
        &mut self,
        person_count: i64,
        document_count: i64,
        image_count: i64,
        total_size: i64,
        progress: (i64, i64),
    )
        ensures
            *final(self) == (DashboardView {
                person_count,
                document_count,
                image_count,
                total_size,
                tasks_completed: progress.0,
                tasks_total: progress.1,
                needs_refresh: false,
            }),
    {
        self.person_count = person_count;
        self.document_count = document_count;
        self.image_count = image_count;
        self.total_size = total_size;
        self.tasks_completed = progress.0;
        self.tasks_total = progress.1;
        self.needs_refresh = false;
    }

    /// The tasks card: the tasks left and all tasks.
    pub fn tasks_label(&self) -> (r: String)
        requires
            i64::MIN <= self.tasks_total - self.tasks_completed <= i64::MAX,
        ensures
            r@ == tasks_text(self.tasks_completed as int, self.tasks_total as int),
    {
        let remaining = self.tasks_total - self.tasks_completed;
        let mut t = String::new();
        push_signed_decimal(&mut t, remaining);
        push_str(&mut t, " / ");
        push_signed_decimal(&mut t, self.tasks_total);
        t
    }
}

/// The name of a person beside a recent task or document.
pub fn owner_label(name: &str) -> (r: String)
    ensures
        r@ == owner_text(name@),
{
    let mut t = owned("(");
    push_str(&mut t, trim(name));
    push_str(&mut t, ")");
    proof {
        reveal_strlit("(");
        reveal_strlit(")");
        assert(t@ =~= owner_text(name@));
    }
    t
}

} // verus!
