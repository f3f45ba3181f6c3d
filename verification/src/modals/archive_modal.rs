//! The dialog that archives a project: it asks the user to type OK first.

use vstd::prelude::*;
use vstd::string::*;
use vstd::view::View as _;
use crate::state::{AppState, View};
use crate::text;
use crate::text::{owned, push_decimal, push_str, trim};

verus! {

/// The confirmation texts that enable archiving: `ok` in any ASCII case.
pub open spec fn is_ok_confirmation(t: Seq<char>) -> bool {
    t == seq!['o', 'k'] || t == seq!['O', 'k'] || t == seq!['o', 'K'] || t == seq!['O', 'K']
}

/// The state of the archive dialog.
pub struct ArchiveModal {
    pub confirm_text: String,
    pub error: Option<String>,
}

/// The message shown when archiving fails with `e`.
pub open spec fn archive_error_text(e: Seq<char>) -> Seq<char> {
    "Arkivering misslyckades: "@ + e
}

/// The message shown after archiving `count` files into `path`.
pub open spec fn archive_done_text(count: nat, path: Seq<char>) -> Seq<char> {
    "Projekt arkiverat! "@ + text::decimal(count) + " filer sparade i "@ + path
}

impl ArchiveModal {
    /// An empty dialog.
    pub fn new() -> (m: ArchiveModal)
        ensures
            m.confirm_text@ == Seq::<char>::empty(),
            m.error is None,
    {
        ArchiveModal { confirm_text: String::new(), error: None }
    }

    /// Whether the typed confirmation, without surrounding white space, is `ok`
    /// in any ASCII case.
    pub fn can_archive(&self) -> (r: bool)
        ensures
            r == is_ok_confirmation(text::trimmed(self.confirm_text@)),
    {
        let t = trim(self.confirm_text.as_str());
        if t.unicode_len() != 2 {
            return false;
        }
        let a = t.get_char(0);
        let b = t.get_char(1);
        let r = (a == 'o' || a == 'O') && (b == 'k' || b == 'K');
        proof {
            if r {
                assert(t@ =~= seq![a, b]);
            }
        }
        r
    }

    /// Closes the dialog: the typed text and the error are dropped.
    pub fn close(&mut self)
        ensures
            final(self).confirm_text@ == Seq::<char>::empty(),
            final(self).error is None,
    {
        self.confirm_text = String::new();
        self.error = None;
    }

    /// Keeps the dialog open with the error that archiving failed with.
    pub fn archive_failed(&mut self, e: &str)
        ensures
            final(self).confirm_text@ == old(self).confirm_text@,
            final(self).error matches Some(m) && m@ == archive_error_text(e@),
    {
        let mut m = owned("Arkivering misslyckades: ");
        push_str(&mut m, e);
        self.error = Some(m);
    }

    /// After a successful archive: the setup wizard is shown, with a success
    /// message naming the number of files and the archive.
    pub fn archive_done(state: &mut AppState, file_count: u64, archive_path: &str)
        ensures
            final(state).current_view == View::SetupWizard,
            final(state).status_message matches Some(m) && m.text@ == archive_done_text(
                file_count as nat,
                archive_path@,
            ) && m.status_type == crate::state::StatusType::Success,
    {
        state.navigate(View::SetupWizard);
        let mut m = owned("Projekt arkiverat! ");
        push_decimal(&mut m, file_count);
        push_str(&mut m, " filer sparade i ");
        push_str(&mut m, archive_path);
        state.show_success(m.as_str());
    }
}

} // verus!
