//! The setup wizard: media directory, then backup directory, then done.

use vstd::prelude::*;
use vstd::string::*;
use vstd::view::View as _;
use crate::state::{AppState, StatusType, View};
use crate::text::{owned, push_str, str_is_blank, trim};

verus! {

/// The steps of the wizard, in order.
#[derive(Debug, Clone, Copy, PartialEq, Eq, Structural)]
pub enum WizardStep {
    Media,
    Backup,
    Done,
}

/// The setup wizard.
pub struct SetupWizardView {
    pub step: WizardStep,
    pub media_path: String,
    pub backup_path: String,
    pub needs_refresh: bool,
    pub error_message: Option<String>,
}

/// The step before `s`; the first step has none and stays.
pub open spec fn step_before(s: WizardStep) -> WizardStep {
    match s {
        WizardStep::Backup => WizardStep::Media,
        WizardStep::Done => WizardStep::Backup,
        WizardStep::Media => WizardStep::Media,
    }
}

/// The step after `s`; the last step has none and stays.
pub open spec fn step_after(s: WizardStep) -> WizardStep {
    match s {
        WizardStep::Media => WizardStep::Backup,
        WizardStep::Backup => WizardStep::Done,
        WizardStep::Done => WizardStep::Done,
    }
}

/// Why storing the configuration failed.
#[derive(Debug, Clone, Copy, PartialEq, Eq, Structural)]
pub enum SaveFailure {
    /// The configuration could not be stored.
    Store,
    /// The directories could not be made.
    Directories,
}

impl SetupWizardView {
    /// The first step, with empty paths; the stored paths load on the first
    /// display.
    pub fn new() -> (v: SetupWizardView)
        ensures
            v.step == WizardStep::Media,
            v.media_path@ == Seq::<char>::empty(),
            v.backup_path@ == Seq::<char>::empty(),
            v.needs_refresh,
            v.error_message is None,
    {
        SetupWizardView {
            step: WizardStep::Media,
            media_path: String::new(),
            backup_path: String::new(),
            needs_refresh: true,
            error_message: None,
        }
    }

    /// Takes the stored paths, where there is a stored configuration.
    pub fn config_loaded(&mut self, paths: Option<(String, String)>)
        ensures
            paths matches Some(p) ==> final(self).media_path == p.0 && final(self).backup_path
                == p.1,
            paths is None ==> final(self).media_path == old(self).media_path
                && final(self).backup_path == old(self).backup_path,
            !final(self).needs_refresh,
            final(self).step == old(self).step,
    {
        if let Some((media, backup)) = paths {
            self.media_path = media;
            self.backup_path = backup;
        }
        self.needs_refresh = false;
    }

    /// The title of the current step.
    pub fn step_title(&self) -> (r: &'static str)
        ensures
            self.step == WizardStep::Media ==> r@ == "Steg 1: Media-katalog"@,
            self.step == WizardStep::Backup ==> r@ == "Steg 2: Backup-katalog"@,
            self.step == WizardStep::Done ==> r@ == "Steg 3: Klar"@,
    {
        match self.step {
            WizardStep::Media => "Steg 1: Media-katalog",
            WizardStep::Backup => "Steg 2: Backup-katalog",
            WizardStep::Done => "Steg 3: Klar",
        }
    }

    /// The back button, shown after the first step.
    pub fn shows_back(&self) -> (r: bool)
        ensures
            r == (self.step != WizardStep::Media),
    {
        self.step != WizardStep::Media
    }

    /// The back button: the step before, without an error.
    pub fn back(&mut self)
        requires
            old(self).step != WizardStep::Media,
        ensures
            final(self).step == step_before(old(self).step),
            final(self).error_message is None,
            final(self).media_path == old(self).media_path,
            final(self).backup_path == old(self).backup_path,
    {
        self.error_message = None;
        self.step = match self.step {
            WizardStep::Backup => WizardStep::Media,
            WizardStep::Done => WizardStep::Backup,
            WizardStep::Media => WizardStep::Media,
        };
    }

    /// The next button of the first step: a media directory is needed.
    pub fn next(&mut self)
        requires
            old(self).step == WizardStep::Media,
        ensures
            crate::text::is_blank(old(self).media_path@) ==> final(self).step == WizardStep::Media
                && (final(self).error_message matches Some(m) && m@
                == "Välj en media-katalog först."@),
            !crate::text::is_blank(old(self).media_path@) ==> final(self).step
                == step_after(old(self).step) && final(self).error_message is None,
            final(self).media_path == old(self).media_path,
            final(self).backup_path == old(self).backup_path,
    {
        if str_is_blank(self.media_path.as_str()) {
            self.error_message = Some(owned("Välj en media-katalog först."));
        } else {
            self.error_message = None;
            self.step = WizardStep::Backup;
        }
    }

    /// The finish button of the backup step: a backup directory is needed
    /// before the configuration is stored.  Returns whether to store it.
    pub fn finish_requested(&mut self) -> (store: bool)
        requires
            old(self).step == WizardStep::Backup,
        ensures
            store == !crate::text::is_blank(old(self).backup_path@),
            !store ==> (final(self).error_message matches Some(m) && m@
                == "Välj en backup-katalog först."@),
            store ==> final(self).error_message == old(self).error_message,
            final(self).step == old(self).step,
            final(self).media_path == old(self).media_path,
            final(self).backup_path == old(self).backup_path,
    {
        if str_is_blank(self.backup_path.as_str()) {
            self.error_message = Some(owned("Välj en backup-katalog först."));
            false
        } else {
            true
        }
    }

    /// The configuration to store: both paths without surrounding white space.
    pub fn config_to_save(&self) -> (r: (String, String))
        ensures
            r.0@ == crate::text::trimmed(self.media_path@),
            r.1@ == crate::text::trimmed(self.backup_path@),
    {
        (owned(trim(self.media_path.as_str())), owned(trim(self.backup_path.as_str())))
    }

    /// Storing the configuration failed; the error stays in the wizard.
    pub fn save_failed(&mut self, failure: SaveFailure, e: &str)
        ensures
            failure == SaveFailure::Store ==> (final(self).error_message matches Some(m) && m@
                == "Kunde inte spara: "@ + e@),
            failure == SaveFailure::Directories ==> (final(self).error_message matches Some(m)
                && m@ == "Kunde inte skapa kataloger: "@ + e@),
            final(self).step == old(self).step,
    {
        let mut m = match failure {
            SaveFailure::Store => owned("Kunde inte spara: "),
            SaveFailure::Directories => owned("Kunde inte skapa kataloger: "),
        };
        push_str(&mut m, e);
        self.error_message = Some(m);
    }

    /// The configuration of the backup step was stored: the wizard is done.
    pub fn finished(&mut self, state: &mut AppState)
        requires
            old(self).step == WizardStep::Backup,
        ensures
            final(self).step == step_after(old(self).step),
            final(self).error_message is None,
            final(state).status_message matches Some(m) && m.text@ == "Setup klar"@
                && m.status_type == StatusType::Success,
    {
        self.error_message = None;
        self.step = WizardStep::Done;
        state.show_success("Setup klar");
    }

    /// After the last step was stored again: to the dashboard.
    pub fn go_to_dashboard(state: &mut AppState)
        ensures
            *final(state) == (AppState { current_view: View::Dashboard, ..*old(state) }),
    {
        state.navigate(View::Dashboard);
    }

    /// After the last step was stored again: to the GEDCOM import.
    pub fn open_gedcom_import(state: &mut AppState)
        ensures
            *final(state) == (AppState { show_gedcom_import: true, ..*old(state) }),
    {
        state.show_gedcom_import = true;
    }

    /// After the last step was stored again: to the backups, to restore one.
    pub fn go_to_backups(state: &mut AppState)
        ensures
            *final(state) == (AppState { current_view: View::Backup, ..*old(state) }),
    {
        state.navigate(View::Backup);
    }
}

/// Going back undoes going forward: from every step but the last, the step
/// before the next one is the step itself.
pub proof fn law_back_undoes_next(s: WizardStep)
    requires
        s != WizardStep::Done,
    ensures
        step_before(step_after(s)) == s,
{
}

/// Going forward undoes going back: from every step but the first, the step
/// after the one before is the step itself.
pub proof fn law_next_undoes_back(s: WizardStep)
    requires
        s != WizardStep::Media,
    ensures
        step_after(step_before(s)) == s,
{
}

} // verus!
