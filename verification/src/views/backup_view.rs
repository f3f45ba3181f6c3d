//! The backup view: creating, deleting and restoring backups, and the messages
//! each outcome gives.

use vstd::prelude::*;
use vstd::string::*;
use vstd::view::View as _;
use crate::state::{AppState, StatusType};
use crate::text::{owned, push_decimal, push_str};

verus! {

/// What the backup view is doing (`Idle`: nothing).
#[derive(Debug, Clone, Copy, PartialEq, Eq, Structural)]
pub enum BackupOperation {
    Idle,
    Creating,
    Restoring,
    Previewing,
}

/// A backup file, as the list shows it.
pub struct BackupInfo {
    pub filename: String,
    pub path: String,
    /// The size, written for display.
    pub size_text: String,
    pub date: Option<String>,
}

/// What a backup holds, read before restoring it.
pub struct RestorePreview {
    pub file_count: u64,
    /// The total size, written for display.
    pub size_text: String,
    pub has_database: bool,
    pub has_media: bool,
}

/// What a restore did.
pub struct RestoreResult {
    pub files_restored: u64,
    pub database_restored: bool,
}

/// The backup view.
pub struct BackupView {
    pub backups: Vec<BackupInfo>,
    /// The path of the backup chosen for restoring.
    pub selected_backup: Option<String>,
    pub restore_preview: Option<RestorePreview>,
    pub operation: BackupOperation,
    pub error: Option<String>,
    pub confirm_restore: bool,
    /// Restore the database.
    pub restore_db: bool,
    /// Restore the media files.
    pub restore_media: bool,
    pub needs_refresh: bool,
}

/// The message after a backup was made.
pub open spec fn created_text(file_count: nat, size_text: Seq<char>) -> Seq<char> {
    "Backup skapad! "@ + crate::text::decimal(file_count) + " filer, "@ + size_text
}

/// The message after a restore.
pub open spec fn restored_text(r: (nat, bool)) -> Seq<char> {
    crate::text::decimal(r.0) + " filer återställda"@ + if r.1 {
        ". Databasen återställd - starta om applikationen för full effekt."@
    } else {
        Seq::<char>::empty()
    }
}

/// The view as a restore leaves it: no restore pending and the list to reload.
pub open spec fn restore_closed(v: BackupView) -> bool {
    &&& v.operation == BackupOperation::Idle
    &&& !v.confirm_restore
    &&& v.selected_backup is None
    &&& v.restore_preview is None
    &&& v.needs_refresh
}

impl BackupView {
    /// A view that lists the backups on its first display, with both parts of a
    /// restore chosen.
    pub fn new() -> (v: BackupView)
        ensures
            v.backups@.len() == 0,
            v.selected_backup is None,
            v.restore_preview is None,
            v.operation == BackupOperation::Idle,
            v.error is None,
            !v.confirm_restore,
            v.restore_db,
            v.restore_media,
            v.needs_refresh,
    {
        BackupView {
            backups: Vec::new(),
            selected_backup: None,
            restore_preview: None,
            operation: BackupOperation::Idle,
            error: None,
            confirm_restore: false,
            restore_db: true,
            restore_media: true,
            needs_refresh: true,
        }
    }

    /// Asks for the list of backups to be read again.
    pub fn mark_needs_refresh(&mut self)
        ensures
            *final(self) == (BackupView { needs_refresh: true, ..*old(self) }),
    {
        self.needs_refresh = true;
    }

    /// Takes the backups listed; the list is up to date.
    pub fn backups_loaded(&mut self, backups: Vec<BackupInfo>)
        ensures
            final(self).backups == backups,
            !final(self).needs_refresh,
            final(self).selected_backup == old(self).selected_backup,
    {
        self.backups = backups;
        self.needs_refresh = false;
    }

    /// The create button: a backup is being made and the last error goes.
    pub fn start_create(&mut self)
        ensures
            final(self).operation == BackupOperation::Creating,
            final(self).error is None,
            final(self).selected_backup == old(self).selected_backup,
    {
        self.operation = BackupOperation::Creating;
        self.error = None;
    }

    /// The outcome of making a backup: its file count and size, or the error.
    pub fn backup_created(&mut self, state: &mut AppState, result: Result<(u64, String), String>)
        ensures
            final(self).operation == BackupOperation::Idle,
            match result {
                Ok((n, size)) => final(state).status_message matches Some(m) && m.text@
                    == created_text(n as nat, size@) && m.status_type == StatusType::Success
                    && final(self).needs_refresh && final(self).error == old(self).error,
                Err(e) => final(self).error matches Some(m) && m@ == "Kunde inte skapa backup: "@
                    + e@ && *final(state) == *old(state) && final(self).needs_refresh
                    == old(self).needs_refresh,
            },
    {
        match result {
            Ok((n, size)) => {
                let mut m = owned("Backup skapad! ");
                push_decimal(&mut m, n);
                push_str(&mut m, " filer, ");
                push_str(&mut m, size.as_str());
                state.show_success(m.as_str());
                self.needs_refresh = true;
            },
            Err(e) => {
                let mut m = owned("Kunde inte skapa backup: ");
                push_str(&mut m, e.as_str());
                self.error = Some(m);
            },
        }
        self.operation = BackupOperation::Idle;
    }

    /// The outcome of deleting a backup.
    pub fn backup_deleted(&mut self, state: &mut AppState, result: Result<(), String>)
        ensures
            match result {
                Ok(()) => final(state).status_message matches Some(m) && m.text@
                    == "Backup raderad"@ && m.status_type == StatusType::Success
                    && final(self).needs_refresh && final(self).error == old(self).error,
                Err(e) => final(self).error matches Some(m) && m@ == "Kunde inte radera: "@ + e@
                    && *final(state) == *old(state) && final(self).needs_refresh
                    == old(self).needs_refresh,
            },
            final(self).selected_backup == old(self).selected_backup,
    {
        match result {
            Ok(()) => {
                state.show_success("Backup raderad");
                self.needs_refresh = true;
            },
            Err(e) => {
                let mut m = owned("Kunde inte radera: ");
                push_str(&mut m, e.as_str());
                self.error = Some(m);
            },
        }
    }

    /// A backup was chosen for restoring, and its contents were read (or could
    /// not be).
    pub fn restore_chosen(&mut self, path: String, preview: Result<RestorePreview, String>)
        ensures
            final(self).operation == BackupOperation::Idle,
            match preview {
                Ok(p) => final(self).selected_backup == Some(path) && final(self).restore_preview
                    == Some(p) && final(self).error == old(self).error,
                Err(e) => final(self).selected_backup is None && final(self).restore_preview
                    == old(self).restore_preview && (final(self).error matches Some(m) && m@
                    == "Kunde inte läsa backup: "@ + e@),
            },
            final(self).confirm_restore == old(self).confirm_restore,
    {
        self.selected_backup = Some(path);
        match preview {
            Ok(p) => {
                self.restore_preview = Some(p);
            },
            Err(e) => {
                let mut m = owned("Kunde inte läsa backup: ");
                push_str(&mut m, e.as_str());
                self.error = Some(m);
                self.selected_backup = None;
            },
        }
        self.operation = BackupOperation::Idle;
    }

    /// Whether the preview of the chosen backup is shown.
    pub fn shows_preview(&self) -> (r: bool)
        ensures
            r == (self.selected_backup is Some && !self.confirm_restore),
    {
        self.selected_backup.is_some() && !self.confirm_restore
    }

    /// A restore needs at least one of its two parts.
    pub fn can_restore(&self) -> (r: bool)
        ensures
            r == (self.restore_db || self.restore_media),
    {
        self.restore_db || self.restore_media
    }

    /// The cancel button of the preview.
    pub fn cancel_preview(&mut self)
        ensures
            final(self).selected_backup is None,
            final(self).restore_preview is None,
            final(self).confirm_restore == old(self).confirm_restore,
    {
        self.selected_backup = None;
        self.restore_preview = None;
    }

    /// The restore button of the preview asks for confirmation, where a part is
    /// chosen.
    pub fn request_restore(&mut self)
        ensures
            final(self).confirm_restore == (old(self).confirm_restore || old(self).restore_db
                || old(self).restore_media),
            final(self).selected_backup == old(self).selected_backup,
    {
        if self.can_restore() {
            self.confirm_restore = true;
        }
    }

    /// The cancel button of the confirmation.
    pub fn cancel_confirm(&mut self)
        ensures
            !final(self).confirm_restore,
            final(self).selected_backup == old(self).selected_backup,
    {
        self.confirm_restore = false;
    }

    /// What the confirmed restore hands to the restore service: the backup's
    /// path and the parts to restore; nothing when no backup is chosen.
    pub fn restore_request(&self) -> (r: Option<(String, bool, bool)>)
        ensures
            self.selected_backup is None ==> r is None,
            self.selected_backup matches Some(p) ==> (r matches Some(q) && q.0@ == p@ && q.1
                == self.restore_db && q.2 == self.restore_media),
    {
        match &self.selected_backup {
            Some(p) => Some((p.clone(), self.restore_db, self.restore_media)),
            None => None,
        }
    }

    /// The outcome of a confirmed restore.  Where no backup is chosen nothing
    /// happened and nothing changes.
    pub fn restore_finished(&mut self, state: &mut AppState, result: Result<RestoreResult, String>)
        ensures
            old(self).selected_backup is None ==> *final(self) == *old(self) && *final(state)
                == *old(state),
            old(self).selected_backup is Some ==> restore_closed(*final(self)) && match result {
                Ok(r) => (final(state).status_message matches Some(m) && m.text@ == restored_text(
                    (r.files_restored as nat, r.database_restored),
                ) && m.status_type == StatusType::Success) && final(self).error == old(self).error,
                Err(e) => final(self).error matches Some(m) && m@ == "Återställning misslyckades: "@
                    + e@ && *final(state) == *old(state),
            },
    {
        if self.selected_backup.is_none() {
            return;
        }
        match result {
            Ok(r) => {
                let mut m = String::new();
                push_decimal(&mut m, r.files_restored);
                push_str(&mut m, " filer återställda");
                if r.database_restored {
                    push_str(
                        &mut m,
                        ". Databasen återställd - starta om applikationen för full effekt.",
                    );
                }
                proof {
                    let s = m@;
                    assert(s =~= restored_text((r.files_restored as nat, r.database_restored)));
                }
                state.show_success(m.as_str());
            },
            Err(e) => {
                let mut m = owned("Återställning misslyckades: ");
                push_str(&mut m, e.as_str());
                self.error = Some(m);
            },
        }
        self.operation = BackupOperation::Idle;
        self.confirm_restore = false;
        self.selected_backup = None;
        self.restore_preview = None;
        self.needs_refresh = true;
    }
}

} // verus!
