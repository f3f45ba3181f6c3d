//! The settings view: the storage paths, and the capture of new keyboard
//! shortcuts with its conflict warning.

use vstd::prelude::*;
use vstd::string::*;
use vstd::view::View as _;
use crate::shortcuts::{KeyboardShortcut, ShortcutMap};
use crate::state::{AppState, StatusType};
use crate::text::{owned, push_str};

verus! {

/// The settings view.
pub struct SettingsView {
    pub media_path: String,
    pub backup_path: String,
    pub needs_refresh: bool,
    pub status_message: Option<String>,
    pub shortcuts: ShortcutMap,
    /// Whether the shortcuts of the application settings were taken.
    pub shortcuts_loaded: bool,
    /// The action whose new shortcut is being captured.
    pub capturing_action: Option<u32>,
    pub conflict_warning: Option<String>,
}

/// What a captured key press does.
#[derive(Debug, Clone, Copy, PartialEq, Eq, Structural)]
pub enum CaptureOutcome {
    /// Nothing is being captured, or no key was pressed.
    Nothing,
    /// Escape alone cancels the capture.
    Cancelled,
    /// The shortcut was bound; the new map is to be applied.
    Bound,
}

/// Escape without a modifier.
pub open spec fn escape_alone(c: KeyboardShortcut, escape_key: u32) -> bool {
    c.key == escape_key && !c.modifiers.ctrl_or_cmd && !c.modifiers.shift && !c.modifiers.alt
}

/// The warning when a captured shortcut is already used by another action.
pub open spec fn conflict_text(action_label: Seq<char>, shortcut_text: Seq<char>) -> Seq<char> {
    "Varning: "@ + action_label + " använder redan "@ + shortcut_text
}

impl SettingsView {
    /// Empty paths, no shortcuts yet; the paths load on the first display and
    /// the shortcuts come from the application settings.
    pub fn new() -> (v: SettingsView)
        ensures
            v.media_path@ == Seq::<char>::empty(),
            v.backup_path@ == Seq::<char>::empty(),
            v.needs_refresh,
            v.status_message is None,
            !v.shortcuts_loaded,
            v.capturing_action is None,
            v.conflict_warning is None,
    {
        SettingsView {
            media_path: String::new(),
            backup_path: String::new(),
            needs_refresh: true,
            status_message: None,
            shortcuts: ShortcutMap::new(),
            shortcuts_loaded: false,
            capturing_action: None,
            conflict_warning: None,
        }
    }

    /// Takes the stored paths, where there is a stored configuration.
    pub fn config_loaded(&mut self, paths: Option<(String, String)>)
        ensures
            paths matches Some(p) ==> final(self).media_path == p.0 && final(self).backup_path
                == p.1,
            paths is None ==> final(self).media_path == old(self).media_path
                && final(self).backup_path == old(self).backup_path,
            !final(self).needs_refresh,
    {
        if let Some((media, backup)) = paths {
            self.media_path = media;
            self.backup_path = backup;
        }
        self.needs_refresh = false;
    }

    /// Takes the shortcuts of the application settings, once.
    pub fn load_shortcuts(&mut self, shortcuts: &ShortcutMap)
        ensures
            !old(self).shortcuts_loaded ==> forall|a: u32| #[trigger] final(self).shortcuts.get_spec(a)
                == shortcuts.get_spec(a),
            old(self).shortcuts_loaded ==> forall|a: u32| #[trigger] final(self).shortcuts.get_spec(a)
                == old(self).shortcuts.get_spec(a),
            final(self).shortcuts_loaded,
    {
        if !self.shortcuts_loaded {
            self.shortcuts = shortcuts.copy();
            self.shortcuts_loaded = true;
        }
    }

    /// Whether a shortcut is being captured (the other shortcuts are then off).
    pub fn is_capturing(&self) -> (r: bool)
        ensures
            r == self.capturing_action is Some,
    {
        self.capturing_action.is_some()
    }

    /// The change button starts capturing the action's shortcut.
    pub fn start_capture(&mut self, action: u32)
        ensures
            final(self).capturing_action == Some(action),
            final(self).conflict_warning is None,
    {
        self.capturing_action = Some(action);
        self.conflict_warning = None;
    }

    /// The cancel button of a capture.
    pub fn cancel_capture(&mut self)
        ensures
            final(self).capturing_action is None,
    {
        self.capturing_action = None;
    }

    /// A key press during a capture.  Escape alone cancels.  Any other shortcut
    /// is bound to the action being captured; where another action already uses
    /// it, that clash is warned about with the other action's label (from
    /// `labels`, indexed by action) and the shortcut's text, else the warning
    /// goes.
    pub fn captured(
        &mut self,
        captured: Option<KeyboardShortcut>,
        escape_key: u32,
        labels: &Vec<String>,
        shortcut_text: &str,
    ) -> (r: CaptureOutcome)
        requires
            forall|a: u32| #[trigger] old(self).shortcuts.get_spec(a) is Some ==> a < labels@.len(),
        ensures
            (old(self).capturing_action is None || captured is None) ==> r
                == CaptureOutcome::Nothing && final(self).capturing_action
                == old(self).capturing_action && final(self).conflict_warning
                == old(self).conflict_warning,
            old(self).capturing_action is Some && captured is Some && escape_alone(
                captured->0,
                escape_key,
            ) ==> r == CaptureOutcome::Cancelled && final(self).capturing_action is None,
            old(self).capturing_action is Some && captured is Some && !escape_alone(
                captured->0,
                escape_key,
            ) ==> r == CaptureOutcome::Bound && final(self).capturing_action is None
                && final(self).shortcuts.get_spec(old(self).capturing_action->0) == captured
                && forall|b: u32|
                b != old(self).capturing_action->0 ==> #[trigger] final(self).shortcuts.get_spec(b)
                    == old(self).shortcuts.get_spec(b),
            r == CaptureOutcome::Bound && (forall|a: u32|
                a != old(self).capturing_action->0 ==> #[trigger] old(self).shortcuts.get_spec(a)
                    != captured) ==> final(self).conflict_warning is None,
            r == CaptureOutcome::Bound && (exists|a: u32|
                a != old(self).capturing_action->0 && #[trigger] old(self).shortcuts.get_spec(a)
                    == captured) ==> (final(self).conflict_warning matches Some(w) && exists|a: u32|
                a != old(self).capturing_action->0 && #[trigger] old(self).shortcuts.get_spec(a)
                    == captured && w@ == conflict_text(labels@[a as int]@, shortcut_text@)),
    {
        let capturing = match self.capturing_action {
            Some(a) => a,
            None => {
                return CaptureOutcome::Nothing;
            },
        };
        let c = match captured {
            Some(c) => c,
            None => {
                return CaptureOutcome::Nothing;
            },
        };
        if c.key == escape_key && !c.modifiers.ctrl_or_cmd && !c.modifiers.shift
            && !c.modifiers.alt {
            self.capturing_action = None;
            return CaptureOutcome::Cancelled;
        }
        match self.shortcuts.action_using(c, capturing) {
            Some(other) => {
                let mut w = owned("Varning: ");
                push_str(&mut w, labels[other as usize].as_str());
                push_str(&mut w, " använder redan ");
                push_str(&mut w, shortcut_text);
                self.conflict_warning = Some(w);
            },
            None => {
                self.conflict_warning = None;
            },
        }
        self.shortcuts.insert(capturing, c);
        self.capturing_action = None;
        CaptureOutcome::Bound
    }

    /// The reset-all button: the default shortcuts, no warning, and a message.
    pub fn reset_all(&mut self, state: &mut AppState, defaults: &ShortcutMap)
        ensures
            forall|a: u32| #[trigger] final(self).shortcuts.get_spec(a) == defaults.get_spec(a),
            final(self).conflict_warning is None,
            final(state).status_message matches Some(m) && m.text@
                == "Genvägar återställda till standard"@ && m.status_type == StatusType::Success,
    {
        self.shortcuts = defaults.copy();
        self.conflict_warning = None;
        state.show_status("Genvägar återställda till standard", StatusType::Success);
    }

    /// Whether the action has its default shortcut (no restore button then).
    pub fn is_default(&self, action: u32, defaults: &ShortcutMap) -> (r: bool)
        ensures
            r == (self.shortcuts.get_spec(action) == defaults.get_spec(action)),
    {
        self.shortcuts.get(action) == defaults.get(action)
    }

    /// The restore button puts the action's default shortcut back, where it
    /// has one.  Returns whether the map changed and is to be applied.
    pub fn restore_default(&mut self, action: u32, defaults: &ShortcutMap) -> (r: bool)
        ensures
            r == defaults.get_spec(action) is Some,
            r ==> final(self).shortcuts.get_spec(action) == defaults.get_spec(action),
            forall|b: u32| b != action ==> #[trigger] final(self).shortcuts.get_spec(b)
                == old(self).shortcuts.get_spec(b),
            !r ==> final(self).shortcuts.get_spec(action) == old(self).shortcuts.get_spec(action),
    {
        match defaults.get(action) {
            Some(s) => {
                self.shortcuts.insert(action, s);
                true
            },
            None => false,
        }
    }

    /// The outcome of storing the paths.
    pub fn save_finished(&mut self, result: Result<(), String>)
        ensures
            match result {
                Ok(()) => final(self).status_message matches Some(m) && m@
                    == "Inställningar sparade!"@,
                Err(e) => final(self).status_message matches Some(m) && m@ == "Fel: "@ + e@,
            },
            final(self).media_path == old(self).media_path,
    {
        match result {
            Ok(()) => {
                self.status_message = Some(owned("Inställningar sparade!"));
            },
            Err(e) => {
                let mut m = owned("Fel: ");
                push_str(&mut m, e.as_str());
                self.status_message = Some(m);
            },
        }
    }
}

} // verus!
