//! Keyboard shortcuts: the map from actions to key combinations, and how a key
//! press is matched against it.  Actions and keys are numbered by the code that
//! reads the keyboard.

use vstd::prelude::*;

verus! {

/// The modifier keys of a shortcut.
#[derive(Debug, Clone, Copy, PartialEq, Eq, Structural)]
pub struct ShortcutModifiers {
    /// Ctrl, or Cmd on macOS.
    pub ctrl_or_cmd: bool,
    pub shift: bool,
    pub alt: bool,
}

/// A key with its modifiers.
#[derive(Debug, Clone, Copy, PartialEq, Eq, Structural)]
pub struct KeyboardShortcut {
    pub key: u32,
    pub modifiers: ShortcutModifiers,
}

/// The shortcut of each action.  An action has at most one shortcut.
pub struct ShortcutMap {
    entries: Vec<(u32, KeyboardShortcut)>,
}

/// The shortcut bound to `action` in `entries`, the first one found.
pub open spec fn lookup(entries: Seq<(u32, KeyboardShortcut)>, action: u32) -> Option<KeyboardShortcut>
    decreases entries.len(),
{
    if entries.len() == 0 {
        None
    } else if entries[0].0 == action {
        Some(entries[0].1)
    } else {
        lookup(entries.drop_first(), action)
    }
}

/// No action occurs twice.
pub open spec fn distinct_actions(entries: Seq<(u32, KeyboardShortcut)>) -> bool {
    forall|i: int, j: int|
        0 <= i < j < entries.len() ==> (#[trigger] entries[i]).0 != (#[trigger] entries[j]).0
}

/// The entry at `k` is what `lookup` finds for its action.
proof fn lemma_lookup_at(entries: Seq<(u32, KeyboardShortcut)>, k: int)
    requires
        distinct_actions(entries),
        0 <= k < entries.len(),
    ensures
        lookup(entries, entries[k].0) == Some(entries[k].1),
    decreases entries.len(),
{
    if k > 0 {
        let rest = entries.drop_first();
        assert(rest[k - 1] == entries[k]);
        assert(distinct_actions(rest)) by {
            assert forall|i: int, j: int| 0 <= i < j < rest.len() implies (#[trigger] rest[i]).0
                != (#[trigger] rest[j]).0 by {
                assert(rest[i] == entries[i + 1] && rest[j] == entries[j + 1]);
            }
        }
        assert(entries[0] != entries[k] || entries[0].0 != entries[k].0);
        lemma_lookup_at(rest, k - 1);
    }
}

/// An action that no entry has is not found.
proof fn lemma_lookup_absent(entries: Seq<(u32, KeyboardShortcut)>, action: u32)
    requires
        forall|k: int| 0 <= k < entries.len() ==> (#[trigger] entries[k]).0 != action,
    ensures
        lookup(entries, action) is None,
    decreases entries.len(),
{
    if entries.len() > 0 {
        let rest = entries.drop_first();
        assert forall|k: int| 0 <= k < rest.len() implies (#[trigger] rest[k]).0 != action by {
            assert(rest[k] == entries[k + 1]);
        }
        lemma_lookup_absent(rest, action);
    }
}

impl ShortcutMap {
    #[verifier::type_invariant]
    spec fn inv(self) -> bool {
        distinct_actions(self.entries@)
    }

    /// The shortcut of `action`, if it has one.
    pub closed spec fn get_spec(self, action: u32) -> Option<KeyboardShortcut> {
        lookup(self.entries@, action)
    }

    /// No shortcuts.
    pub fn new() -> (m: ShortcutMap)
        ensures
            forall|a: u32| #[trigger] m.get_spec(a) is None,
    {
        ShortcutMap { entries: Vec::new() }
    }

    /// The shortcut of `action`.
    pub fn get(&self, action: u32) -> (r: Option<KeyboardShortcut>)
        ensures
            r == self.get_spec(action),
    {
        proof {
            use_type_invariant(self);
        }
        let mut i: usize = 0;
        while i < self.entries.len()
            invariant
                i <= self.entries@.len(),
                forall|k: int| 0 <= k < i ==> (#[trigger] self.entries@[k]).0 != action,
                distinct_actions(self.entries@),
            decreases self.entries@.len() - i,
        {
            if self.entries[i].0 == action {
                proof {
                    lemma_lookup_at(self.entries@, i as int);
                }
                return Some(self.entries[i].1);
            }
            i = i + 1;
        }
        proof {
            lemma_lookup_absent(self.entries@, action);
        }
        None
    }

    /// Binds `action` to `shortcut`, in place of its former shortcut.
    pub fn insert(&mut self, action: u32, shortcut: KeyboardShortcut)
        ensures
            final(self).get_spec(action) == Some(shortcut),
            forall|a: u32| a != action ==> #[trigger] final(self).get_spec(a) == old(self).get_spec(a),
    {
        proof {
            use_type_invariant(&*self);
        }
        let ghost before = self.entries@;
        let mut i: usize = 0;
        while i < self.entries.len()
            invariant
                self.entries@ == before,
                i <= before.len(),
                forall|k: int| 0 <= k < i ==> (#[trigger] before[k]).0 != action,
                distinct_actions(before),
            ensures
                self.entries@ == before,
                i <= before.len(),
                forall|k: int| 0 <= k < i ==> (#[trigger] before[k]).0 != action,
                i < before.len() ==> before[i as int].0 == action,
            decreases before.len() - i,
        {
            if self.entries[i].0 == action {
                break;
            }
            i = i + 1;
        }
        let mut entries = Vec::new();
        std::mem::swap(&mut entries, &mut self.entries);
        if i < entries.len() {
            entries.set(i, (action, shortcut));
        } else {
            entries.push((action, shortcut));
        }
        let ghost after = entries@;
        proof {
            assert(distinct_actions(after)) by {
                assert forall|x: int, y: int| 0 <= x < y < after.len() implies (#[trigger] after[x]).0
                    != (#[trigger] after[y]).0 by {
                    if x != i && y != i {
                        assert(after[x] == before[x] && after[y] == before[y]);
                    } else if x == i {
                        if i < before.len() {
                            assert(after[y] == before[y]);
                        }
                    } else {
                        assert(after[x] == before[x]);
                    }
                }
            }
            let k = i as int;
            assert(after[k] == (action, shortcut));
            lemma_lookup_at(after, k);
            assert forall|a: u32| a != action implies #[trigger] lookup(after, a) == lookup(
                before,
                a,
            ) by {
                if exists|j: int| 0 <= j < before.len() && before[j].0 == a {
                    let j = choose|j: int| 0 <= j < before.len() && before[j].0 == a;
                    assert(after[j] == before[j]);
                    lemma_lookup_at(before, j);
                    lemma_lookup_at(after, j);
                } else {
                    lemma_lookup_absent(before, a);
                    assert forall|j: int| 0 <= j < after.len() implies (#[trigger] after[j]).0 != a by {
                        if j != k {
                            assert(after[j] == before[j]);
                        }
                    }
                    lemma_lookup_absent(after, a);
                }
            }
        }
        self.entries = entries;
    }

    /// An action other than `except` whose shortcut is `shortcut`, if there is
    /// one.
    pub fn action_using(&self, shortcut: KeyboardShortcut, except: u32) -> (r: Option<u32>)
        ensures
            r matches Some(a) ==> a != except && self.get_spec(a) == Some(shortcut),
            r is None ==> forall|a: u32| a != except ==> #[trigger] self.get_spec(a) != Some(
                shortcut,
            ),
    {
        proof {
            use_type_invariant(self);
        }
        let mut i: usize = 0;
        while i < self.entries.len()
            invariant
                i <= self.entries@.len(),
                distinct_actions(self.entries@),
                forall|k: int|
                    0 <= k < i ==> (#[trigger] self.entries@[k]).0 == except || self.entries@[k].1
                        != shortcut,
            decreases self.entries@.len() - i,
        {
            let (a, s) = self.entries[i];
            if a != except && s == shortcut {
                proof {
                    lemma_lookup_at(self.entries@, i as int);
                }
                return Some(a);
            }
            i = i + 1;
        }
        proof {
            assert forall|a: u32| a != except implies #[trigger] self.get_spec(a) != Some(shortcut) by {
                if exists|j: int| 0 <= j < self.entries@.len() && self.entries@[j].0 == a {
                    let j = choose|j: int| 0 <= j < self.entries@.len() && self.entries@[j].0 == a;
                    lemma_lookup_at(self.entries@, j);
                } else {
                    lemma_lookup_absent(self.entries@, a);
                }
            }
        }
        None
    }

    /// A copy of the map.
    pub fn copy(&self) -> (r: ShortcutMap)
        ensures
            forall|a: u32| #[trigger] r.get_spec(a) == self.get_spec(a),
    {
        proof {
            use_type_invariant(self);
        }
        let mut entries: Vec<(u32, KeyboardShortcut)> = Vec::new();
        let mut i: usize = 0;
        while i < self.entries.len()
            invariant
                i <= self.entries@.len(),
                entries@ == self.entries@.subrange(0, i as int),
            decreases self.entries@.len() - i,
        {
            entries.push(self.entries[i]);
            assert(entries@ =~= self.entries@.subrange(0, i + 1));
            i = i + 1;
        }
        assert(entries@ =~= self.entries@);
        ShortcutMap { entries }
    }

    /// Whether `action` may fire for a press of `key` with `mods` held: its
    /// shortcut has that key and exactly those modifiers.
    pub fn matches(&self, action: u32, key: u32, mods: ShortcutModifiers) -> (r: bool)
        ensures
            r == (self.get_spec(action) == Some(KeyboardShortcut { key, modifiers: mods })),
    {
        match self.get(action) {
            Some(s) => s.key == key && s.modifiers == mods,
            None => false,
        }
    }
}

/// Matches key presses against the configured shortcuts.
pub struct ShortcutManager {
    shortcuts: ShortcutMap,
}

/// An action fires for the input: its key was pressed with exactly its
/// modifiers, and, while a text field has the keyboard, only the modal-closing
/// action on Escape without Ctrl does.
pub open spec fn fires(
    m: ShortcutMap,
    action: u32,
    pressed: Seq<u32>,
    mods: ShortcutModifiers,
    text_focused: bool,
    close_modal: u32,
    escape_key: u32,
) -> bool {
    &&& m.get_spec(action) matches Some(s) && pressed.contains(s.key) && s.modifiers == mods
        && (text_focused ==> action == close_modal && s.key == escape_key
        && !s.modifiers.ctrl_or_cmd)
}

impl ShortcutManager {
    /// A manager of the given shortcuts.
    pub fn new(shortcuts: ShortcutMap) -> (m: ShortcutManager)
        ensures
            forall|a: u32| #[trigger] m.shortcuts_view().get_spec(a) == shortcuts.get_spec(a),
    {
        ShortcutManager { shortcuts }
    }

    /// The shortcuts in use.
    pub closed spec fn shortcuts_view(self) -> ShortcutMap {
        self.shortcuts
    }

    /// Puts the shortcuts changed in the settings in use.
    pub fn update_shortcuts(&mut self, shortcuts: ShortcutMap)
        ensures
            forall|a: u32| #[trigger] final(self).shortcuts_view().get_spec(a) == shortcuts.get_spec(
                a,
            ),
    {
        self.shortcuts = shortcuts;
    }

    /// The shortcut of an action, for its tooltip.
    pub fn shortcut_hint(&self, action: u32) -> (r: Option<KeyboardShortcut>)
        ensures
            r == self.shortcuts_view().get_spec(action),
    {
        self.shortcuts.get(action)
    }

    /// The shortcuts in use.
    pub fn shortcuts(&self) -> (r: &ShortcutMap)
        ensures
            *r == self.shortcuts_view(),
    {
        &self.shortcuts
    }

    /// The action that the input asks for, of the actions in `actions`: none
    /// while the settings capture a new shortcut; otherwise one that fires
    /// (the first of `actions` that does), or none if none does.
    pub fn check(
        &self,
        actions: &Vec<u32>,
        capturing: bool,
        text_focused: bool,
        pressed: &Vec<u32>,
        mods: ShortcutModifiers,
        close_modal: u32,
        escape_key: u32,
    ) -> (r: Option<u32>)
        ensures
            capturing ==> r is None,
            r matches Some(a) ==> actions@.contains(a) && fires(
                self.shortcuts_view(),
                a,
                pressed@,
                mods,
                text_focused,
                close_modal,
                escape_key,
            ),
            !capturing && r is None ==> forall|k: int|
                0 <= k < actions@.len() ==> !fires(
                    self.shortcuts_view(),
                    #[trigger] actions@[k],
                    pressed@,
                    mods,
                    text_focused,
                    close_modal,
                    escape_key,
                ),
    {
        if capturing {
            return None;
        }
        let mut i: usize = 0;
        while i < actions.len()
            invariant
                !capturing,
                i <= actions@.len(),
                forall|k: int|
                    0 <= k < i ==> !fires(
                        self.shortcuts_view(),
                        #[trigger] actions@[k],
                        pressed@,
                        mods,
                        text_focused,
                        close_modal,
                        escape_key,
                    ),
            decreases actions@.len() - i,
        {
            let action = actions[i];
            if let Some(s) = self.shortcuts.get(action) {
                let pressed_now = crate::lists::contains_u32(pressed, s.key);
                if pressed_now && s.modifiers == mods {
                    let allowed = !text_focused || (action == close_modal && s.key == escape_key
                        && !s.modifiers.ctrl_or_cmd);
                    if allowed {
                        return Some(action);
                    }
                }
            }
            i = i + 1;
        }
        None
    }
}

} // verus!
