//! The logical actions and the keys bound to them.

use vstd::prelude::*;
use crate::key_utils::{
    has_stable_text, key_text, key_to_string, lemma_key_text_reads_back, string_to_key, text_key, Key,
};
use crate::text::join_path;

verus! {

/// Actions that can be bound to keys, in the order in which a key is looked
/// up.
#[derive(Debug, Clone, Copy, PartialEq, Eq, Hash, Structural)]
pub enum Action {
    Up,
    Down,
    Edit,
    NewNote,
    NewSection,
    Save,
    Load,
    Quit,
    Cancel,
    Bindings,
    Theme,
    /// Open the time hack input.
    TimeHack,
}

impl Action {
    /// Every action, in declaration order.
    pub const ALL: [Action; 12] = [
        Action::Up,
        Action::Down,
        Action::Edit,
        Action::NewNote,
        Action::NewSection,
        Action::Save,
        Action::Load,
        Action::Quit,
        Action::Cancel,
        Action::Bindings,
        Action::Theme,
        Action::TimeHack,
    ];

    /// The number of actions.
    pub open spec fn count() -> nat {
        12
    }

    /// The place of an action in declaration order.
    pub open spec fn index(self) -> nat {
        match self {
            Action::Up => 0,
            Action::Down => 1,
            Action::Edit => 2,
            Action::NewNote => 3,
            Action::NewSection => 4,
            Action::Save => 5,
            Action::Load => 6,
            Action::Quit => 7,
            Action::Cancel => 8,
            Action::Bindings => 9,
            Action::Theme => 10,
            Action::TimeHack => 11,
        }
    }

    /// The name under which an action is shown.
    pub open spec fn label_text(self) -> Seq<char> {
        match self {
            Action::Up => "Up"@,
            Action::Down => "Down"@,
            Action::Edit => "Edit"@,
            Action::NewNote => "New Note"@,
            Action::NewSection => "New Section"@,
            Action::Save => "Save"@,
            Action::Load => "Load"@,
            Action::Quit => "Quit"@,
            Action::Cancel => "Cancel"@,
            Action::Bindings => "Key Menu"@,
            Action::Theme => "Theme Menu"@,
            Action::TimeHack => "Time Hack"@,
        }
    }

    /// The name under which an action is shown.
    pub fn label(self) -> (s: &'static str)
        ensures
            s@ == self.label_text(),
    {
        match self {
            Action::Up => "Up",
            Action::Down => "Down",
            Action::Edit => "Edit",
            Action::NewNote => "New Note",
            Action::NewSection => "New Section",
            Action::Save => "Save",
            Action::Load => "Load",
            Action::Quit => "Quit",
            Action::Cancel => "Cancel",
            Action::Bindings => "Key Menu",
            Action::Theme => "Theme Menu",
            Action::TimeHack => "Time Hack",
        }
    }

    /// The action at a place in declaration order.
    pub fn from_index(i: usize) -> (r: Option<Action>)
        ensures
            i < Action::count() ==> r is Some && r->0.index() == i,
            i >= Action::count() ==> r is None,
    {
        if i < 12 {
            Some(Action::ALL[i])
        } else {
            None
        }
    }
}

/// The key of each action. Two actions may hold the same key; `Key::Null`
/// stands for an action that no key triggers.
#[derive(Debug, Clone, Copy, PartialEq, Eq, Structural)]
pub struct KeyBindings {
    /// Move selection up or previous.
    pub up: Key,
    /// Move selection down or next.
    pub down: Key,
    /// Edit the currently selected entry.
    pub edit: Key,
    /// Start entering a new note; confirms an input.
    pub new_note: Key,
    /// Start entering a new section.
    pub new_section: Key,
    /// Begin saving entries to a file.
    pub save: Key,
    /// Begin loading entries from a file.
    pub load: Key,
    /// Quit the application.
    pub quit: Key,
    /// Cancel the current edit.
    pub cancel: Key,
    /// Open the key bindings menu.
    pub bindings: Key,
    /// Open the theme selection menu.
    pub theme: Key,
    /// Open the time hack input.
    pub time_hack: Key,
}

/// The built-in bindings: the arrows move the selection, Enter starts a
/// note, Esc cancels, and a letter each for the rest.
pub open spec fn default_bindings() -> KeyBindings {
    KeyBindings {
        up: Key::Up,
        down: Key::Down,
        edit: Key::Char('e'),
        new_note: Key::Enter,
        new_section: Key::Char('s'),
        save: Key::Char('w'),
        load: Key::Char('l'),
        quit: Key::Char('q'),
        cancel: Key::Esc,
        bindings: Key::Char('b'),
        theme: Key::Char('t'),
        time_hack: Key::Char('h'),
    }
}

impl Default for KeyBindings {
    fn default() -> (k: KeyBindings)
        ensures
            k == default_bindings(),
    {
        KeyBindings {
            up: Key::Up,
            down: Key::Down,
            edit: Key::Char('e'),
            new_note: Key::Enter,
            new_section: Key::Char('s'),
            save: Key::Char('w'),
            load: Key::Char('l'),
            quit: Key::Char('q'),
            cancel: Key::Esc,
            bindings: Key::Char('b'),
            theme: Key::Char('t'),
            time_hack: Key::Char('h'),
        }
    }
}

impl KeyBindings {
    /// The key bound to an action.
    pub open spec fn key_of(self, action: Action) -> Key {
        match action {
            Action::Up => self.up,
            Action::Down => self.down,
            Action::Edit => self.edit,
            Action::NewNote => self.new_note,
            Action::NewSection => self.new_section,
            Action::Save => self.save,
            Action::Load => self.load,
            Action::Quit => self.quit,
            Action::Cancel => self.cancel,
            Action::Bindings => self.bindings,
            Action::Theme => self.theme,
            Action::TimeHack => self.time_hack,
        }
    }

    /// These bindings with `action` bound to `key`.
    pub open spec fn with(self, action: Action, key: Key) -> KeyBindings {
        match action {
            Action::Up => KeyBindings { up: key, ..self },
            Action::Down => KeyBindings { down: key, ..self },
            Action::Edit => KeyBindings { edit: key, ..self },
            Action::NewNote => KeyBindings { new_note: key, ..self },
            Action::NewSection => KeyBindings { new_section: key, ..self },
            Action::Save => KeyBindings { save: key, ..self },
            Action::Load => KeyBindings { load: key, ..self },
            Action::Quit => KeyBindings { quit: key, ..self },
            Action::Cancel => KeyBindings { cancel: key, ..self },
            Action::Bindings => KeyBindings { bindings: key, ..self },
            Action::Theme => KeyBindings { theme: key, ..self },
            Action::TimeHack => KeyBindings { time_hack: key, ..self },
        }
    }

    /// Whether no key but `Key::Null` is bound to two actions.
    pub open spec fn keys_apart(self) -> bool {
        forall|a: Action, b: Action|
            a != b && #[trigger] self.key_of(a) == #[trigger] self.key_of(b) ==> self.key_of(a)
                == Key::Null
    }

    /// The first action, in declaration order, that `key` is bound to.
    pub open spec fn owner(self, key: Key) -> Option<Action> {
        if exists|a: Action| self.key_of(a) == key {
            Some(
                choose|a: Action|
                    self.key_of(a) == key && forall|b: Action|
                        b.index() < a.index() ==> #[trigger] self.key_of(b) != key,
            )
        } else {
            None
        }
    }

    /// Returns the key bound to the given action.
    pub fn get(&self, action: Action) -> (key: Key)
        ensures
            key == self.key_of(action),
    {
        match action {
            Action::Up => self.up,
            Action::Down => self.down,
            Action::Edit => self.edit,
            Action::NewNote => self.new_note,
            Action::NewSection => self.new_section,
            Action::Save => self.save,
            Action::Load => self.load,
            Action::Quit => self.quit,
            Action::Cancel => self.cancel,
            Action::Bindings => self.bindings,
            Action::Theme => self.theme,
            Action::TimeHack => self.time_hack,
        }
    }

    /// Sets the key for the given action and leaves every other binding as
    /// it is.
    pub fn set(&mut self, action: Action, key: Key)
        ensures
            *final(self) == old(self).with(action, key),
            final(self).key_of(action) == key,
            forall|b: Action| b != action ==> final(self).key_of(b) == old(self).key_of(b),
    {
        match action {
            Action::Up => self.up = key,
            Action::Down => self.down = key,
            Action::Edit => self.edit = key,
            Action::NewNote => self.new_note = key,
            Action::NewSection => self.new_section = key,
            Action::Save => self.save = key,
            Action::Load => self.load = key,
            Action::Quit => self.quit = key,
            Action::Cancel => self.cancel = key,
            Action::Bindings => self.bindings = key,
            Action::Theme => self.theme = key,
            Action::TimeHack => self.time_hack = key,
        }
    }

    /// Returns the action currently bound to the specified key, if any:
    /// where several are, the first in declaration order.
    pub fn action_for_key(&self, key: Key) -> (r: Option<Action>)
        ensures
            match r {
                Some(a) => self.key_of(a) == key && forall|b: Action|
                    b.index() < a.index() ==> #[trigger] self.key_of(b) != key,
                None => forall|b: Action| #[trigger] self.key_of(b) != key,
            },
            r == self.owner(key),
    {
        let r =
        if self.up == key {
            Some(Action::Up)
        }
        else if self.down == key {
            Some(Action::Down)
        }
        else if self.edit == key {
            Some(Action::Edit)
        }
        else if self.new_note == key {
            Some(Action::NewNote)
        }
        else if self.new_section == key {
            Some(Action::NewSection)
        }
        else if self.save == key {
            Some(Action::Save)
        }
        else if self.load == key {
            Some(Action::Load)
        }
        else if self.quit == key {
            Some(Action::Quit)
        }
        else if self.cancel == key {
            Some(Action::Cancel)
        }
        else if self.bindings == key {
            Some(Action::Bindings)
        }
        else if self.theme == key {
            Some(Action::Theme)
        }
        else if self.time_hack == key {
            Some(Action::TimeHack)
        }
        else {
            None
        };
        proof {
            self.lemma_owner_is(key, r);
        }
        r
    }

    /// Only one answer fits the description of the first action bound to a
    /// key: that answer is the owner.
    pub proof fn lemma_owner_is(self, key: Key, r: Option<Action>)
        requires
            match r {
                Some(a) => self.key_of(a) == key && forall|b: Action|
                    b.index() < a.index() ==> #[trigger] self.key_of(b) != key,
                None => forall|b: Action| #[trigger] self.key_of(b) != key,
            },
        ensures
            r == self.owner(key),
    {
        match r {
            Some(a) => {
                let c = self.owner(key)->0;
                assert(self.key_of(c) == key);
                assert(!(c.index() < a.index()));
                assert(!(a.index() < c.index()));
            },
            None => {},
        }
    }

    /// The owner of a key holds the key, and no action before it does; a key
    /// without an owner is bound to no action.
    pub proof fn lemma_owner_holds_key(self, key: Key)
        ensures
            match self.owner(key) {
                Some(a) => self.key_of(a) == key && forall|b: Action|
                    b.index() < a.index() ==> #[trigger] self.key_of(b) != key,
                None => forall|b: Action| #[trigger] self.key_of(b) != key,
            },
    {
        let r =
        if self.up == key {
            Some(Action::Up)
        }
        else if self.down == key {
            Some(Action::Down)
        }
        else if self.edit == key {
            Some(Action::Edit)
        }
        else if self.new_note == key {
            Some(Action::NewNote)
        }
        else if self.new_section == key {
            Some(Action::NewSection)
        }
        else if self.save == key {
            Some(Action::Save)
        }
        else if self.load == key {
            Some(Action::Load)
        }
        else if self.quit == key {
            Some(Action::Quit)
        }
        else if self.cancel == key {
            Some(Action::Cancel)
        }
        else if self.bindings == key {
            Some(Action::Bindings)
        }
        else if self.theme == key {
            Some(Action::Theme)
        }
        else if self.time_hack == key {
            Some(Action::TimeHack)
        }
        else {
            None
        };
        self.lemma_owner_is(key, r);
    }

    /// The file that keeps the key bindings: `keybindings.json` inside the
    /// configuration directory, or on its own where there is no such
    /// directory.
    fn config_path(config_dir: Option<&str>) -> (path: String)
        ensures
            config_dir is None ==> path@ == "keybindings.json"@,
    {
        match config_dir {
            Some(dir) => join_path(dir, "keybindings.json"),
            None => "keybindings.json".to_owned(),
        }
    }

    /// Returns the configuration path used during testing.
    pub fn config_path_for_test(config_dir: Option<&str>) -> (path: String)
        ensures
            config_dir is None ==> path@ == "keybindings.json"@,
    {
        KeyBindings::config_path(config_dir)
    }

    /// The bindings read from a configuration, or the built-in ones where
    /// there is none.
    pub fn load_or_default(config: Option<KeyBindingsConfig>) -> (k: KeyBindings)
        ensures
            k == match config {
                Some(c) => bindings_of(c),
                None => default_bindings(),
            },
    {
        match config {
            Some(c) => KeyBindings::from(c),
            None => KeyBindings::default(),
        }
    }

    /// What is to be written to keep these bindings: the configuration that
    /// holds each key in its text form.
    pub fn save(&self) -> (c: KeyBindingsConfig)
        ensures
            config_holds(c, *self),
    {
        KeyBindingsConfig {
            up: key_to_string(self.up),
            down: key_to_string(self.down),
            edit: key_to_string(self.edit),
            new_note: key_to_string(self.new_note),
            new_section: key_to_string(self.new_section),
            save: key_to_string(self.save),
            load: key_to_string(self.load),
            quit: key_to_string(self.quit),
            cancel: key_to_string(self.cancel),
            bindings: key_to_string(self.bindings),
            theme: key_to_string(self.theme),
            time_hack: key_to_string(self.time_hack),
        }
    }
}

/// Key bindings as a configuration file holds them: for each action the text
/// form of its key.
#[derive(Debug, Clone, PartialEq, Eq)]
pub struct KeyBindingsConfig {
    pub up: String,
    pub down: String,
    pub edit: String,
    pub new_note: String,
    pub new_section: String,
    pub save: String,
    pub load: String,
    pub quit: String,
    pub cancel: String,
    pub bindings: String,
    pub theme: String,
    pub time_hack: String,
}

/// Whether a configuration holds the text form of each key of the
/// bindings.
pub open spec fn config_holds(c: KeyBindingsConfig, k: KeyBindings) -> bool {
    &&& c.up@ == key_text(k.up)
    &&& c.down@ == key_text(k.down)
    &&& c.edit@ == key_text(k.edit)
    &&& c.new_note@ == key_text(k.new_note)
    &&& c.new_section@ == key_text(k.new_section)
    &&& c.save@ == key_text(k.save)
    &&& c.load@ == key_text(k.load)
    &&& c.quit@ == key_text(k.quit)
    &&& c.cancel@ == key_text(k.cancel)
    &&& c.bindings@ == key_text(k.bindings)
    &&& c.theme@ == key_text(k.theme)
    &&& c.time_hack@ == key_text(k.time_hack)
}

/// The key that a configured text stands for, or `fallback` where it stands
/// for none.
pub open spec fn key_or(text: Seq<char>, fallback: Key) -> Key {
    match text_key(text) {
        Some(k) => k,
        None => fallback,
    }
}

/// The bindings that a configuration describes: a text that names no key
/// leaves its action on the built-in key.
pub open spec fn bindings_of(c: KeyBindingsConfig) -> KeyBindings {
    KeyBindings {
        up: key_or(c.up@, Key::Up),
        down: key_or(c.down@, Key::Down),
        edit: key_or(c.edit@, Key::Char('e')),
        new_note: key_or(c.new_note@, Key::Enter),
        new_section: key_or(c.new_section@, Key::Char('s')),
        save: key_or(c.save@, Key::Char('w')),
        load: key_or(c.load@, Key::Char('l')),
        quit: key_or(c.quit@, Key::Char('q')),
        cancel: key_or(c.cancel@, Key::Esc),
        bindings: key_or(c.bindings@, Key::Char('b')),
        theme: key_or(c.theme@, Key::Char('t')),
        time_hack: key_or(c.time_hack@, Key::Char('h')),
    }
}

fn read_key(text: &str, fallback: Key) -> (k: Key)
    ensures
        k == key_or(text@, fallback),
{
    match string_to_key(text) {
        Some(k) => k,
        None => fallback,
    }
}

impl From<KeyBindingsConfig> for KeyBindings {
    fn from(c: KeyBindingsConfig) -> (k: KeyBindings) {
        KeyBindings {
            up: read_key(c.up.as_str(), Key::Up),
            down: read_key(c.down.as_str(), Key::Down),
            edit: read_key(c.edit.as_str(), Key::Char('e')),
            new_note: read_key(c.new_note.as_str(), Key::Enter),
            new_section: read_key(c.new_section.as_str(), Key::Char('s')),
            save: read_key(c.save.as_str(), Key::Char('w')),
            load: read_key(c.load.as_str(), Key::Char('l')),
            quit: read_key(c.quit.as_str(), Key::Char('q')),
            cancel: read_key(c.cancel.as_str(), Key::Esc),
            bindings: read_key(c.bindings.as_str(), Key::Char('b')),
            theme: read_key(c.theme.as_str(), Key::Char('t')),
            time_hack: read_key(c.time_hack.as_str(), Key::Char('h')),
        }
    }
}

impl vstd::std_specs::convert::FromSpecImpl<KeyBindingsConfig> for KeyBindings {
    open spec fn obeys_from_spec() -> bool {
        true
    }

    open spec fn from_spec(c: KeyBindingsConfig) -> KeyBindings {
        bindings_of(c)
    }
}

/// The text that stands for the theme key where a configuration names none.
pub fn default_theme_key() -> (s: String)
    ensures
        s@ == key_text(Key::Char('t')),
{
    key_to_string(Key::Char('t'))
}

/// The text that stands for the time hack key where a configuration names
/// none.
pub fn default_time_hack_key() -> (s: String)
    ensures
        s@ == key_text(Key::Char('h')),
{
    key_to_string(Key::Char('h'))
}

/// The key itself where its text reads back, the fallback for any other
/// key.
pub open spec fn kept_key(key: Key, fallback: Key) -> Key {
    if has_stable_text(key) {
        key
    } else {
        fallback
    }
}

/// The bindings with each key that has no text of its own put back to the
/// built-in key of its action.
pub open spec fn kept_bindings(k: KeyBindings) -> KeyBindings {
    KeyBindings {
        up: kept_key(k.up, Key::Up),
        down: kept_key(k.down, Key::Down),
        edit: kept_key(k.edit, Key::Char('e')),
        new_note: kept_key(k.new_note, Key::Enter),
        new_section: kept_key(k.new_section, Key::Char('s')),
        save: kept_key(k.save, Key::Char('w')),
        load: kept_key(k.load, Key::Char('l')),
        quit: kept_key(k.quit, Key::Char('q')),
        cancel: kept_key(k.cancel, Key::Esc),
        bindings: kept_key(k.bindings, Key::Char('b')),
        theme: kept_key(k.theme, Key::Char('t')),
        time_hack: kept_key(k.time_hack, Key::Char('h')),
    }
}

/// What a key's own text is read as: the key, where it is a character key
/// or one of the seven named keys, and the fallback for any other key.
pub proof fn lemma_key_or_own_text(text: Seq<char>, key: Key, fallback: Key)
    requires
        text == key_text(key),
    ensures
        key_or(text, fallback) == kept_key(key, fallback),
{
    lemma_key_text_reads_back(key);
}

/// Bindings that are kept in a configuration and read back are the same
/// bindings, but for the keys that are neither a character key nor one of
/// the seven named keys: those come back as the built-in key of their
/// action.
pub proof fn lemma_config_reads_back(k: KeyBindings, c: KeyBindingsConfig)
    requires
        config_holds(c, k),
    ensures
        bindings_of(c) == kept_bindings(k),
{
    lemma_key_or_own_text(c.up@, k.up, Key::Up);
    lemma_key_or_own_text(c.down@, k.down, Key::Down);
    lemma_key_or_own_text(c.edit@, k.edit, Key::Char('e'));
    lemma_key_or_own_text(c.new_note@, k.new_note, Key::Enter);
    lemma_key_or_own_text(c.new_section@, k.new_section, Key::Char('s'));
    lemma_key_or_own_text(c.save@, k.save, Key::Char('w'));
    lemma_key_or_own_text(c.load@, k.load, Key::Char('l'));
    lemma_key_or_own_text(c.quit@, k.quit, Key::Char('q'));
    lemma_key_or_own_text(c.cancel@, k.cancel, Key::Esc);
    lemma_key_or_own_text(c.bindings@, k.bindings, Key::Char('b'));
    lemma_key_or_own_text(c.theme@, k.theme, Key::Char('t'));
    lemma_key_or_own_text(c.time_hack@, k.time_hack, Key::Char('h'));
}

/// Bindings made of character keys and the seven named keys are read back
/// from a configuration as they are.
pub proof fn lemma_stable_bindings_read_back(k: KeyBindings, c: KeyBindingsConfig)
    requires
        config_holds(c, k),
        forall|a: Action| has_stable_text(#[trigger] k.key_of(a)),
    ensures
        bindings_of(c) == k,
{
    lemma_config_reads_back(k, c);
    assert(has_stable_text(k.key_of(Action::Up)));
    assert(has_stable_text(k.key_of(Action::Down)));
    assert(has_stable_text(k.key_of(Action::Edit)));
    assert(has_stable_text(k.key_of(Action::NewNote)));
    assert(has_stable_text(k.key_of(Action::NewSection)));
    assert(has_stable_text(k.key_of(Action::Save)));
    assert(has_stable_text(k.key_of(Action::Load)));
    assert(has_stable_text(k.key_of(Action::Quit)));
    assert(has_stable_text(k.key_of(Action::Cancel)));
    assert(has_stable_text(k.key_of(Action::Bindings)));
    assert(has_stable_text(k.key_of(Action::Theme)));
    assert(has_stable_text(k.key_of(Action::TimeHack)));
}

} // verus!
