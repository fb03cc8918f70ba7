//! The state machine that key events drive: what each key does in each
//! mode, and the work outside the program that it asks of the caller.

use vstd::prelude::*;
use crate::app::{hack_age, index_down, index_up, shown_time, App, AppView, InputMode};
use crate::bindings::{Action, KeyBindings};
use crate::clock::{elapsed_between, local_now, monotonic_now, Elapsed, Timestamp};
use crate::error::AppError;
use crate::event::{Event, KeyEvent, KeyEventKind};
use crate::key_utils::Key;
use crate::text::join_path;
use crate::theme::ThemeName;

verus! {

/// Work outside the program that a key event asks of the caller.
#[derive(Debug, Clone, PartialEq, Eq)]
pub enum Effect {
    /// Nothing.
    Nothing,
    /// List the files of the save directory and hand them to
    /// [`App::start_load`].
    ListFiles,
    /// Write the entries to the file at this path.
    SaveEntries(String),
    /// Read the file at this path and put its entries in place of the
    /// application's state.
    LoadEntries(String),
    /// Keep these key bindings for the next session.
    SaveKeyBindings(KeyBindings),
    /// Keep this theme for the next session.
    SaveTheme(ThemeName),
}

/// An [`Effect`] as contracts see it.
pub enum EffectView {
    Nothing,
    ListFiles,
    SaveEntries(Seq<char>),
    LoadEntries(Seq<char>),
    SaveKeyBindings(KeyBindings),
    SaveTheme(ThemeName),
}

impl View for Effect {
    type V = EffectView;

    open spec fn view(&self) -> EffectView {
        match self {
            Effect::Nothing => EffectView::Nothing,
            Effect::ListFiles => EffectView::ListFiles,
            Effect::SaveEntries(path) => EffectView::SaveEntries(path@),
            Effect::LoadEntries(path) => EffectView::LoadEntries(path@),
            Effect::SaveKeyBindings(keys) => EffectView::SaveKeyBindings(*keys),
            Effect::SaveTheme(theme) => EffectView::SaveTheme(*theme),
        }
    }
}

/// What the application reads from outside before it handles an event.
#[derive(Debug)]
pub struct Readings {
    /// The time of the system clock.
    pub now: Timestamp,
    /// The reading of the monotonic clock.
    pub started: std::time::Instant,
    /// The time since the time hack was set; no time where none is set.
    pub elapsed: Elapsed,
    /// The path of `notes.csv` in the save directory.
    pub save_path: String,
}

/// [`Readings`] as contracts see them.
pub struct ReadingsView {
    pub now: Timestamp,
    pub started: std::time::Instant,
    pub elapsed: Elapsed,
    pub save_path: Seq<char>,
}

impl View for Readings {
    type V = ReadingsView;

    open spec fn view(&self) -> ReadingsView {
        ReadingsView {
            now: self.now,
            started: self.started,
            elapsed: self.elapsed,
            save_path: self.save_path@,
        }
    }
}

impl AppView {
    /// A key in normal mode. The first of these bindings that holds the key
    /// decides: up, down, edit, new note, new section, save, load, bindings,
    /// theme, time hack. A key that none of them holds does nothing.
    pub open spec fn normal_key(self, code: Key, r: ReadingsView) -> (AppView, EffectView) {
        let k = self.keys;
        if code == k.up {
            (self.select_previous(), EffectView::Nothing)
        } else if code == k.down {
            (self.select_next(), EffectView::Nothing)
        } else if code == k.edit {
            (self.edit_selected(), EffectView::Nothing)
        } else if code == k.new_note {
            (self.start_note(shown_time(self.time_hack, r.now, r.elapsed)), EffectView::Nothing)
        } else if code == k.new_section {
            (self.start_section(), EffectView::Nothing)
        } else if code == k.save {
            (self.start_save(r.save_path), EffectView::Nothing)
        } else if code == k.load {
            (self, EffectView::ListFiles)
        } else if code == k.bindings {
            (self.start_keybindings(), EffectView::Nothing)
        } else if code == k.theme {
            (self.start_theme_menu(), EffectView::Nothing)
        } else if code == k.time_hack {
            (self.start_time_hack(), EffectView::Nothing)
        } else {
            (self, EffectView::Nothing)
        }
    }

    /// The confirm key in a mode that takes text.
    pub open spec fn confirm_input(self, r: ReadingsView) -> (AppView, EffectView) {
        match self.mode {
            InputMode::EditingNote | InputMode::EditingExistingNote => (
                self.finalize_note(),
                EffectView::Nothing,
            ),
            InputMode::EditingSection | InputMode::EditingExistingSection => (
                self.finalize_section(),
                EffectView::Nothing,
            ),
            InputMode::Saving => (
                self.at_rest(),
                if self.input.len() > 0 {
                    EffectView::SaveEntries(self.input)
                } else {
                    EffectView::Nothing
                },
            ),
            InputMode::TimeHack => (self.finalize_time_hack(r.now, r.started), EffectView::Nothing),
            _ => (self, EffectView::Nothing),
        }
    }

    /// A key in a mode that takes text. The key bound to new note confirms
    /// the input and the key bound to cancel drops it; in the time hack
    /// input `r` clears the time hack. Else a character typed with shift or
    /// with no modifier goes in at the cursor, backspace deletes before the
    /// cursor, and the left and right arrows move the cursor.
    pub open spec fn editing_key(self, key: KeyEvent, r: ReadingsView) -> (AppView, EffectView) {
        if key.code == self.keys.new_note {
            self.confirm_input(r)
        } else if key.code == self.keys.cancel {
            (self.cancel_entry(), EffectView::Nothing)
        } else if key.code == Key::Char('r') && self.mode == InputMode::TimeHack {
            (self.reset_time_hack(), EffectView::Nothing)
        } else {
            (
                match key.code {
                    Key::Char(c) => if key.modifiers.types_text() {
                        self.type_char(c)
                    } else {
                        self
                    },
                    Key::Backspace => self.backspace(),
                    Key::Left => self.cursor_left(),
                    Key::Right => self.cursor_right(),
                    _ => self,
                },
                EffectView::Nothing,
            )
        }
    }

    /// A key in the file menu.
    pub open spec fn loading_key(self, code: Key) -> (AppView, EffectView) {
        if code == self.keys.up {
            (AppView { load_selected: index_up(self.load_selected), ..self }, EffectView::Nothing)
        } else if code == self.keys.down {
            (
                AppView {
                    load_selected: index_down(self.load_selected, self.load_files.len()),
                    ..self
                },
                EffectView::Nothing,
            )
        } else if code == self.keys.new_note {
            (
                AppView { mode: InputMode::Normal, ..self },
                if self.load_selected < self.load_files.len() {
                    EffectView::LoadEntries(self.load_files[self.load_selected as int])
                } else {
                    EffectView::Nothing
                },
            )
        } else if code == self.keys.cancel {
            (AppView { mode: InputMode::Normal, ..self }, EffectView::Nothing)
        } else {
            (self, EffectView::Nothing)
        }
    }

    /// A key in the key bindings menu.
    pub open spec fn keybindings_key(self, code: Key) -> AppView {
        if code == self.keys.up {
            AppView { keybind_selected: index_up(self.keybind_selected), ..self }
        } else if code == self.keys.down {
            AppView { keybind_selected: index_down(self.keybind_selected, Action::count()), ..self }
        } else if code == Key::Enter {
            self.start_capture_binding()
        } else if code == self.keys.cancel {
            AppView { mode: InputMode::Normal, ..self }
        } else {
            self
        }
    }

    /// The key pressed for the action that is being bound anew. The cancel
    /// key gives up. The key of the bindings menu is refused with a warning,
    /// unless it is the bindings menu that is being bound. A key that
    /// another action holds is kept aside until the replacement is
    /// confirmed. Any other key is bound at once.
    pub open spec fn capture_key(self, code: Key) -> (AppView, EffectView) {
        match self.capture_action {
            None => (self, EffectView::Nothing),
            Some(action) => if code == self.keys.cancel {
                (
                    AppView { capture_action: None, mode: InputMode::KeyBindings, ..self },
                    EffectView::Nothing,
                )
            } else if code == self.keys.bindings && action != Action::Bindings {
                (AppView { mode: InputMode::BindWarning, ..self }, EffectView::Nothing)
            } else {
                match self.keys.owner(code) {
                    Some(conflict) if conflict != action => (
                        AppView {
                            capture_action: None,
                            pending_key: Some(code),
                            pending_action: Some(action),
                            pending_conflict: Some(conflict),
                            mode: InputMode::ConfirmReplace,
                            ..self
                        },
                        EffectView::Nothing,
                    ),
                    _ => (
                        AppView {
                            capture_action: None,
                            keys: self.keys.with(action, code),
                            mode: InputMode::KeyBindings,
                            ..self
                        },
                        EffectView::SaveKeyBindings(self.keys.with(action, code)),
                    ),
                }
            },
        }
    }

    /// A key at the warning that the key of the bindings menu cannot be
    /// given away: cancel gives up, any other key asks for another key.
    pub open spec fn bind_warning_key(self, code: Key) -> AppView {
        if code == self.keys.cancel {
            AppView { capture_action: None, mode: InputMode::KeyBindings, ..self }
        } else {
            AppView { mode: InputMode::KeyCapture, ..self }
        }
    }

    /// The state without a binding kept aside, back in the bindings menu.
    pub open spec fn without_pending(self) -> AppView {
        AppView {
            pending_key: None,
            pending_action: None,
            pending_conflict: None,
            mode: InputMode::KeyBindings,
            ..self
        }
    }

    /// A key at the question whether a key may be taken from the action that
    /// holds it. Enter takes it: that action is left without a key and the
    /// action being bound gets the key. Cancel leaves the bindings alone.
    pub open spec fn confirm_key(self, code: Key) -> (AppView, EffectView) {
        if code == Key::Enter {
            match (self.pending_key, self.pending_action, self.pending_conflict) {
                (Some(key), Some(action), Some(conflict)) => {
                    let keys = self.keys.with(conflict, Key::Null).with(action, key);
                    (AppView { keys, ..self.without_pending() }, EffectView::SaveKeyBindings(keys))
                },
                _ => (self.without_pending(), EffectView::Nothing),
            }
        } else if code == self.keys.cancel {
            (self.without_pending(), EffectView::Nothing)
        } else {
            (self, EffectView::Nothing)
        }
    }

    /// A key in the theme menu.
    pub open spec fn theme_key(self, code: Key) -> (AppView, EffectView) {
        if code == self.keys.up {
            (AppView { theme_selected: index_up(self.theme_selected), ..self }, EffectView::Nothing)
        } else if code == self.keys.down {
            (
                AppView {
                    theme_selected: index_down(self.theme_selected, ThemeName::count()),
                    ..self
                },
                EffectView::Nothing,
            )
        } else if code == Key::Enter {
            if self.theme_selected < ThemeName::count() {
                let theme = ThemeName::ALL[self.theme_selected as int];
                (AppView { theme, mode: InputMode::Normal, ..self }, EffectView::SaveTheme(theme))
            } else {
                (AppView { mode: InputMode::Normal, ..self }, EffectView::Nothing)
            }
        } else if code == self.keys.cancel {
            (AppView { mode: InputMode::Normal, ..self }, EffectView::Nothing)
        } else {
            (self, EffectView::Nothing)
        }
    }

    /// Whether an event asks to leave the application: the press of the key
    /// bound to quit, in whatever mode.
    pub open spec fn asks_to_quit(self, event: Event) -> bool {
        event matches Event::Key(key) && key.kind == KeyEventKind::Press && key.code == self.keys.quit
    }

    /// The state after an event, and what the event asks of the caller. Only
    /// the press of a key does anything; the mode decides what.
    pub open spec fn step(self, event: Event, r: ReadingsView) -> (AppView, EffectView) {
        match event {
            Event::Key(key) => if key.kind != KeyEventKind::Press {
                (self, EffectView::Nothing)
            } else {
                match self.mode {
                    InputMode::Normal => self.normal_key(key.code, r),
                    InputMode::Loading => self.loading_key(key.code),
                    InputMode::KeyBindings => (self.keybindings_key(key.code), EffectView::Nothing),
                    InputMode::KeyCapture => self.capture_key(key.code),
                    InputMode::ConfirmReplace => self.confirm_key(key.code),
                    InputMode::BindWarning => (self.bind_warning_key(key.code), EffectView::Nothing),
                    InputMode::ThemeSelect => self.theme_key(key.code),
                    InputMode::EditingNote
                    | InputMode::EditingSection
                    | InputMode::EditingExistingNote
                    | InputMode::EditingExistingSection
                    | InputMode::Saving
                    | InputMode::TimeHack => self.editing_key(key, r),
                }
            },
            Event::Other => (self, EffectView::Nothing),
        }
    }
}

impl App {
    /// Processes a key event in normal mode.
    pub fn handle_normal_key(&mut self, key: KeyEvent, readings: &Readings) -> (effect: Effect)
        requires
            old(self)@.wf(),
        ensures
            (final(self)@, effect@) == old(self)@.normal_key(key.code, readings@),
            final(self)@.wf(),
    {
        let code = key.code;
        if code == self.keys.up {
            self.select_previous();
        } else if code == self.keys.down {
            self.select_next();
        } else if code == self.keys.edit {
            self.edit_selected();
        } else if code == self.keys.new_note {
            let time = self.current_time_at(readings.now, readings.elapsed);
            self.start_note_at(time);
        } else if code == self.keys.new_section {
            self.start_section();
        } else if code == self.keys.save {
            self.start_save_at(readings.save_path.clone());
        } else if code == self.keys.load {
            return Effect::ListFiles;
        } else if code == self.keys.bindings {
            self.start_keybindings();
        } else if code == self.keys.theme {
            self.start_theme_menu();
        } else if code == self.keys.time_hack {
            self.start_time_hack();
        }
        Effect::Nothing
    }

    /// Confirms the input of a mode that takes text.
    fn confirm_input(&mut self, readings: &Readings) -> (effect: Effect)
        requires
            old(self)@.wf(),
        ensures
            (final(self)@, effect@) == old(self)@.confirm_input(readings@),
            final(self)@.wf(),
    {
        match self.mode {
            InputMode::EditingNote | InputMode::EditingExistingNote => {
                self.finalize_note();
                Effect::Nothing
            },
            InputMode::EditingSection | InputMode::EditingExistingSection => {
                self.finalize_section();
                Effect::Nothing
            },
            InputMode::Saving => {
                let path = self.input.clone();
                self.input = String::new();
                self.cursor = 0;
                self.mode = InputMode::Normal;
                if path.as_str().is_empty() {
                    Effect::Nothing
                } else {
                    Effect::SaveEntries(path)
                }
            },
            InputMode::TimeHack => {
                self.finalize_time_hack_at(readings.now, readings.started);
                Effect::Nothing
            },
            _ => Effect::Nothing,
        }
    }

    /// Processes a key event in any editing mode.
    pub fn handle_editing_key(&mut self, key: KeyEvent, readings: &Readings) -> (effect: Effect)
        requires
            old(self)@.wf(),
        ensures
            (final(self)@, effect@) == old(self)@.editing_key(key, readings@),
            final(self)@.wf(),
    {
        if key.code == self.keys.new_note {
            return self.confirm_input(readings);
        }
        if key.code == self.keys.cancel {
            self.cancel_entry();
        } else if key.code == Key::Char('r') && self.mode == InputMode::TimeHack {
            self.reset_time_hack();
        } else {
            match key.code {
                Key::Char(c) => {
                    if key.modifiers.bits == 0 || key.modifiers.bits == 1 {
                        self.type_char(c);
                    }
                },
                Key::Backspace => self.backspace(),
                Key::Left => self.cursor_left(),
                Key::Right => self.cursor_right(),
                _ => {},
            }
        }
        Effect::Nothing
    }

    /// Processes a key event in the file menu.
    pub fn handle_loading_key(&mut self, key: KeyEvent) -> (effect: Effect)
        ensures
            (final(self)@, effect@) == old(self)@.loading_key(key.code),
            old(self)@.wf() ==> final(self)@.wf(),
    {
        let code = key.code;
        if code == self.keys.up {
            if self.load_selected > 0 {
                self.load_selected = self.load_selected - 1;
            }
        } else if code == self.keys.down {
            if self.load_files.len() > 0 && self.load_selected < self.load_files.len() - 1 {
                self.load_selected = self.load_selected + 1;
            }
        } else if code == self.keys.new_note {
            self.mode = InputMode::Normal;
            if self.load_selected < self.load_files.len() {
                return Effect::LoadEntries(self.load_files[self.load_selected].clone());
            }
        } else if code == self.keys.cancel {
            self.mode = InputMode::Normal;
        }
        Effect::Nothing
    }

    /// Processes a key event in the key bindings menu.
    pub fn handle_keybindings_key(&mut self, key: KeyEvent)
        ensures
            final(self)@ == old(self)@.keybindings_key(key.code),
            old(self)@.wf() ==> final(self)@.wf(),
    {
        let code = key.code;
        if code == self.keys.up {
            if self.keybind_selected > 0 {
                self.keybind_selected = self.keybind_selected - 1;
            }
        } else if code == self.keys.down {
            if self.keybind_selected < 11 {
                self.keybind_selected = self.keybind_selected + 1;
            }
        } else if code == Key::Enter {
            self.start_capture_binding();
        } else if code == self.keys.cancel {
            self.mode = InputMode::Normal;
        }
    }

    /// Processes the key pressed for the action that is being bound anew.
    pub fn handle_capture_key(&mut self, key: KeyEvent) -> (effect: Effect)
        ensures
            (final(self)@, effect@) == old(self)@.capture_key(key.code),
            old(self)@.wf() ==> final(self)@.wf(),
    {
        let code = key.code;
        if let Some(action) = self.capture_action {
            if code == self.keys.cancel {
                self.capture_action = None;
                self.mode = InputMode::KeyBindings;
            } else if code == self.keys.bindings && action != Action::Bindings {
                self.mode = InputMode::BindWarning;
            } else {
                self.capture_action = None;
                if let Some(conflict) = self.keys.action_for_key(code) {
                    if conflict != action {
                        self.pending_key = Some(code);
                        self.pending_action = Some(action);
                        self.pending_conflict = Some(conflict);
                        self.mode = InputMode::ConfirmReplace;
                        return Effect::Nothing;
                    }
                }
                self.keys.set(action, code);
                self.mode = InputMode::KeyBindings;
                return Effect::SaveKeyBindings(self.keys);
            }
        }
        Effect::Nothing
    }

    /// Processes a key event at the warning about the key of the bindings
    /// menu.
    pub fn handle_bind_warning_key(&mut self, key: KeyEvent)
        ensures
            final(self)@ == old(self)@.bind_warning_key(key.code),
            old(self)@.wf() ==> final(self)@.wf(),
    {
        if key.code == self.keys.cancel {
            self.capture_action = None;
            self.mode = InputMode::KeyBindings;
        } else {
            self.mode = InputMode::KeyCapture;
        }
    }

    /// Processes a key event at the question whether a key may be taken from
    /// the action that holds it.
    pub fn handle_confirm_key(&mut self, key: KeyEvent) -> (effect: Effect)
        ensures
            (final(self)@, effect@) == old(self)@.confirm_key(key.code),
            old(self)@.wf() ==> final(self)@.wf(),
    {
        let code = key.code;
        if code == Key::Enter {
            let pending = (self.pending_key, self.pending_action, self.pending_conflict);
            self.pending_key = None;
            self.pending_action = None;
            self.pending_conflict = None;
            self.mode = InputMode::KeyBindings;
            if let (Some(new_key), Some(new_action), Some(conflict)) = pending {
                self.keys.set(conflict, Key::Null);
                self.keys.set(new_action, new_key);
                return Effect::SaveKeyBindings(self.keys);
            }
        } else if code == self.keys.cancel {
            self.pending_key = None;
            self.pending_action = None;
            self.pending_conflict = None;
            self.mode = InputMode::KeyBindings;
        }
        Effect::Nothing
    }

    /// Processes a key event in the theme menu.
    pub fn handle_theme_key(&mut self, key: KeyEvent) -> (effect: Effect)
        ensures
            (final(self)@, effect@) == old(self)@.theme_key(key.code),
            old(self)@.wf() ==> final(self)@.wf(),
    {
        let code = key.code;
        if code == self.keys.up {
            if self.theme_selected > 0 {
                self.theme_selected = self.theme_selected - 1;
            }
        } else if code == self.keys.down {
            if self.theme_selected < 5 {
                self.theme_selected = self.theme_selected + 1;
            }
        } else if code == Key::Enter {
            self.mode = InputMode::Normal;
            if let Some(theme) = ThemeName::from_index(self.theme_selected) {
                self.theme = theme;
                return Effect::SaveTheme(theme);
            }
        } else if code == self.keys.cancel {
            self.mode = InputMode::Normal;
        }
        Effect::Nothing
    }

    /// Whether an event asks to leave the application. The caller's loop asks
    /// this of each event before it hands the event to [`App::handle_event`].
    pub fn is_quit_event(&self, event: &Event) -> (quit: bool)
        ensures
            quit == self@.asks_to_quit(*event),
    {
        match event {
            Event::Key(key) => key.kind == KeyEventKind::Press && key.code == self.keys.quit,
            Event::Other => false,
        }
    }

    /// Reads what an event may need from outside: both clocks and the path
    /// that a save starts from. The elapsed time is measured from the moment
    /// at which the time hack was set to the reading of the monotonic clock
    /// that is handed back; without a time hack it is no time.
    pub fn take_readings(&self) -> (readings: Readings)
        ensures
            readings@.elapsed == hack_age(self@.time_hack, readings@.started),
    {
        let started = monotonic_now();
        let elapsed = match self.time_hack {
            Some(h) => elapsed_between(started, h.started),
            None => Elapsed { secs: 0, nanos: 0 },
        };
        Readings {
            now: local_now(),
            started,
            elapsed,
            save_path: join_path(self.save_dir.as_str(), "notes.csv"),
        }
    }

    /// Handles a terminal event, given what was read from outside.
    pub fn handle_event_with(&mut self, event: &Event, readings: &Readings) -> (r: Result<
        Effect,
        AppError,
    >)
        requires
            old(self)@.wf(),
        ensures
            r matches Ok(effect) && (final(self)@, effect@) == old(self)@.step(*event, readings@),
            final(self)@.wf(),
    {
        match event {
            Event::Key(key) => {
                let key = *key;
                if key.kind != KeyEventKind::Press {
                    return Ok(Effect::Nothing);
                }
                match self.mode {
                    InputMode::Normal => Ok(self.handle_normal_key(key, readings)),
                    InputMode::Loading => Ok(self.handle_loading_key(key)),
                    InputMode::KeyBindings => {
                        self.handle_keybindings_key(key);
                        Ok(Effect::Nothing)
                    },
                    InputMode::KeyCapture => Ok(self.handle_capture_key(key)),
                    InputMode::ConfirmReplace => Ok(self.handle_confirm_key(key)),
                    InputMode::BindWarning => {
                        self.handle_bind_warning_key(key);
                        Ok(Effect::Nothing)
                    },
                    InputMode::ThemeSelect => Ok(self.handle_theme_key(key)),
                    InputMode::EditingNote
                    | InputMode::EditingSection
                    | InputMode::EditingExistingNote
                    | InputMode::EditingExistingSection
                    | InputMode::Saving
                    | InputMode::TimeHack => Ok(self.handle_editing_key(key, readings)),
                }
            },
            Event::Other => Ok(Effect::Nothing),
        }
    }

    /// Handles a terminal event. The state moves as [`AppView::step`] says,
    /// for what the clocks and the platform gave when they were read; the
    /// elapsed time among the readings is measured from the moment at which
    /// the time hack was set.
    pub fn handle_event(&mut self, event: &Event) -> (r: Result<Effect, AppError>)
        requires
            old(self)@.wf(),
        ensures
            r matches Ok(effect) && exists|readings: ReadingsView|
                readings.elapsed == hack_age(old(self)@.time_hack, readings.started) && (
                    final(self)@,
                    effect@,
                ) == #[trigger] old(self)@.step(*event, readings),
            final(self)@.wf(),
    {
        let readings = self.take_readings();
        self.handle_event_with(event, &readings)
    }
}

} // verus!
