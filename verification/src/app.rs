//! The application state and the operations on it.

use vstd::prelude::*;
use crate::bindings::{default_bindings, Action, KeyBindings};
use crate::clock::{
    clock_text, elapsed_between, elapsed_time, format_clock, hacked_clock, hacked_time,
    hack_input_time, local_now, monotonic_now, parse_time_of_day, Elapsed, TimeHack, Timestamp,
};
use crate::entry::{
    entries_agree, entry_views, note_views, Entry, EntryView, Note, NoteView, Section, SectionView,
};
use crate::error::AppError;
use crate::key_utils::Key;
use crate::persist::{
    csv_records, decoded, encoded, field_texts, read_csv_records, read_entries, write_entries,
};
use crate::text::{blank, char_count, insert_char, is_blank, join_path, remove_char};
use crate::theme::{Theme, ThemeName};

verus! {

/// Input mode for the application.
#[derive(Debug, Clone, Copy, PartialEq, Eq, Hash, Structural)]
pub enum InputMode {
    /// Normal mode where key events control the application.
    Normal,
    /// Editing mode for entering a note.
    EditingNote,
    /// Editing mode for entering a section title.
    EditingSection,
    /// Editing an existing note.
    EditingExistingNote,
    /// Editing an existing section title.
    EditingExistingSection,
    /// Prompting for a file path to save entries.
    Saving,
    /// Prompting for a file to load entries from.
    Loading,
    /// Entering a time hack value.
    TimeHack,
    /// Selecting a key binding to change.
    KeyBindings,
    /// Capturing a new key for a binding.
    KeyCapture,
    /// Confirming replacement of an existing binding.
    ConfirmReplace,
    /// Warning shown when the bindings key would be lost.
    BindWarning,
    /// Selecting a color theme.
    ThemeSelect,
}

impl Default for InputMode {
    fn default() -> (m: InputMode)
        ensures
            m == InputMode::Normal,
    {
        InputMode::Normal
    }
}

impl InputMode {
    /// Whether the mode takes text into the input buffer.
    pub open spec fn edits_text(self) -> bool {
        match self {
            InputMode::EditingNote
            | InputMode::EditingSection
            | InputMode::EditingExistingNote
            | InputMode::EditingExistingSection
            | InputMode::Saving
            | InputMode::TimeHack => true,
            _ => false,
        }
    }
}

/// Main application state for the note taking application.
///
/// `App` stores all user facing data such as the list of notes, current input
/// buffer and UI navigation state. Its fields are open to readers. Every
/// method keeps a well-formed state well formed (see [`AppView::wf`]), and
/// the methods that go by the selection, the entry being edited or the
/// cursor ask for one.
#[derive(Debug, Clone)]
pub struct App {
    /// Collected entries in the order they were created.
    pub entries: Vec<Entry>,
    /// Collected notes for convenience.
    pub notes: Vec<Note>,
    /// Current input buffer when editing.
    pub input: String,
    /// Cursor position within the input buffer, in characters.
    pub cursor: usize,
    /// Current mode.
    pub mode: InputMode,
    /// Timestamp captured when note editing started.
    pub note_time: Option<Timestamp>,
    /// Active time hack.
    pub time_hack: Option<TimeHack>,
    /// Selected entry index when navigating.
    pub selected: Option<usize>,
    /// Index of the entry currently being edited if editing an existing entry.
    pub edit_index: Option<usize>,
    /// Key bindings controlling the application.
    pub keys: KeyBindings,
    /// Directory used for saving and loading files.
    pub save_dir: String,
    /// Available files when loading from disk.
    pub load_files: Vec<String>,
    /// Selected file index when loading.
    pub load_selected: usize,
    /// Selected binding index when editing key bindings.
    pub keybind_selected: usize,
    /// Action being re-bound when capturing a key.
    pub capture_action: Option<Action>,
    /// Key to assign after confirmation.
    pub pending_key: Option<Key>,
    /// Action being assigned during confirmation.
    pub pending_action: Option<Action>,
    /// Existing action that currently uses the pending key.
    pub pending_conflict: Option<Action>,
    /// Selected color theme.
    pub theme: ThemeName,
    /// Selected index when choosing a theme.
    pub theme_selected: usize,
}

/// The application state as contracts see it: texts as sequences of
/// characters, lists as sequences.
pub struct AppView {
    pub entries: Seq<EntryView>,
    pub notes: Seq<NoteView>,
    pub input: Seq<char>,
    pub cursor: usize,
    pub mode: InputMode,
    pub note_time: Option<Timestamp>,
    pub time_hack: Option<TimeHack>,
    pub selected: Option<usize>,
    pub edit_index: Option<usize>,
    pub keys: KeyBindings,
    pub save_dir: Seq<char>,
    pub load_files: Seq<Seq<char>>,
    pub load_selected: usize,
    pub keybind_selected: usize,
    pub capture_action: Option<Action>,
    pub pending_key: Option<Key>,
    pub pending_action: Option<Action>,
    pub pending_conflict: Option<Action>,
    pub theme: ThemeName,
    pub theme_selected: usize,
}

impl View for App {
    type V = AppView;

    open spec fn view(&self) -> AppView {
        AppView {
            entries: entry_views(self.entries@),
            notes: note_views(self.notes@),
            input: self.input@,
            cursor: self.cursor,
            mode: self.mode,
            note_time: self.note_time,
            time_hack: self.time_hack,
            selected: self.selected,
            edit_index: self.edit_index,
            keys: self.keys,
            save_dir: self.save_dir@,
            load_files: field_texts(self.load_files@),
            load_selected: self.load_selected,
            keybind_selected: self.keybind_selected,
            capture_action: self.capture_action,
            pending_key: self.pending_key,
            pending_action: self.pending_action,
            pending_conflict: self.pending_conflict,
            theme: self.theme,
            theme_selected: self.theme_selected,
        }
    }
}

/// Whether some note of the list was started at the instant `t`.
pub open spec fn has_instant(notes: Seq<NoteView>, t: Timestamp) -> bool {
    exists|j: int| 0 <= j < notes.len() && (#[trigger] notes[j]).timestamp.same_instant(t)
}

/// Whether every note among the entries has a note of the same instant in
/// the list of notes.
pub open spec fn notes_cover(entries: Seq<EntryView>, notes: Seq<NoteView>) -> bool {
    forall|i: int|
        0 <= i < entries.len() && (#[trigger] entries[i]) is Note ==> has_instant(
            notes,
            entries[i]->Note_0.timestamp,
        )
}

/// An index one place nearer the start of a list, unless it is the first.
pub open spec fn index_up(i: usize) -> usize {
    if i > 0 {
        (i - 1) as usize
    } else {
        i
    }
}

/// An index one place nearer the end of a list of `len` items, unless it is
/// the last.
pub open spec fn index_down(i: usize, len: nat) -> usize {
    if i + 1 < len {
        (i + 1) as usize
    } else {
        i
    }
}

/// The selection after a step towards the first entry.
pub open spec fn previous_selection(selected: Option<usize>) -> Option<usize> {
    match selected {
        Some(i) => if i > 0 {
            Some((i - 1) as usize)
        } else {
            selected
        },
        None => None,
    }
}

/// The selection after a step towards the last of `len` entries.
pub open spec fn next_selection(selected: Option<usize>, len: nat) -> Option<usize> {
    match selected {
        Some(i) => if i + 1 < len {
            Some((i + 1) as usize)
        } else {
            selected
        },
        None => if len > 0 {
            Some(0)
        } else {
            None
        },
    }
}

/// The state of an application that has just been started: no entries, the
/// built-in key bindings, the default theme, and the working directory to
/// save in.
pub open spec fn fresh_app() -> AppView {
    AppView {
        entries: Seq::empty(),
        notes: Seq::empty(),
        input: Seq::empty(),
        cursor: 0,
        mode: InputMode::Normal,
        note_time: None,
        time_hack: None,
        selected: None,
        edit_index: None,
        keys: default_bindings(),
        save_dir: seq!['.'],
        load_files: Seq::empty(),
        load_selected: 0,
        keybind_selected: 0,
        capture_action: None,
        pending_key: None,
        pending_action: None,
        pending_conflict: None,
        theme: ThemeName::Default,
        theme_selected: 0,
    }
}

impl AppView {
    /// Whether the state is well formed: the selection and the entry being
    /// edited, where there is one, are entries of the list; the cursor lies
    /// within the input; and every note among the entries has its
    /// counterpart in the list of notes.
    pub open spec fn wf(self) -> bool {
        &&& self.selected matches Some(i) ==> i < self.entries.len()
        &&& self.edit_index matches Some(i) ==> i < self.entries.len()
        &&& self.cursor <= self.input.len()
        &&& notes_cover(self.entries, self.notes)
    }

    /// Back to normal mode with an empty input.
    pub open spec fn at_rest(self) -> AppView {
        AppView { input: Seq::empty(), cursor: 0, mode: InputMode::Normal, ..self }
    }

    /// The state after a step towards the first entry.
    pub open spec fn select_previous(self) -> AppView {
        AppView { selected: previous_selection(self.selected), ..self }
    }

    /// The state after a step towards the last entry.
    pub open spec fn select_next(self) -> AppView {
        AppView { selected: next_selection(self.selected, self.entries.len()), ..self }
    }

    /// The state after the selected entry is opened for editing: its text is in
    /// the input with the cursor behind it. Without a selection, the state as it
    /// is.
    pub open spec fn edit_selected(self) -> AppView {
        match self.selected {
            None => self,
            Some(idx) => match self.entries[idx as int] {
                EntryView::Note(n) => AppView {
                    input: n.text,
                    cursor: n.text.len() as usize,
                    note_time: Some(n.timestamp),
                    edit_index: Some(idx),
                    mode: InputMode::EditingExistingNote,
                    ..self
                },
                EntryView::Section(s) => AppView {
                    input: s.title,
                    cursor: s.title.len() as usize,
                    note_time: None,
                    edit_index: Some(idx),
                    mode: InputMode::EditingExistingSection,
                    ..self
                },
            },
        }
    }

    /// The state after a note is started at the given time.
    pub open spec fn start_note(self, time: Timestamp) -> AppView {
        AppView {
            note_time: Some(time),
            input: Seq::empty(),
            cursor: 0,
            edit_index: None,
            mode: InputMode::EditingNote,
            ..self
        }
    }

    /// The state after a section is started.
    pub open spec fn start_section(self) -> AppView {
        AppView {
            note_time: None,
            input: Seq::empty(),
            cursor: 0,
            edit_index: None,
            mode: InputMode::EditingSection,
            ..self
        }
    }

    /// The state after the save prompt is opened on the given path.
    pub open spec fn start_save(self, path: Seq<char>) -> AppView {
        AppView { input: path, cursor: path.len() as usize, mode: InputMode::Saving, ..self }
    }

    /// The state after the file menu is opened on the given files.
    pub open spec fn start_load(self, files: Seq<Seq<char>>) -> AppView {
        AppView {
            load_files: files,
            load_selected: 0,
            input: Seq::empty(),
            cursor: 0,
            mode: InputMode::Loading,
            ..self
        }
    }

    /// The state after the key bindings menu is opened.
    pub open spec fn start_keybindings(self) -> AppView {
        AppView { keybind_selected: 0, mode: InputMode::KeyBindings, ..self }
    }

    /// The state after the theme menu is opened, on the current theme.
    pub open spec fn start_theme_menu(self) -> AppView {
        AppView {
            theme_selected: self.theme.index() as usize,
            mode: InputMode::ThemeSelect,
            ..self
        }
    }

    /// The state after the time hack input is opened.
    pub open spec fn start_time_hack(self) -> AppView {
        AppView { input: Seq::empty(), cursor: 0, mode: InputMode::TimeHack, ..self }
    }

    /// The state after a key is asked for the action selected in the key
    /// bindings menu.
    pub open spec fn start_capture_binding(self) -> AppView {
        if self.keybind_selected < Action::count() {
            AppView {
                capture_action: Some(Action::ALL[self.keybind_selected as int]),
                mode: InputMode::KeyCapture,
                ..self
            }
        } else {
            self
        }
    }

    /// The state after the current edit is dropped.
    pub open spec fn cancel_entry(self) -> AppView {
        AppView { note_time: None, edit_index: None, ..self.at_rest() }
    }
}

/// The place of the first note of the list that was started at the instant
/// `t`.
pub open spec fn first_at_instant(notes: Seq<NoteView>, t: Timestamp) -> Option<int> {
    if has_instant(notes, t) {
        Some(
            choose|j: int|
                0 <= j < notes.len() && (#[trigger] notes[j]).timestamp.same_instant(t) && forall|k: int|
                    0 <= k < j ==> !(#[trigger] notes[k]).timestamp.same_instant(t),
        )
    } else {
        None
    }
}

/// The list of notes with the text of the first note of the instant `t`
/// replaced; the list as it is where no note is of that instant.
pub open spec fn revised(notes: Seq<NoteView>, t: Timestamp, text: Seq<char>) -> Seq<NoteView> {
    match first_at_instant(notes, t) {
        Some(j) => notes.update(j, NoteView { timestamp: notes[j].timestamp, text }),
        None => notes,
    }
}

/// The text of the note that records a time hack: the time of the system
/// clock and the time that the hacked clock shows in its place.
pub open spec fn hack_note_text(now: Timestamp, hacked: Timestamp) -> Seq<char> {
    "Time Hack: "@ + clock_text(now) + " -> "@ + clock_text(hacked)
}

/// No time at all.
pub open spec fn no_time() -> Elapsed {
    Elapsed { secs: 0, nanos: 0 }
}

/// The time that has passed since the time hack was set, at the reading
/// `reading` of the monotonic clock; no time where none is set.
pub open spec fn hack_age(hack: Option<TimeHack>, reading: std::time::Instant) -> Elapsed {
    match hack {
        Some(h) => elapsed_time(reading, h.started),
        None => no_time(),
    }
}

/// The time that the application goes by: the hacked time where a time hack
/// is set and `elapsed` has passed since it was, else the time `now` of the
/// system clock.
pub open spec fn shown_time(hack: Option<TimeHack>, now: Timestamp, elapsed: Elapsed) -> Timestamp {
    match hack {
        Some(h) => hacked_time(h.base, now, elapsed),
        None => now,
    }
}

impl AppView {
    /// The entry list with one more entry, which is selected.
    pub open spec fn with_entry(self, entry: EntryView) -> AppView {
        AppView {
            entries: self.entries.push(entry),
            selected: Some(self.entries.len() as usize),
            ..self
        }
    }

    /// The state with one more note, in both lists, which is selected.
    pub open spec fn with_note(self, note: NoteView) -> AppView {
        AppView { notes: self.notes.push(note), ..self.with_entry(EntryView::Note(note)) }
    }

    /// The state after the note in the input is finalized. With an entry being
    /// edited that is a note, its text and the text of the first note of the
    /// same instant are replaced. With none, the pending note is added and
    /// selected. With neither, the state as it is.
    pub open spec fn finalize_note(self) -> AppView {
        match self.edit_index {
            Some(idx) => {
                let done = AppView {
                    edit_index: None,
                    mode: InputMode::Normal,
                    note_time: None,
                    cursor: 0,
                    ..self
                };
                match self.entries[idx as int] {
                    EntryView::Note(n) => AppView {
                        entries: self.entries.update(
                            idx as int,
                            EntryView::Note(NoteView { timestamp: n.timestamp, text: self.input }),
                        ),
                        notes: revised(self.notes, n.timestamp, self.input),
                        input: Seq::empty(),
                        ..done
                    },
                    EntryView::Section(_) => done,
                }
            },
            None => match self.note_time {
                Some(time) => AppView {
                    note_time: None,
                    ..self.with_note(NoteView { timestamp: time, text: self.input }).at_rest()
                },
                None => self,
            },
        }
    }

    /// The state after the section in the input is finalized. With an entry
    /// being edited that is a section, its title is replaced. With none, a
    /// section is added and selected, unless the title is blank.
    pub open spec fn finalize_section(self) -> AppView {
        let done = AppView { edit_index: None, ..self.at_rest() };
        match self.edit_index {
            Some(idx) => match self.entries[idx as int] {
                EntryView::Section(_) => AppView {
                    entries: self.entries.update(
                        idx as int,
                        EntryView::Section(SectionView { title: self.input }),
                    ),
                    note_time: None,
                    ..done
                },
                EntryView::Note(_) => AppView { note_time: None, ..done },
            },
            None => if blank(self.input) {
                done
            } else {
                done.with_entry(EntryView::Section(SectionView { title: self.input }))
            },
        }
    }

    /// The state after the time hack input is confirmed at the time `now` of
    /// the system clock and the reading `started` of the monotonic clock.
    pub open spec fn finalize_time_hack(self, now: Timestamp, started: std::time::Instant) -> AppView {
        if self.input.len() == 0 {
            AppView { time_hack: None, ..self.at_rest() }
        } else {
            match hack_input_time(self.input) {
                Some(base) => AppView {
                    time_hack: Some(TimeHack { base, started }),
                    ..self.with_note(
                        NoteView {
                            timestamp: now,
                            text: hack_note_text(now, hacked_time(base, now, no_time())),
                        },
                    ).at_rest()
                },
                None => self.at_rest(),
            }
        }
    }

    /// The state after the time hack is cleared from its input.
    pub open spec fn reset_time_hack(self) -> AppView {
        AppView { time_hack: None, ..self.at_rest() }
    }
}

/// A note whose timestamp is kept stays covered, and so does every other
/// entry, when texts change but no instant does.
pub proof fn lemma_cover_kept(
    entries: Seq<EntryView>,
    notes: Seq<NoteView>,
    entries2: Seq<EntryView>,
    notes2: Seq<NoteView>,
)
    requires
        notes_cover(entries, notes),
        entries2.len() == entries.len(),
        notes2.len() == notes.len(),
        forall|i: int|
            0 <= i < entries.len() && (#[trigger] entries2[i]) is Note ==> entries[i] is Note
                && entries[i]->Note_0.timestamp.same_instant(entries2[i]->Note_0.timestamp),
        forall|j: int|
            0 <= j < notes.len() ==> (#[trigger] notes2[j]).timestamp.same_instant(notes[j].timestamp),
    ensures
        notes_cover(entries2, notes2),
{
    assert forall|i: int| 0 <= i < entries2.len() && (#[trigger] entries2[i]) is Note implies has_instant(
        notes2,
        entries2[i]->Note_0.timestamp,
    ) by {
        assert(entries[i] is Note);
        let t = entries[i]->Note_0.timestamp;
        assert(has_instant(notes, t));
        let j = choose|j: int| 0 <= j < notes.len() && (#[trigger] notes[j]).timestamp.same_instant(t);
        assert(notes2[j].timestamp.same_instant(entries2[i]->Note_0.timestamp));
    }
}

/// Adding a note to both lists keeps every note covered.
pub proof fn lemma_cover_with_note(entries: Seq<EntryView>, notes: Seq<NoteView>, note: NoteView)
    requires
        notes_cover(entries, notes),
    ensures
        notes_cover(entries.push(EntryView::Note(note)), notes.push(note)),
{
    let entries2 = entries.push(EntryView::Note(note));
    let notes2 = notes.push(note);
    assert forall|i: int| 0 <= i < entries2.len() && (#[trigger] entries2[i]) is Note implies has_instant(
        notes2,
        entries2[i]->Note_0.timestamp,
    ) by {
        if i < entries.len() {
            assert(entries[i] is Note);
            let t = entries[i]->Note_0.timestamp;
            assert(has_instant(notes, t));
            let j = choose|j: int| 0 <= j < notes.len() && (#[trigger] notes[j]).timestamp.same_instant(t);
            assert(notes2[j].timestamp.same_instant(t));
        } else {
            assert(notes2[notes.len() as int].timestamp.same_instant(note.timestamp));
        }
    }
}

/// Adding a section keeps every note covered.
pub proof fn lemma_cover_with_section(entries: Seq<EntryView>, notes: Seq<NoteView>, s: SectionView)
    requires
        notes_cover(entries, notes),
    ensures
        notes_cover(entries.push(EntryView::Section(s)), notes),
{
    let entries2 = entries.push(EntryView::Section(s));
    assert forall|i: int| 0 <= i < entries2.len() && (#[trigger] entries2[i]) is Note implies has_instant(
        notes,
        entries2[i]->Note_0.timestamp,
    ) by {
        assert(entries[i] is Note);
    }
}

/// The first note of an instant is the only place that fits its description.
pub proof fn lemma_first_at_instant(notes: Seq<NoteView>, t: Timestamp, r: Option<int>)
    requires
        match r {
            Some(j) => 0 <= j < notes.len() && notes[j].timestamp.same_instant(t) && forall|k: int|
                0 <= k < j ==> !(#[trigger] notes[k]).timestamp.same_instant(t),
            None => forall|k: int| 0 <= k < notes.len() ==> !(#[trigger] notes[k]).timestamp.same_instant(t),
        },
    ensures
        first_at_instant(notes, t) == r,
{
    match r {
        Some(j) => {
            assert(has_instant(notes, t));
            let c = first_at_instant(notes, t)->0;
            assert(0 <= c < notes.len() && notes[c].timestamp.same_instant(t));
            assert(!(c < j));
            assert(!(j < c));
        },
        None => {},
    }
}

/// Among the notes of an instant there is a first one.
pub proof fn lemma_first_note_exists(notes: Seq<NoteView>, t: Timestamp, n: int) -> (j: int)
    requires
        0 <= n < notes.len(),
        notes[n].timestamp.same_instant(t),
    ensures
        0 <= j <= n,
        first_at_instant(notes, t) == Some(j),
        notes[j].timestamp.same_instant(t),
        forall|k: int| 0 <= k < j ==> !(#[trigger] notes[k]).timestamp.same_instant(t),
    decreases n,
{
    if exists|k: int| 0 <= k < n && (#[trigger] notes[k]).timestamp.same_instant(t) {
        let k = choose|k: int| 0 <= k < n && (#[trigger] notes[k]).timestamp.same_instant(t);
        lemma_first_note_exists(notes, t, k)
    } else {
        lemma_first_at_instant(notes, t, Some(n));
        n
    }
}

/// The place of the first note of the list that was started at the instant
/// `t`.
pub fn find_note(notes: &Vec<Note>, t: Timestamp) -> (r: Option<usize>)
    ensures
        match r {
            Some(j) => j < notes.len() && first_at_instant(note_views(notes@), t) == Some(j as int),
            None => first_at_instant(note_views(notes@), t) is None,
        },
{
    let mut j: usize = 0;
    while j < notes.len()
        invariant
            j <= notes.len(),
            forall|k: int| 0 <= k < j ==> !(#[trigger] note_views(notes@)[k]).timestamp.same_instant(t),
        decreases notes.len() - j,
    {
        if notes[j].timestamp.secs == t.secs && notes[j].timestamp.nanos == t.nanos {
            proof {
                lemma_first_at_instant(note_views(notes@), t, Some(j as int));
            }
            return Some(j);
        }
        j += 1;
    }
    proof {
        lemma_first_at_instant(note_views(notes@), t, None);
    }
    None
}

impl AppView {
    /// The state after a character is typed at the cursor.
    pub open spec fn type_char(self, c: char) -> AppView {
        AppView {
            input: self.input.insert(self.cursor as int, c),
            cursor: (self.cursor + 1) as usize,
            ..self
        }
    }

    /// The state after the character before the cursor is deleted.
    pub open spec fn backspace(self) -> AppView {
        if self.cursor > 0 {
            AppView {
                input: self.input.remove(self.cursor - 1),
                cursor: (self.cursor - 1) as usize,
                ..self
            }
        } else {
            self
        }
    }

    /// The state after the cursor moves one character to the left.
    pub open spec fn cursor_left(self) -> AppView {
        AppView { cursor: index_up(self.cursor), ..self }
    }

    /// The state after the cursor moves one character to the right.
    pub open spec fn cursor_right(self) -> AppView {
        if self.cursor < self.input.len() {
            AppView { cursor: (self.cursor + 1) as usize, ..self }
        } else {
            self
        }
    }
}

/// The notes among the entries, in order.
pub open spec fn notes_of(entries: Seq<EntryView>) -> Seq<NoteView>
    decreases entries.len(),
{
    if entries.len() == 0 {
        Seq::empty()
    } else {
        match entries.last() {
            EntryView::Note(n) => notes_of(entries.drop_last()).push(n),
            EntryView::Section(_) => notes_of(entries.drop_last()),
        }
    }
}

/// The notes among the entries cover them.
pub proof fn lemma_notes_of_cover(entries: Seq<EntryView>)
    ensures
        notes_cover(entries, notes_of(entries)),
    decreases entries.len(),
{
    if entries.len() > 0 {
        let head = entries.drop_last();
        lemma_notes_of_cover(head);
        assert(entries =~= head.push(entries.last()));
        match entries.last() {
            EntryView::Note(n) => lemma_cover_with_note(head, notes_of(head), n),
            EntryView::Section(s) => lemma_cover_with_section(head, notes_of(head), s),
        }
    }
}

impl Default for App {
    fn default() -> (app: App)
        ensures
            app@ == fresh_app(),
            app@.wf(),
    {
        let app = App {
            entries: Vec::new(),
            notes: Vec::new(),
            input: String::new(),
            cursor: 0,
            mode: InputMode::Normal,
            note_time: None,
            time_hack: None,
            selected: None,
            edit_index: None,
            keys: KeyBindings::default(),
            save_dir: ".".to_owned(),
            load_files: Vec::new(),
            load_selected: 0,
            keybind_selected: 0,
            capture_action: None,
            pending_key: None,
            pending_action: None,
            pending_conflict: None,
            theme: ThemeName::Default,
            theme_selected: 0,
        };
        proof {
            reveal_strlit(".");
            assert(app.save_dir@ =~= seq!['.']);
            assert(app@.entries =~= Seq::<EntryView>::empty());
            assert(app@.notes =~= Seq::<NoteView>::empty());
            assert(app@.load_files =~= Seq::<Seq<char>>::empty());
        }
        app
    }
}

impl App {
    /// Returns the directory where files are saved by default: the data
    /// directory of the application where there is one, else the working
    /// directory, else `.`.
    pub fn default_save_dir(data_dir: Option<String>, working_dir: Option<String>) -> (dir: String)
        ensures
            dir@ == match (data_dir, working_dir) {
                (Some(data), _) => data@,
                (None, Some(working)) => working@,
                (None, None) => seq!['.'],
            },
    {
        match data_dir {
            Some(data) => data,
            None => match working_dir {
                Some(working) => working,
                None => {
                    proof {
                        reveal_strlit(".");
                        assert("."@ =~= seq!['.']);
                    }
                    ".".to_owned()
                },
            },
        }
    }

    /// Creates a new [`App`] with default settings.
    pub fn new() -> (app: App)
        ensures
            app@ == fresh_app(),
            app@.wf(),
    {
        App::default()
    }

    /// Creates a new [`App`] with custom key bindings.
    pub fn with_keybindings(keys: KeyBindings) -> (app: App)
        ensures
            app@ == (AppView { keys, ..fresh_app() }),
            app@.wf(),
    {
        let mut app = App::default();
        app.keys = keys;
        app
    }

    /// Replaces the key bindings with the provided ones.
    pub fn set_keybindings(&mut self, keys: KeyBindings)
        ensures
            final(self)@ == (AppView { keys, ..old(self)@ }),
    {
        self.keys = keys;
    }

    /// Returns the current key bindings.
    pub fn keybindings(&self) -> (keys: &KeyBindings)
        ensures
            *keys == self@.keys,
    {
        &self.keys
    }

    /// Returns the active theme configuration.
    pub fn theme(&self) -> (t: Theme)
        ensures
            t == self@.theme.palette(),
    {
        self.theme.theme()
    }

    /// Returns current input mode.
    pub fn mode(&self) -> (m: InputMode)
        ensures
            m == self@.mode,
    {
        self.mode
    }

    /// Returns current input buffer.
    pub fn input(&self) -> (s: &str)
        ensures
            s@ == self@.input,
    {
        self.input.as_str()
    }

    /// Returns the cursor position within the input buffer.
    pub fn cursor(&self) -> (c: usize)
        ensures
            c == self@.cursor,
    {
        self.cursor
    }

    /// Returns the timestamp of the note being edited if present.
    pub fn note_time(&self) -> (t: Option<Timestamp>)
        ensures
            t == self@.note_time,
    {
        self.note_time
    }

    /// Returns the active time hack if set.
    pub fn time_hack(&self) -> (h: Option<TimeHack>)
        ensures
            h == self@.time_hack,
    {
        self.time_hack
    }

    /// Returns the currently selected entry index if any.
    pub fn selected(&self) -> (s: Option<usize>)
        ensures
            s == self@.selected,
    {
        self.selected
    }

    /// Whether the state is well formed, which the methods that change it
    /// ask for and keep.
    pub fn is_well_formed(&self) -> (ok: bool)
        ensures
            ok == self@.wf(),
    {
        if let Some(i) = self.selected {
            if i >= self.entries.len() {
                return false;
            }
        }
        if let Some(i) = self.edit_index {
            if i >= self.entries.len() {
                return false;
            }
        }
        if self.cursor > char_count(&self.input) {
            return false;
        }
        let mut i: usize = 0;
        while i < self.entries.len()
            invariant
                i <= self.entries.len(),
                forall|k: int|
                    0 <= k < i && (#[trigger] self@.entries[k]) is Note ==> has_instant(
                        self@.notes,
                        self@.entries[k]->Note_0.timestamp,
                    ),
            decreases self.entries.len() - i,
        {
            match &self.entries[i] {
                Entry::Note(n) => {
                    if find_note(&self.notes, n.timestamp).is_none() {
                        assert(self@.entries[i as int] is Note);
                        return false;
                    }
                },
                Entry::Section(_) => {},
            }
            i += 1;
        }
        true
    }

    /// Move selection to the previous entry if any.
    pub fn select_previous(&mut self)
        ensures
            final(self)@ == old(self)@.select_previous(),
            old(self)@.wf() ==> final(self)@.wf(),
    {
        match self.selected {
            Some(i) => {
                if i > 0 {
                    self.selected = Some(i - 1);
                }
            },
            None => {},
        }
    }

    /// Move selection to the next entry if any.
    pub fn select_next(&mut self)
        ensures
            final(self)@ == old(self)@.select_next(),
            old(self)@.wf() ==> final(self)@.wf(),
    {
        match self.selected {
            Some(i) => {
                if self.entries.len() > 0 && i < self.entries.len() - 1 {
                    self.selected = Some(i + 1);
                }
            },
            None => {
                if self.entries.len() > 0 {
                    self.selected = Some(0);
                }
            },
        }
    }

    /// The time that the application goes by, given the time `now` of the
    /// system clock and the time `elapsed` since the time hack was set.
    pub fn current_time_at(&self, now: Timestamp, elapsed: Elapsed) -> (t: Timestamp)
        ensures
            t == shown_time(self@.time_hack, now, elapsed),
    {
        match self.time_hack {
            Some(h) => hacked_clock(h.base, now, elapsed),
            None => now,
        }
    }

    /// Returns the current timestamp considering any active time hack: reads
    /// the system clock and, under a time hack, the monotonic clock.
    pub fn current_time(&self) -> (t: Timestamp)
        ensures
            exists|now: Timestamp, reading: std::time::Instant|
                t == #[trigger] shown_time(self@.time_hack, now, hack_age(self@.time_hack, reading)),
    {
        let now = local_now();
        match self.time_hack {
            Some(h) => {
                let reading = monotonic_now();
                let t = self.current_time_at(now, elapsed_between(reading, h.started));
                assert(t == shown_time(self@.time_hack, now, hack_age(self@.time_hack, reading)));
                t
            },
            None => {
                let t = self.current_time_at(now, Elapsed { secs: 0, nanos: 0 });
                proof {
                    let reading: std::time::Instant = arbitrary();
                    assert(t == shown_time(self@.time_hack, now, hack_age(self@.time_hack, reading)));
                }
                t
            },
        }
    }

    /// Returns the current time source name.
    pub fn time_source(&self) -> (s: &'static str)
        ensures
            s@ == (if self@.time_hack is Some {
                "Hacked"@
            } else {
                "System"@
            }),
    {
        if self.time_hack.is_some() {
            "Hacked"
        } else {
            "System"
        }
    }

    /// Begin editing the selected entry if any.
    pub fn edit_selected(&mut self)
        requires
            old(self)@.wf(),
        ensures
            final(self)@ == old(self)@.edit_selected(),
            final(self)@.wf(),
    {
        if let Some(idx) = self.selected {
            let (text, time, mode) = match &self.entries[idx] {
                Entry::Note(n) => (n.text.clone(), Some(n.timestamp), InputMode::EditingExistingNote),
                Entry::Section(s) => (s.title.clone(), None, InputMode::EditingExistingSection),
            };
            self.cursor = char_count(&text);
            self.input = text;
            self.note_time = time;
            self.edit_index = Some(idx);
            self.mode = mode;
        }
    }

    /// Starts a new note with the given timestamp.
    pub fn start_note_at(&mut self, time: Timestamp)
        ensures
            final(self)@ == old(self)@.start_note(time),
            old(self)@.wf() ==> final(self)@.wf(),
    {
        self.note_time = Some(time);
        self.input = String::new();
        self.cursor = 0;
        self.edit_index = None;
        self.mode = InputMode::EditingNote;
    }

    /// Starts a new note capturing the current timestamp: the time that the
    /// application goes by, for what the clocks gave when they were read.
    pub fn start_note(&mut self)
        ensures
            exists|now: Timestamp, reading: std::time::Instant|
                final(self)@ == old(self)@.start_note(
                    #[trigger] shown_time(
                        old(self)@.time_hack,
                        now,
                        hack_age(old(self)@.time_hack, reading),
                    ),
                ),
            old(self)@.wf() ==> final(self)@.wf(),
    {
        let time = self.current_time();
        self.start_note_at(time);
    }

    /// Starts a new section entry.
    pub fn start_section(&mut self)
        ensures
            final(self)@ == old(self)@.start_section(),
            old(self)@.wf() ==> final(self)@.wf(),
    {
        self.note_time = None;
        self.input = String::new();
        self.cursor = 0;
        self.edit_index = None;
        self.mode = InputMode::EditingSection;
    }

    /// Begin entering a file path to save the current entries, starting from
    /// the path given.
    pub fn start_save_at(&mut self, path: String)
        ensures
            final(self)@ == old(self)@.start_save(path@),
            old(self)@.wf() ==> final(self)@.wf(),
    {
        self.cursor = char_count(&path);
        self.input = path;
        self.mode = InputMode::Saving;
    }

    /// Begin entering a file path to save the current entries, starting from
    /// `notes.csv` in the save directory.
    pub fn start_save(&mut self)
        ensures
            final(self)@ == old(self)@.start_save(final(self)@.input),
            old(self)@.wf() ==> final(self)@.wf(),
    {
        let path = join_path(self.save_dir.as_str(), "notes.csv");
        self.start_save_at(path);
    }

    /// Begin choosing a file to load entries from, among the files given.
    pub fn start_load(&mut self, files: Vec<String>)
        ensures
            final(self)@ == old(self)@.start_load(field_texts(files@)),
            old(self)@.wf() ==> final(self)@.wf(),
    {
        self.load_files = files;
        self.load_selected = 0;
        self.input = String::new();
        self.cursor = 0;
        self.mode = InputMode::Loading;
    }

    /// Open the key bindings menu.
    pub fn start_keybindings(&mut self)
        ensures
            final(self)@ == old(self)@.start_keybindings(),
            old(self)@.wf() ==> final(self)@.wf(),
    {
        self.keybind_selected = 0;
        self.mode = InputMode::KeyBindings;
    }

    /// Open the theme selection menu, with the current theme selected.
    pub fn start_theme_menu(&mut self)
        ensures
            final(self)@ == old(self)@.start_theme_menu(),
            old(self)@.wf() ==> final(self)@.wf(),
    {
        self.theme_selected = self.theme.position();
        self.mode = InputMode::ThemeSelect;
    }

    /// Open the time hack input.
    pub fn start_time_hack(&mut self)
        ensures
            final(self)@ == old(self)@.start_time_hack(),
            old(self)@.wf() ==> final(self)@.wf(),
    {
        self.input = String::new();
        self.cursor = 0;
        self.mode = InputMode::TimeHack;
    }

    /// Begin capturing a key for the action selected in the key bindings
    /// menu.
    pub fn start_capture_binding(&mut self)
        ensures
            final(self)@ == old(self)@.start_capture_binding(),
            old(self)@.wf() ==> final(self)@.wf(),
    {
        if let Some(action) = Action::from_index(self.keybind_selected) {
            self.capture_action = Some(action);
            self.mode = InputMode::KeyCapture;
        }
    }

    /// Cancels the current entry editing.
    pub fn cancel_entry(&mut self)
        ensures
            final(self)@ == old(self)@.cancel_entry(),
            old(self)@.wf() ==> final(self)@.wf(),
    {
        self.input = String::new();
        self.note_time = None;
        self.edit_index = None;
        self.cursor = 0;
        self.mode = InputMode::Normal;
    }

    /// Finalizes the note being edited: the new text replaces the text of
    /// the entry and of the first note of the same instant in the list of
    /// notes. Without an entry being edited, the pending note is added to
    /// both lists and selected. Nothing happens where there is neither.
    pub fn finalize_note(&mut self)
        requires
            old(self)@.wf(),
        ensures
            final(self)@ == old(self)@.finalize_note(),
            final(self)@.wf(),
    {
        if let Some(idx) = self.edit_index {
            self.edit_index = None;
            let found = match &self.entries[idx] {
                Entry::Note(n) => Some(n.timestamp),
                Entry::Section(_) => None,
            };
            if let Some(timestamp) = found {
                let text = self.input.clone();
                self.input = String::new();
                if let Some(j) = find_note(&self.notes, timestamp) {
                    let kept = self.notes[j].timestamp;
                    self.notes.set(j, Note { timestamp: kept, text: text.clone() });
                }
                self.entries.set(idx, Entry::Note(Note { timestamp, text }));
                proof {
                    let before = old(self)@;
                    assert(self@.entries =~= before.entries.update(
                        idx as int,
                        EntryView::Note(NoteView { timestamp, text: before.input }),
                    ));
                    assert(self@.notes =~= revised(before.notes, timestamp, before.input));
                    lemma_cover_kept(before.entries, before.notes, self@.entries, self@.notes);
                }
            }
            self.mode = InputMode::Normal;
            self.note_time = None;
            self.cursor = 0;
        } else if let Some(time) = self.note_time {
            self.note_time = None;
            let text = self.input.clone();
            self.input = String::new();
            self.cursor = 0;
            self.mode = InputMode::Normal;
            self.add_note(Note { timestamp: time, text });
        }
    }

    /// Adds a note to both lists and selects it.
    fn add_note(&mut self, note: Note)
        ensures
            final(self)@ == old(self)@.with_note(note@),
            old(self)@.wf() ==> final(self)@.wf(),
    {
        self.notes.push(note.duplicate());
        self.entries.push(Entry::Note(note));
        self.selected = Some(self.entries.len() - 1);
        proof {
            let before = old(self)@;
            assert(self@.entries =~= before.entries.push(EntryView::Note(note@)));
            assert(self@.notes =~= before.notes.push(note@));
            if before.wf() {
                lemma_cover_with_note(before.entries, before.notes, note@);
            }
        }
    }

    /// Finalizes a section entry: the new title replaces the title of the
    /// section being edited. Without one, a section with the title is added
    /// and selected, unless nothing but white space is left of the title.
    pub fn finalize_section(&mut self)
        requires
            old(self)@.wf(),
        ensures
            final(self)@ == old(self)@.finalize_section(),
            final(self)@.wf(),
    {
        let title = self.input.clone();
        self.input = String::new();
        if let Some(idx) = self.edit_index {
            self.edit_index = None;
            let is_section = match &self.entries[idx] {
                Entry::Section(_) => true,
                Entry::Note(_) => false,
            };
            if is_section {
                self.entries.set(idx, Entry::Section(Section { title }));
                proof {
                    let before = old(self)@;
                    assert(self@.entries =~= before.entries.update(
                        idx as int,
                        EntryView::Section(SectionView { title: before.input }),
                    ));
                    lemma_cover_kept(before.entries, before.notes, self@.entries, self@.notes);
                }
            }
            self.note_time = None;
        } else if !is_blank(title.as_str()) {
            self.entries.push(Entry::Section(Section { title }));
            self.selected = Some(self.entries.len() - 1);
            proof {
                let before = old(self)@;
                let section = SectionView { title: before.input };
                assert(self@.entries =~= before.entries.push(EntryView::Section(section)));
                lemma_cover_with_section(before.entries, before.notes, section);
            }
        }
        self.mode = InputMode::Normal;
        self.cursor = 0;
    }

    /// Finalizes the time hack input at the time `now` of the system clock
    /// and the reading `started` of the monotonic clock. An empty input
    /// clears the time hack. A time of day sets it, and a note of the time
    /// `now` that records the change is added and selected. Any other input
    /// leaves the time hack as it is.
    pub fn finalize_time_hack_at(&mut self, now: Timestamp, started: std::time::Instant)
        ensures
            final(self)@ == old(self)@.finalize_time_hack(now, started),
            old(self)@.wf() ==> final(self)@.wf(),
    {
        if self.input.as_str().is_empty() {
            self.time_hack = None;
        } else if let Some(base) = parse_time_of_day(self.input.as_str()) {
            self.time_hack = Some(TimeHack { base, started });
            let hacked = hacked_clock(base, now, Elapsed { secs: 0, nanos: 0 });
            let mut text = "Time Hack: ".to_owned();
            text.append(format_clock(&now).as_str());
            text.append(" -> ");
            text.append(format_clock(&hacked).as_str());
            self.add_note(Note { timestamp: now, text });
        }
        self.input = String::new();
        self.cursor = 0;
        self.mode = InputMode::Normal;
    }

    /// Finalizes the time hack input, reading both clocks.
    pub fn finalize_time_hack(&mut self)
        ensures
            exists|now: Timestamp, started: std::time::Instant|
                final(self)@ == #[trigger] old(self)@.finalize_time_hack(now, started),
            old(self)@.wf() ==> final(self)@.wf(),
    {
        let now = local_now();
        let started = monotonic_now();
        self.finalize_time_hack_at(now, started);
    }

    /// Clears the time hack and leaves the time hack input.
    pub fn reset_time_hack(&mut self)
        ensures
            final(self)@ == old(self)@.reset_time_hack(),
            old(self)@.wf() ==> final(self)@.wf(),
    {
        self.time_hack = None;
        self.input = String::new();
        self.cursor = 0;
        self.mode = InputMode::Normal;
    }

    /// Types a character at the cursor.
    pub fn type_char(&mut self, c: char)
        requires
            old(self)@.wf(),
        ensures
            final(self)@ == old(self)@.type_char(c),
            final(self)@.wf(),
    {
        insert_char(&mut self.input, self.cursor, c);
        let n = char_count(&self.input);
        assert(self.cursor < n);
        self.cursor = self.cursor + 1;
    }

    /// Deletes the character before the cursor.
    pub fn backspace(&mut self)
        requires
            old(self)@.wf(),
        ensures
            final(self)@ == old(self)@.backspace(),
            final(self)@.wf(),
    {
        if self.cursor > 0 {
            self.cursor = self.cursor - 1;
            remove_char(&mut self.input, self.cursor);
        }
    }

    /// Moves the cursor one character to the left.
    pub fn cursor_left(&mut self)
        ensures
            final(self)@ == old(self)@.cursor_left(),
            old(self)@.wf() ==> final(self)@.wf(),
    {
        if self.cursor > 0 {
            self.cursor = self.cursor - 1;
        }
    }

    /// Moves the cursor one character to the right.
    pub fn cursor_right(&mut self)
        ensures
            final(self)@ == old(self)@.cursor_right(),
            old(self)@.wf() ==> final(self)@.wf(),
    {
        if self.cursor < char_count(&self.input) {
            self.cursor = self.cursor + 1;
        }
    }

    /// Renders all entries as the contents of a CSV file.
    ///
    /// # Errors
    /// The error of the first entry that cannot be written.
    pub fn save_to_file(&self) -> (r: Result<Vec<u8>, AppError>)
        ensures
            match r {
                Ok(bytes) => encoded(self@.entries) == Ok::<Seq<u8>, AppError>(bytes@),
                Err(e) => encoded(self@.entries) == Err::<Seq<u8>, AppError>(e),
            },
    {
        write_entries(&self.entries)
    }

    /// Builds a fresh application that holds the entries of a CSV file, given
    /// the file's contents. The entries are those that the records of the
    /// file stand for, each note shown in the machine's zone; the list of
    /// notes holds the notes among them.
    ///
    /// # Errors
    /// The error of the first record that cannot be read.
    pub fn load_from_file(data: &[u8]) -> (r: Result<App, AppError>)
        ensures
            match r {
                Ok(app) => {
                    &&& decoded(csv_records(data@)) matches Ok(d) && entries_agree(app@.entries, d)
                    &&& app@.notes == notes_of(app@.entries)
                    &&& app@ == (AppView { entries: app@.entries, notes: app@.notes, ..fresh_app() })
                    &&& app@.wf()
                },
                Err(e) => decoded(csv_records(data@)) == Err::<Seq<EntryView>, AppError>(e),
            },
    {
        let records = read_csv_records(data);
        let entries = match read_entries(&records) {
            Ok(entries) => entries,
            Err(e) => {
                return Err(e);
            },
        };
        let ghost views = entry_views(entries@);
        let mut notes: Vec<Note> = Vec::new();
        let mut i: usize = 0;
        assert(views.take(0) =~= Seq::<EntryView>::empty());
        while i < entries.len()
            invariant
                i <= entries.len(),
                views == entry_views(entries@),
                note_views(notes@) == notes_of(views.take(i as int)),
            decreases entries.len() - i,
        {
            let ghost before = note_views(notes@);
            proof {
                assert(views.take(i + 1).drop_last() =~= views.take(i as int));
                assert(views.take(i + 1).last() == entries@[i as int]@);
            }
            match &entries[i] {
                Entry::Note(n) => {
                    notes.push(n.duplicate());
                    assert(note_views(notes@) =~= before.push(n@));
                },
                Entry::Section(_) => {},
            }
            i += 1;
        }
        assert(views.take(i as int) =~= views);
        let mut app = App::default();
        app.entries = entries;
        app.notes = notes;
        proof {
            lemma_notes_of_cover(views);
        }
        Ok(app)
    }

    /// Puts the entries of a CSV file, given the file's contents, in place
    /// of the current state, as [`App::load_from_file`] builds it. On an
    /// error the state stays as it is.
    ///
    /// # Errors
    /// The error of the first record that cannot be read.
    pub fn load_from_file_in_place(&mut self, data: &[u8]) -> (r: Result<(), AppError>)
        ensures
            match r {
                Ok(_) => {
                    &&& decoded(csv_records(data@)) matches Ok(d) && entries_agree(final(self)@.entries, d)
                    &&& final(self)@.notes == notes_of(final(self)@.entries)
                    &&& final(self)@ == (AppView {
                        entries: final(self)@.entries,
                        notes: final(self)@.notes,
                        ..fresh_app()
                    })
                    &&& final(self)@.wf()
                },
                Err(e) => {
                    &&& decoded(csv_records(data@)) == Err::<Seq<EntryView>, AppError>(e)
                    &&& *final(self) == *old(self)
                },
            },
    {
        match App::load_from_file(data) {
            Ok(app) => {
                *self = app;
                Ok(())
            },
            Err(e) => Err(e),
        }
    }
}

} // verus!
