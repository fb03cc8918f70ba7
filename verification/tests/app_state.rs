use real_time_note_taker::{
    Action, App, Entry, InputMode, Key, KeyBindings, Note, Section, ThemeName, TimeHack,
    TimeOfDay, Timestamp,
};
use std::time::Instant;

fn at(secs: i64) -> Timestamp {
    Timestamp { secs, nanos: 0, offset: 0 }
}

fn add_note(app: &mut App, secs: i64, text: &str) {
    app.start_note_at(at(secs));
    app.input.push_str(text);
    app.finalize_note();
}

fn add_section(app: &mut App, title: &str) {
    app.start_section();
    app.input.push_str(title);
    app.finalize_section();
}

fn text_of(entry: &Entry) -> &str {
    match entry {
        Entry::Note(n) => &n.text,
        Entry::Section(s) => &s.title,
    }
}

#[test]
fn a_new_application_is_at_rest() {
    let app = App::new();
    assert!(app.entries.is_empty());
    assert!(app.notes.is_empty());
    assert_eq!(app.input(), "");
    assert_eq!(app.cursor(), 0);
    assert_eq!(app.mode(), InputMode::Normal);
    assert_eq!(app.mode(), InputMode::default());
    assert_eq!(app.note_time(), None);
    assert!(app.time_hack().is_none());
    assert_eq!(app.selected(), None);
    assert_eq!(app.edit_index, None);
    assert_eq!(*app.keybindings(), KeyBindings::default());
    assert_eq!(app.save_dir, ".");
    assert!(app.load_files.is_empty());
    assert_eq!(app.theme, ThemeName::Default);
    assert_eq!(app.theme(), ThemeName::Default.theme());
    assert_eq!(app.time_source(), "System");
    assert!(app.is_well_formed());
}

#[test]
fn custom_key_bindings_are_taken() {
    let mut keys = KeyBindings::default();
    keys.set(Action::Quit, Key::Char('x'));
    let app = App::with_keybindings(keys);
    assert_eq!(*app.keybindings(), keys);
    assert!(app.entries.is_empty());
    let mut other = App::new();
    other.set_keybindings(keys);
    assert_eq!(other.keys.get(Action::Quit), Key::Char('x'));
}

#[test]
fn selection_does_not_move_in_an_empty_list() {
    let mut app = App::new();
    app.select_next();
    assert_eq!(app.selected(), None);
    app.select_previous();
    assert_eq!(app.selected(), None);
}

#[test]
fn selection_starts_at_the_first_entry() {
    let mut app = App::load_from_file(b"section,,A\nsection,,B\nsection,,C\n").unwrap();
    assert_eq!(app.selected(), None);
    app.select_previous();
    assert_eq!(app.selected(), None);
    app.select_next();
    assert_eq!(app.selected(), Some(0));
}

#[test]
fn selection_stays_within_the_list() {
    let mut app = App::load_from_file(b"section,,A\nsection,,B\nsection,,C\n").unwrap();
    let moves = [
        true, true, true, true, true, false, false, false, false, true, false, true, true, true,
    ];
    let expected = [0, 1, 2, 2, 2, 1, 0, 0, 0, 1, 0, 1, 2, 2];
    for (forward, index) in moves.iter().zip(expected) {
        if *forward {
            app.select_next();
        } else {
            app.select_previous();
        }
        assert_eq!(app.selected(), Some(index));
        assert!(app.is_well_formed());
    }
}

#[test]
fn a_finalized_note_keeps_the_time_at_which_it_was_started() {
    let mut app = App::new();
    app.start_note_at(Timestamp { secs: 100, nanos: 7, offset: 3600 });
    assert_eq!(app.mode(), InputMode::EditingNote);
    assert_eq!(
        app.note_time().map(|t| (t.secs, t.nanos, t.offset)),
        Some((100, 7, 3600))
    );
    app.input.push_str("late");
    app.finalize_note();
    let stored = &app.notes[0];
    assert_eq!(
        (stored.timestamp.secs, stored.timestamp.nanos, stored.timestamp.offset),
        (100, 7, 3600)
    );
    assert_eq!(app.entries[0], Entry::Note(stored.clone()));
    assert_eq!(app.selected(), Some(0));
    assert_eq!(app.note_time(), None);
    assert_eq!(app.input(), "");
    assert_eq!(app.cursor(), 0);
}

#[test]
fn starting_a_note_clears_what_was_being_done() {
    let mut app = App::new();
    add_section(&mut app, "A");
    app.edit_selected();
    assert_eq!(app.edit_index, Some(0));
    app.start_note_at(at(5));
    assert_eq!(app.edit_index, None);
    assert_eq!(app.input(), "");
    assert_eq!(app.cursor(), 0);
    app.input.push_str("n");
    app.finalize_note();
    assert_eq!(app.entries.len(), 2);
    assert_eq!(text_of(&app.entries[0]), "A");
}

#[test]
fn starting_a_section_drops_the_pending_time() {
    let mut app = App::new();
    app.start_note_at(at(5));
    app.input.push_str("half");
    app.start_section();
    assert_eq!(app.mode(), InputMode::EditingSection);
    assert_eq!(app.note_time(), None);
    assert_eq!(app.input(), "");
}

#[test]
fn finalize_note_without_anything_pending_does_nothing() {
    let mut app = App::new();
    app.input.push_str("stray");
    app.cursor = 2;
    app.mode = InputMode::Saving;
    app.finalize_note();
    assert!(app.entries.is_empty());
    assert_eq!(app.input(), "stray");
    assert_eq!(app.cursor(), 2);
    assert_eq!(app.mode(), InputMode::Saving);
}

#[test]
fn an_empty_note_is_kept() {
    let mut app = App::new();
    add_note(&mut app, 1, "");
    assert_eq!(app.notes.len(), 1);
    assert_eq!(app.notes[0].text, "");
}

#[test]
fn editing_a_note_updates_both_lists_and_keeps_the_count() {
    let mut app = App::new();
    add_section(&mut app, "S");
    add_note(&mut app, 10, "first");
    add_note(&mut app, 20, "second");
    app.select_previous();
    assert_eq!(app.selected(), Some(1));
    app.edit_selected();
    assert_eq!(app.mode(), InputMode::EditingExistingNote);
    assert_eq!(app.input(), "first");
    assert_eq!(app.cursor(), 5);
    assert_eq!(app.note_time().map(|t| t.secs), Some(10));
    assert_eq!(app.edit_index, Some(1));
    app.input.clear();
    app.input.push_str("updated");
    app.finalize_note();
    assert_eq!(app.entries.len(), 3);
    assert_eq!(app.notes.len(), 2);
    assert_eq!(
        app.entries[1],
        Entry::Note(Note { timestamp: at(10), text: "updated".to_string() })
    );
    assert_eq!(app.notes[0].text, "updated");
    assert_eq!(app.notes[0].timestamp.secs, 10);
    assert_eq!(app.notes[1].text, "second");
    assert_eq!(text_of(&app.entries[0]), "S");
    assert_eq!(text_of(&app.entries[2]), "second");
    assert_eq!(app.selected(), Some(1));
    assert_eq!(app.mode(), InputMode::Normal);
    assert_eq!(app.edit_index, None);
    assert_eq!(app.note_time(), None);
    assert_eq!(app.input(), "");
    assert!(app.is_well_formed());
}

#[test]
fn of_two_notes_of_one_instant_the_first_in_the_list_takes_the_text() {
    let mut app = App::new();
    add_note(&mut app, 10, "a");
    add_note(&mut app, 10, "b");
    app.edit_selected();
    assert_eq!(app.edit_index, Some(1));
    app.input.clear();
    app.input.push_str("changed");
    app.finalize_note();
    assert_eq!(text_of(&app.entries[0]), "a");
    assert_eq!(text_of(&app.entries[1]), "changed");
    assert_eq!(app.notes[0].text, "changed");
    assert_eq!(app.notes[1].text, "b");
}

#[test]
fn editing_a_section_replaces_its_title() {
    let mut app = App::new();
    add_note(&mut app, 10, "n");
    add_section(&mut app, "sec");
    app.edit_selected();
    assert_eq!(app.mode(), InputMode::EditingExistingSection);
    assert_eq!(app.input(), "sec");
    assert_eq!(app.cursor(), 3);
    assert_eq!(app.note_time(), None);
    app.input.clear();
    app.finalize_section();
    assert_eq!(app.entries[1], Entry::Section(Section { title: String::new() }));
    assert_eq!(app.entries.len(), 2);
    assert_eq!(app.notes.len(), 1);
    assert_eq!(app.mode(), InputMode::Normal);
    assert_eq!(app.edit_index, None);
}

#[test]
fn edit_selected_without_a_selection_does_nothing() {
    let mut app = App::load_from_file(b"section,,A\n").unwrap();
    app.edit_selected();
    assert_eq!(app.mode(), InputMode::Normal);
    assert_eq!(app.edit_index, None);
}

#[test]
fn the_cursor_goes_behind_the_last_character_of_the_text() {
    let mut app = App::new();
    add_section(&mut app, "héllo 🙂");
    app.edit_selected();
    assert_eq!(app.cursor(), 7);
    app.type_char('!');
    app.finalize_section();
    assert_eq!(text_of(&app.entries[0]), "héllo 🙂!");
}

#[test]
fn a_section_without_a_title_is_not_stored() {
    for blank in ["", " ", "   ", "\t", " \t \n", "\u{a0}\u{2003}"] {
        let mut app = App::new();
        add_note(&mut app, 1, "n");
        app.start_section();
        app.input.push_str(blank);
        app.cursor = 0;
        app.finalize_section();
        assert_eq!(app.entries.len(), 1);
        assert_eq!(text_of(&app.entries[0]), "n");
        assert_eq!(app.selected(), Some(0));
        assert_eq!(app.mode(), InputMode::Normal);
        assert_eq!(app.input(), "");
    }
}

#[test]
fn a_section_keeps_its_title_as_typed() {
    let mut app = App::new();
    add_section(&mut app, "  Agenda ");
    assert_eq!(
        app.entries,
        vec![Entry::Section(Section { title: "  Agenda ".to_string() })]
    );
    assert_eq!(app.selected(), Some(0));
    assert!(app.notes.is_empty());
}

#[test]
fn cancel_drops_the_edit_and_keeps_the_entries() {
    let mut app = App::new();
    add_note(&mut app, 1, "keep");
    app.edit_selected();
    app.input.push_str(" and more");
    app.cancel_entry();
    assert_eq!(text_of(&app.entries[0]), "keep");
    assert_eq!(app.notes[0].text, "keep");
    assert_eq!(app.input(), "");
    assert_eq!(app.cursor(), 0);
    assert_eq!(app.edit_index, None);
    assert_eq!(app.note_time(), None);
    assert_eq!(app.mode(), InputMode::Normal);
    assert_eq!(app.selected(), Some(0));
}

#[test]
fn typing_goes_in_at_the_cursor() {
    let mut app = App::new();
    app.start_section();
    for c in "ac".chars() {
        app.type_char(c);
    }
    assert_eq!((app.input(), app.cursor()), ("ac", 2));
    app.cursor_left();
    app.type_char('b');
    assert_eq!((app.input(), app.cursor()), ("abc", 2));
    app.cursor_left();
    app.cursor_left();
    app.cursor_left();
    assert_eq!(app.cursor(), 0);
    app.type_char('>');
    assert_eq!((app.input(), app.cursor()), (">abc", 1));
    app.cursor_right();
    app.cursor_right();
    app.cursor_right();
    app.cursor_right();
    assert_eq!(app.cursor(), 4);
    app.type_char('<');
    assert_eq!((app.input(), app.cursor()), (">abc<", 5));
}

#[test]
fn typing_counts_characters_not_bytes() {
    let mut app = App::new();
    app.start_section();
    app.type_char('é');
    app.type_char('a');
    app.type_char('🙂');
    assert_eq!((app.input(), app.cursor()), ("éa🙂", 3));
    app.cursor_left();
    app.cursor_left();
    app.type_char('ß');
    assert_eq!((app.input(), app.cursor()), ("éßa🙂", 2));
    app.backspace();
    app.backspace();
    assert_eq!((app.input(), app.cursor()), ("a🙂", 0));
    app.backspace();
    assert_eq!((app.input(), app.cursor()), ("a🙂", 0));
}

#[test]
fn backspace_deletes_before_the_cursor() {
    let mut app = App::new();
    app.start_section();
    app.input.push_str("abc");
    app.cursor = 3;
    app.backspace();
    assert_eq!((app.input(), app.cursor()), ("ab", 2));
    app.cursor_left();
    app.backspace();
    assert_eq!((app.input(), app.cursor()), ("b", 0));
    app.backspace();
    assert_eq!((app.input(), app.cursor()), ("b", 0));
}

#[test]
fn the_menus_open_on_their_first_line() {
    let mut app = App::new();
    app.keybind_selected = 7;
    app.start_keybindings();
    assert_eq!(app.mode(), InputMode::KeyBindings);
    assert_eq!(app.keybind_selected, 0);

    app.load_selected = 3;
    app.input.push_str("junk");
    app.cursor = 1;
    app.start_load(vec!["a.csv".to_string(), "b.csv".to_string()]);
    assert_eq!(app.mode(), InputMode::Loading);
    assert_eq!(app.load_files, vec!["a.csv".to_string(), "b.csv".to_string()]);
    assert_eq!(app.load_selected, 0);
    assert_eq!((app.input(), app.cursor()), ("", 0));
}

#[test]
fn the_theme_menu_opens_on_the_current_theme() {
    for (i, theme) in ThemeName::ALL.iter().enumerate() {
        let mut app = App::new();
        app.theme = *theme;
        app.start_theme_menu();
        assert_eq!(app.mode(), InputMode::ThemeSelect);
        assert_eq!(app.theme_selected, i);
    }
}

#[test]
fn saving_starts_from_notes_csv_in_the_save_directory() {
    let mut app = App::new();
    app.save_dir = "some_dir".to_string();
    app.start_save();
    assert_eq!(app.mode(), InputMode::Saving);
    let expected = format!("some_dir{}notes.csv", std::path::MAIN_SEPARATOR);
    assert_eq!(app.input(), expected);
    assert_eq!(app.cursor(), expected.chars().count());

    let mut other = App::new();
    other.start_save_at("x/ü.csv".to_string());
    assert_eq!((other.input(), other.cursor()), ("x/ü.csv", 7));
}

#[test]
fn capture_starts_for_the_selected_action() {
    for (i, action) in Action::ALL.iter().enumerate() {
        let mut app = App::new();
        app.start_keybindings();
        app.keybind_selected = i;
        app.start_capture_binding();
        assert_eq!(app.mode(), InputMode::KeyCapture);
        assert_eq!(app.capture_action, Some(*action));
    }
    let mut app = App::new();
    app.start_keybindings();
    app.keybind_selected = 12;
    app.start_capture_binding();
    assert_eq!(app.mode(), InputMode::KeyBindings);
    assert_eq!(app.capture_action, None);
}

#[test]
fn the_time_hack_input_sets_the_clock_and_leaves_a_note() {
    let mut app = App::new();
    add_section(&mut app, "S");
    app.start_time_hack();
    assert_eq!(app.mode(), InputMode::TimeHack);
    app.input.push_str("01:02:03");
    let now = Timestamp { secs: 5 * 86_400 + 45_296, nanos: 9, offset: 0 };
    let started = Instant::now();
    app.finalize_time_hack_at(now, started);
    let hack = app.time_hack().unwrap();
    assert_eq!(hack.base, TimeOfDay { secs: 3723, nanos: 0 });
    assert_eq!(hack.started, started);
    assert_eq!(app.entries.len(), 2);
    assert_eq!(app.notes.len(), 1);
    assert_eq!(app.notes[0].text, "Time Hack: 12:34:56 -> 01:02:03");
    assert_eq!(
        (app.notes[0].timestamp.secs, app.notes[0].timestamp.nanos),
        (now.secs, 9)
    );
    assert_eq!(app.entries[1], Entry::Note(app.notes[0].clone()));
    assert_eq!(app.selected(), Some(1));
    assert_eq!(app.mode(), InputMode::Normal);
    assert_eq!((app.input(), app.cursor()), ("", 0));
    assert_eq!(app.time_source(), "Hacked");
}

#[test]
fn the_time_hack_input_takes_a_fraction_of_a_second() {
    let mut app = App::new();
    app.start_time_hack();
    app.input.push_str("23:59:59.250");
    app.finalize_time_hack_at(at(0), Instant::now());
    assert_eq!(
        app.time_hack().unwrap().base,
        TimeOfDay { secs: 86_399, nanos: 250_000_000 }
    );
    assert_eq!(app.notes[0].text, "Time Hack: 00:00:00 -> 23:59:59");
}

#[test]
fn an_empty_time_hack_input_clears_the_hack() {
    let mut app = App::new();
    app.time_hack = Some(TimeHack { base: TimeOfDay { secs: 1, nanos: 0 }, started: Instant::now() });
    app.start_time_hack();
    app.finalize_time_hack_at(at(0), Instant::now());
    assert!(app.time_hack().is_none());
    assert!(app.entries.is_empty());
    assert_eq!(app.mode(), InputMode::Normal);
    assert_eq!(app.time_source(), "System");
}

#[test]
fn a_time_hack_input_that_is_no_time_changes_nothing() {
    let mut app = App::new();
    let set = TimeHack { base: TimeOfDay { secs: 1, nanos: 0 }, started: Instant::now() };
    app.time_hack = Some(set);
    app.start_time_hack();
    app.input.push_str("soon");
    app.cursor = 4;
    app.finalize_time_hack_at(at(0), Instant::now());
    assert_eq!(app.time_hack().map(|h| h.base), Some(set.base));
    assert!(app.entries.is_empty());
    assert_eq!(app.mode(), InputMode::Normal);
    assert_eq!((app.input(), app.cursor()), ("", 0));

    let mut fresh = App::new();
    fresh.start_time_hack();
    fresh.input.push_str("24:00:00");
    fresh.finalize_time_hack();
    assert!(fresh.time_hack().is_none());
    assert!(fresh.entries.is_empty());
}

#[test]
fn resetting_the_time_hack_clears_it() {
    let mut app = App::new();
    app.time_hack = Some(TimeHack { base: TimeOfDay { secs: 1, nanos: 0 }, started: Instant::now() });
    app.start_time_hack();
    app.input.push_str("01:0");
    app.cursor = 4;
    app.reset_time_hack();
    assert!(app.time_hack().is_none());
    assert_eq!(app.mode(), InputMode::Normal);
    assert_eq!((app.input(), app.cursor()), ("", 0));
}

#[test]
fn a_state_out_of_bounds_is_not_well_formed() {
    let mut app = App::new();
    add_note(&mut app, 1, "n");
    assert!(app.is_well_formed());

    let mut selected = app.clone();
    selected.selected = Some(1);
    assert!(!selected.is_well_formed());

    let mut editing = app.clone();
    editing.edit_index = Some(5);
    assert!(!editing.is_well_formed());

    let mut cursor = app.clone();
    cursor.input.push_str("é");
    cursor.cursor = 2;
    assert!(!cursor.is_well_formed());
    cursor.cursor = 1;
    assert!(cursor.is_well_formed());

    let mut notes = app.clone();
    notes.notes.clear();
    assert!(!notes.is_well_formed());
    notes.notes.push(Note { timestamp: Timestamp { secs: 1, nanos: 0, offset: 60 }, text: String::new() });
    assert!(notes.is_well_formed());
}

#[test]
fn the_default_save_directory_is_the_first_that_is_there() {
    let dir = |s: &str| Some(s.to_string());
    assert_eq!(App::default_save_dir(dir("data"), dir("work")), "data");
    assert_eq!(App::default_save_dir(dir("data"), None), "data");
    assert_eq!(App::default_save_dir(None, dir("work")), "work");
    assert_eq!(App::default_save_dir(None, None), ".");
}
