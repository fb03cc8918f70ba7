use chrono::{Local, TimeZone};
use real_time_note_taker::persist::{
    is_csv_name, read_entries, record_kind, write_entries, RecordKind,
};
use real_time_note_taker::{App, AppError, Entry, Note, Section, Timestamp};

fn note(secs: i64, nanos: u32, offset: i32, text: &str) -> Entry {
    Entry::Note(Note { timestamp: Timestamp { secs, nanos, offset }, text: text.to_string() })
}

fn section(title: &str) -> Entry {
    Entry::Section(Section { title: title.to_string() })
}

fn app_with(entries: Vec<Entry>) -> App {
    let mut app = App::new();
    for e in &entries {
        if let Entry::Note(n) = e {
            app.notes.push(n.clone());
        }
    }
    app.entries = entries;
    app
}

fn saved(entries: Vec<Entry>) -> String {
    String::from_utf8(app_with(entries).save_to_file().unwrap()).unwrap()
}

#[test]
fn a_note_is_a_row_of_kind_time_and_text() {
    assert_eq!(
        saved(vec![note(0, 0, 0, "hello")]),
        "note,1970-01-01T00:00:00+00:00,hello\n"
    );
    assert_eq!(
        saved(vec![note(1_704_161_045, 0, 3600, "hi")]),
        "note,2024-01-02T03:04:05+01:00,hi\n"
    );
    assert_eq!(
        saved(vec![note(1_704_161_045, 500_000_000, -18_000, "x")]),
        "note,2024-01-01T21:04:05.500-05:00,x\n"
    );
}

#[test]
fn a_section_is_a_row_with_an_empty_time() {
    assert_eq!(saved(vec![section("Agenda")]), "section,,Agenda\n");
    assert_eq!(saved(vec![section("")]), "section,,\n");
}

#[test]
fn rows_follow_the_order_of_the_entries() {
    assert_eq!(
        saved(vec![section("A"), note(0, 0, 0, "one"), section("B"), note(60, 0, 0, "two")]),
        "section,,A\nnote,1970-01-01T00:00:00+00:00,one\nsection,,B\nnote,1970-01-01T00:01:00+00:00,two\n"
    );
    assert_eq!(saved(vec![]), "");
}

#[test]
fn fields_are_quoted_where_csv_asks_for_it() {
    assert_eq!(saved(vec![section("a,b")]), "section,,\"a,b\"\n");
    assert_eq!(
        saved(vec![section("say \"hi\"")]),
        "section,,\"say \"\"hi\"\"\"\n"
    );
    assert_eq!(
        saved(vec![section("two\nlines")]),
        "section,,\"two\nlines\"\n"
    );
}

#[test]
fn write_entries_is_what_the_application_saves() {
    let entries = vec![section("A"), note(5, 0, 0, "n")];
    assert_eq!(
        write_entries(&entries).unwrap(),
        app_with(entries).save_to_file().unwrap()
    );
}

#[test]
fn a_time_that_cannot_be_written_is_an_error() {
    let far = app_with(vec![section("ok"), note(i64::MAX, 0, 0, "late")]);
    assert_eq!(far.save_to_file(), Err(AppError::Timestamp));
    let zone = app_with(vec![note(0, 0, 86_400, "zone")]);
    assert_eq!(zone.save_to_file(), Err(AppError::Timestamp));
    let nanos = app_with(vec![note(0, 2_000_000_000, 0, "nanos")]);
    assert_eq!(nanos.save_to_file(), Err(AppError::Timestamp));
}

#[test]
fn loading_reads_notes_and_sections() {
    let app = App::load_from_file(
        b"section,,Agenda\nnote,2024-01-02T03:04:05+01:00,hi\nnote,1970-01-01T00:00:00.25Z,first\n",
    )
    .unwrap();
    assert_eq!(app.entries.len(), 3);
    assert_eq!(app.entries[0], section("Agenda"));
    assert_eq!(app.entries[1], note(1_704_161_045, 0, 0, "hi"));
    assert_eq!(app.entries[2], note(0, 250_000_000, 0, "first"));
    assert_eq!(app.notes.len(), 2);
    assert_eq!(app.notes[0].text, "hi");
    assert_eq!(app.notes[0].timestamp.secs, 1_704_161_045);
    assert_eq!(app.notes[1].text, "first");
    assert_eq!(app.notes[1].timestamp.nanos, 250_000_000);
}

#[test]
fn loading_gives_a_fresh_application() {
    let app = App::load_from_file(b"section,,A\n").unwrap();
    let fresh = App::new();
    assert_eq!(app.selected(), None);
    assert_eq!(app.mode(), fresh.mode());
    assert_eq!(app.input(), "");
    assert_eq!(app.cursor(), 0);
    assert_eq!(app.keys, fresh.keys);
    assert_eq!(app.theme, fresh.theme);
    assert_eq!(app.save_dir, fresh.save_dir);
    assert!(app.time_hack.is_none());
    assert!(app.is_well_formed());
}

#[test]
fn loaded_notes_are_shown_in_the_zone_of_the_machine() {
    let app = App::load_from_file(
        b"note,2024-01-02T03:04:05+05:00,east\nnote,2024-07-02T03:04:05-03:00,west\n",
    )
    .unwrap();
    for entry in &app.entries {
        if let Entry::Note(n) = entry {
            let local = Local.timestamp_opt(n.timestamp.secs, 0).unwrap();
            assert_eq!(n.timestamp.offset, local.offset().local_minus_utc());
        } else {
            panic!("Expected note");
        }
    }
}

#[test]
fn quoted_fields_are_read_back() {
    let app =
        App::load_from_file(b"section,,\"a,b\"\nsection,,\"say \"\"hi\"\"\"\nsection,,\"two\nlines\"\n")
            .unwrap();
    assert_eq!(
        app.entries,
        vec![section("a,b"), section("say \"hi\""), section("two\nlines")]
    );
}

#[test]
fn rows_of_another_kind_are_passed_over() {
    let app = App::load_from_file(
        b"header,when,text\nsection,,A\nNote,1970-01-01T00:00:00Z,capital\ncomment,,x\n",
    )
    .unwrap();
    assert_eq!(app.entries, vec![section("A")]);
    assert!(app.notes.is_empty());
}

#[test]
fn an_empty_file_holds_no_entries() {
    let app = App::load_from_file(b"").unwrap();
    assert!(app.entries.is_empty());
    assert!(app.notes.is_empty());
}

#[test]
fn a_time_that_cannot_be_read_is_an_error() {
    assert_eq!(
        App::load_from_file(b"section,,A\nnote,yesterday,x\n").err(),
        Some(AppError::Timestamp)
    );
    assert_eq!(
        App::load_from_file(b"note,,x\n").err(),
        Some(AppError::Timestamp)
    );
}

#[test]
fn a_record_that_is_no_csv_is_an_error() {
    // The second record has fewer fields than the first.
    assert_eq!(
        App::load_from_file(b"section,,A\nsection\n").err(),
        Some(AppError::Csv)
    );
    // Bytes that are no UTF-8.
    assert_eq!(
        App::load_from_file(b"section,,\xff\xfe\n").err(),
        Some(AppError::Csv)
    );
}

#[test]
fn the_first_error_is_reported() {
    assert_eq!(
        App::load_from_file(b"note,bad,x\nsection\n").err(),
        Some(AppError::Timestamp)
    );
    assert_eq!(
        App::load_from_file(b"section,,\xff\nnote,bad,x\n").err(),
        Some(AppError::Csv)
    );
}

#[test]
fn records_tell_their_kind() {
    let fields = |texts: &[&str]| texts.iter().map(|t| t.to_string()).collect::<Vec<String>>();
    assert_eq!(record_kind(&fields(&["note", "t", "x"])), RecordKind::Note);
    assert_eq!(record_kind(&fields(&["section", "", "x"])), RecordKind::Section);
    assert_eq!(record_kind(&fields(&["note", "t", "x", "more"])), RecordKind::Note);
    assert_eq!(record_kind(&fields(&["note", "t"])), RecordKind::Skipped);
    assert_eq!(record_kind(&fields(&["section", ""])), RecordKind::Skipped);
    assert_eq!(record_kind(&fields(&["other", "", "x"])), RecordKind::Skipped);
    assert_eq!(record_kind(&fields(&[])), RecordKind::Skipped);
}

#[test]
fn read_entries_takes_what_was_read() {
    let records = vec![
        Ok(vec!["section".to_string(), String::new(), "A".to_string()]),
        Ok(vec!["skip".to_string()]),
        Ok(vec![
            "note".to_string(),
            "1970-01-01T00:01:00Z".to_string(),
            "n".to_string(),
        ]),
    ];
    assert_eq!(
        read_entries(&records).unwrap(),
        vec![section("A"), note(60, 0, 0, "n")]
    );
}

#[test]
fn what_is_saved_loads_back() {
    let entries = vec![
        section("Start"),
        note(1_700_000_000, 0, 0, "plain"),
        note(1_700_000_001, 123_456_789, 3600, "with, comma"),
        section(""),
        note(1_700_000_002, 1_000, -7200, "say \"hi\"\nsecond line"),
        note(-1, 999_000_000, 0, "before 1970 – ünïcödé 🙂"),
        section("  spaced  "),
        note(1_700_000_003, 0, 19_800, ""),
    ];
    let app = app_with(entries);
    let loaded = App::load_from_file(&app.save_to_file().unwrap()).unwrap();
    assert_eq!(loaded.entries, app.entries);
    assert_eq!(loaded.notes, app.notes);
    let again = App::load_from_file(&loaded.save_to_file().unwrap()).unwrap();
    assert_eq!(again.entries, app.entries);
}

#[test]
fn loading_in_place_puts_a_fresh_state_in_place() {
    let mut app = app_with(vec![section("old"), note(1, 0, 0, "old note")]);
    app.selected = Some(1);
    app.input.push_str("typing");
    app.cursor = 3;
    app.load_from_file_in_place(b"section,,new\n").unwrap();
    assert_eq!(app.entries, vec![section("new")]);
    assert!(app.notes.is_empty());
    assert_eq!(app.selected(), None);
    assert_eq!(app.input(), "");
    assert_eq!(app.cursor(), 0);
    assert!(app.is_well_formed());
}

#[test]
fn loading_in_place_leaves_the_state_on_an_error() {
    let mut app = app_with(vec![section("old"), note(1, 0, 0, "old note")]);
    app.selected = Some(1);
    app.input.push_str("typing");
    assert_eq!(
        app.load_from_file_in_place(b"note,bad,x\n"),
        Err(AppError::Timestamp)
    );
    assert_eq!(app.entries, vec![section("old"), note(1, 0, 0, "old note")]);
    assert_eq!(app.notes.len(), 1);
    assert_eq!(app.selected(), Some(1));
    assert_eq!(app.input(), "typing");
}

#[test]
fn errors_say_what_went_wrong() {
    assert_eq!(AppError::Csv.message(), "malformed CSV record");
    assert_eq!(AppError::Timestamp.message(), "invalid timestamp");
}

#[test]
fn files_that_end_in_csv_are_offered() {
    for name in ["notes.csv", "a.csv", "..csv", "ü.csv", "notes.tar.csv", " .csv"] {
        assert!(is_csv_name(name));
        assert_eq!(
            std::path::Path::new(name).extension().and_then(|e| e.to_str()),
            Some("csv")
        );
    }
    for name in ["", ".csv", "csv", "notes", "notes.CSV", "notes.csv ", "notes.csvx", "notes.txt", "acsv"] {
        assert!(!is_csv_name(name));
        assert_ne!(
            std::path::Path::new(name).extension().and_then(|e| e.to_str()),
            Some("csv")
        );
    }
}
