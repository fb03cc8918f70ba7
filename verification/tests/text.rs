use real_time_note_taker::text::{char_count, insert_char, is_blank, remove_char, str_equal};

#[test]
fn blank_texts_hold_white_space_only() {
    assert!(is_blank(""));
    assert!(is_blank(" "));
    assert!(is_blank(" \t\r\n"));
    assert!(is_blank("\u{a0}\u{2003}\u{3000}"));
    assert!(!is_blank("a"));
    assert!(!is_blank("  a  "));
    assert!(!is_blank("\u{200b}"));
    assert!(!is_blank("_"));
}

#[test]
fn being_blank_is_having_nothing_left_after_trimming() {
    for text in ["", "  ", "x", " x ", "\t\n", "\u{a0}", "é ", "\u{1680}\u{2028}"] {
        assert_eq!(is_blank(text), text.trim().is_empty());
    }
}

#[test]
fn characters_are_counted_not_bytes() {
    assert_eq!(char_count(&String::new()), 0);
    assert_eq!(char_count(&"abc".to_string()), 3);
    assert_eq!(char_count(&"héllo 🙂".to_string()), 7);
}

#[test]
fn insert_char_puts_the_character_at_the_place() {
    let mut s = String::new();
    insert_char(&mut s, 0, 'b');
    insert_char(&mut s, 0, 'a');
    insert_char(&mut s, 2, 'd');
    insert_char(&mut s, 2, 'ç');
    assert_eq!(s, "abçd");
    insert_char(&mut s, 3, '🙂');
    assert_eq!(s, "abç🙂d");
}

#[test]
fn remove_char_takes_the_character_at_the_place() {
    let mut s = "abç🙂d".to_string();
    remove_char(&mut s, 3);
    assert_eq!(s, "abçd");
    remove_char(&mut s, 0);
    assert_eq!(s, "bçd");
    remove_char(&mut s, 2);
    assert_eq!(s, "bç");
    remove_char(&mut s, 1);
    remove_char(&mut s, 0);
    assert_eq!(s, "");
}

#[test]
fn texts_are_equal_character_by_character() {
    assert!(str_equal("", ""));
    assert!(str_equal("note", "note"));
    assert!(!str_equal("note", "Note"));
    assert!(!str_equal("note", "notes"));
    assert!(!str_equal("note", ""));
}
