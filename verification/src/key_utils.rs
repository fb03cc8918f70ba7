//! Keys and their stable text form, used to keep key bindings in a
//! configuration file.

use vstd::prelude::*;
use crate::text::{push_char, str_equal};

verus! {

/// A media key.
#[derive(Debug, Clone, Copy, PartialEq, Eq, Hash, Structural)]
pub enum MediaKey {
    Play,
    Pause,
    PlayPause,
    Reverse,
    Stop,
    FastForward,
    Rewind,
    TrackNext,
    TrackPrevious,
    Record,
    LowerVolume,
    RaiseVolume,
    MuteVolume,
}

/// A modifier key pressed on its own.
#[derive(Debug, Clone, Copy, PartialEq, Eq, Hash, Structural)]
pub enum ModifierKey {
    LeftShift,
    LeftControl,
    LeftAlt,
    LeftSuper,
    LeftHyper,
    LeftMeta,
    RightShift,
    RightControl,
    RightAlt,
    RightSuper,
    RightHyper,
    RightMeta,
    IsoLevel3Shift,
    IsoLevel5Shift,
}

/// A key of the keyboard. `Null` doubles as the binding of an action that no
/// key triggers.
#[derive(Debug, Clone, Copy, PartialEq, Eq, Hash, Structural)]
pub enum Key {
    Backspace,
    Enter,
    Left,
    Right,
    Up,
    Down,
    Home,
    End,
    PageUp,
    PageDown,
    Tab,
    BackTab,
    Delete,
    Insert,
    /// A function key, by its number.
    F(u8),
    /// A character key.
    Char(char),
    Null,
    Esc,
    CapsLock,
    ScrollLock,
    NumLock,
    PrintScreen,
    Pause,
    Menu,
    KeypadBegin,
    Media(MediaKey),
    Modifier(ModifierKey),
}

/// The decimal digit `d` as a character.
pub open spec fn digit_char(d: nat) -> char
    recommends
        d < 10,
{
    (48 + d) as u8 as char
}

/// The decimal numeral of `n`, without leading zeros.
pub open spec fn decimal_text(n: nat) -> Seq<char>
    decreases n,
{
    if n < 10 {
        seq![digit_char(n)]
    } else {
        decimal_text(n / 10).push(digit_char(n % 10))
    }
}

/// The name of a media key.
pub open spec fn media_name(m: MediaKey) -> Seq<char> {
    match m {
        MediaKey::Play => "Play"@,
        MediaKey::Pause => "Pause"@,
        MediaKey::PlayPause => "PlayPause"@,
        MediaKey::Reverse => "Reverse"@,
        MediaKey::Stop => "Stop"@,
        MediaKey::FastForward => "FastForward"@,
        MediaKey::Rewind => "Rewind"@,
        MediaKey::TrackNext => "TrackNext"@,
        MediaKey::TrackPrevious => "TrackPrevious"@,
        MediaKey::Record => "Record"@,
        MediaKey::LowerVolume => "LowerVolume"@,
        MediaKey::RaiseVolume => "RaiseVolume"@,
        MediaKey::MuteVolume => "MuteVolume"@,
    }
}

/// The name of a modifier key.
pub open spec fn modifier_name(m: ModifierKey) -> Seq<char> {
    match m {
        ModifierKey::LeftShift => "LeftShift"@,
        ModifierKey::LeftControl => "LeftControl"@,
        ModifierKey::LeftAlt => "LeftAlt"@,
        ModifierKey::LeftSuper => "LeftSuper"@,
        ModifierKey::LeftHyper => "LeftHyper"@,
        ModifierKey::LeftMeta => "LeftMeta"@,
        ModifierKey::RightShift => "RightShift"@,
        ModifierKey::RightControl => "RightControl"@,
        ModifierKey::RightAlt => "RightAlt"@,
        ModifierKey::RightSuper => "RightSuper"@,
        ModifierKey::RightHyper => "RightHyper"@,
        ModifierKey::RightMeta => "RightMeta"@,
        ModifierKey::IsoLevel3Shift => "IsoLevel3Shift"@,
        ModifierKey::IsoLevel5Shift => "IsoLevel5Shift"@,
    }
}

/// The text form of a key. A character key is the character itself; `Enter`,
/// `Esc`, the four arrows and `Null` go by their names, which
/// [`text_key`] reads back; every other key is written by the name of its
/// variant, with what it carries in parentheses.
pub open spec fn key_text(key: Key) -> Seq<char> {
    match key {
        Key::Char(c) => seq![c],
        Key::F(n) => "F("@ + decimal_text(n as nat) + ")"@,
        Key::Media(m) => "Media("@ + media_name(m) + ")"@,
        Key::Modifier(m) => "Modifier("@ + modifier_name(m) + ")"@,
        Key::Backspace => "Backspace"@,
        Key::Enter => "Enter"@,
        Key::Left => "Left"@,
        Key::Right => "Right"@,
        Key::Up => "Up"@,
        Key::Down => "Down"@,
        Key::Home => "Home"@,
        Key::End => "End"@,
        Key::PageUp => "PageUp"@,
        Key::PageDown => "PageDown"@,
        Key::Tab => "Tab"@,
        Key::BackTab => "BackTab"@,
        Key::Delete => "Delete"@,
        Key::Insert => "Insert"@,
        Key::Null => "Null"@,
        Key::Esc => "Esc"@,
        Key::CapsLock => "CapsLock"@,
        Key::ScrollLock => "ScrollLock"@,
        Key::NumLock => "NumLock"@,
        Key::PrintScreen => "PrintScreen"@,
        Key::Pause => "Pause"@,
        Key::Menu => "Menu"@,
        Key::KeypadBegin => "KeypadBegin"@,
    }
}

/// The key that a text stands for, if any: one of the seven names, or a
/// single character.
pub open spec fn text_key(s: Seq<char>) -> Option<Key> {
    if s == "Enter"@ {
        Some(Key::Enter)
    } else if s == "Esc"@ {
        Some(Key::Esc)
    } else if s == "Up"@ {
        Some(Key::Up)
    } else if s == "Down"@ {
        Some(Key::Down)
    } else if s == "Left"@ {
        Some(Key::Left)
    } else if s == "Right"@ {
        Some(Key::Right)
    } else if s == "Null"@ {
        Some(Key::Null)
    } else if s.len() == 1 {
        Some(Key::Char(s[0]))
    } else {
        None
    }
}

/// The keys whose text form reads back as the key itself: the character keys
/// and the seven named ones.
pub open spec fn has_stable_text(key: Key) -> bool {
    match key {
        Key::Char(_) | Key::Enter | Key::Esc | Key::Up | Key::Down | Key::Left | Key::Right
        | Key::Null => true,
        _ => false,
    }
}

fn digit(d: u8) -> (c: char)
    requires
        d < 10,
    ensures
        c == digit_char(d as nat),
{
    (48u8 + d) as char
}

/// Appends the decimal numeral of `n` to `out`.
fn push_decimal(out: &mut String, n: u8)
    ensures
        final(out)@ == old(out)@ + decimal_text(n as nat),
{
    if n >= 100 {
        push_char(out, digit(n / 100));
        push_char(out, digit((n / 10) % 10));
        push_char(out, digit(n % 10));
        assert(decimal_text(n as nat) =~= seq![
            digit_char((n / 100) as nat),
            digit_char(((n / 10) % 10) as nat),
            digit_char((n % 10) as nat),
        ]) by {
            reveal_with_fuel(decimal_text, 3);
        }
    } else if n >= 10 {
        push_char(out, digit(n / 10));
        push_char(out, digit(n % 10));
        assert(decimal_text(n as nat) =~= seq![
            digit_char((n / 10) as nat),
            digit_char((n % 10) as nat),
        ]) by {
            reveal_with_fuel(decimal_text, 2);
        }
    } else {
        push_char(out, digit(n));
    }
}

fn media_label(m: MediaKey) -> (s: &'static str)
    ensures
        s@ == media_name(m),
{
    match m {
        MediaKey::Play => "Play",
        MediaKey::Pause => "Pause",
        MediaKey::PlayPause => "PlayPause",
        MediaKey::Reverse => "Reverse",
        MediaKey::Stop => "Stop",
        MediaKey::FastForward => "FastForward",
        MediaKey::Rewind => "Rewind",
        MediaKey::TrackNext => "TrackNext",
        MediaKey::TrackPrevious => "TrackPrevious",
        MediaKey::Record => "Record",
        MediaKey::LowerVolume => "LowerVolume",
        MediaKey::RaiseVolume => "RaiseVolume",
        MediaKey::MuteVolume => "MuteVolume",
    }
}

fn modifier_label(m: ModifierKey) -> (s: &'static str)
    ensures
        s@ == modifier_name(m),
{
    match m {
        ModifierKey::LeftShift => "LeftShift",
        ModifierKey::LeftControl => "LeftControl",
        ModifierKey::LeftAlt => "LeftAlt",
        ModifierKey::LeftSuper => "LeftSuper",
        ModifierKey::LeftHyper => "LeftHyper",
        ModifierKey::LeftMeta => "LeftMeta",
        ModifierKey::RightShift => "RightShift",
        ModifierKey::RightControl => "RightControl",
        ModifierKey::RightAlt => "RightAlt",
        ModifierKey::RightSuper => "RightSuper",
        ModifierKey::RightHyper => "RightHyper",
        ModifierKey::RightMeta => "RightMeta",
        ModifierKey::IsoLevel3Shift => "IsoLevel3Shift",
        ModifierKey::IsoLevel5Shift => "IsoLevel5Shift",
    }
}

/// Writes a key as text.
pub fn key_to_string(key: Key) -> (s: String)
    ensures
        s@ == key_text(key),
        s@.len() > 0,
{
    proof {
        lemma_key_text_reads_back(key);
    }
    match key {
        Key::Char(c) => {
            let mut out = String::new();
            push_char(&mut out, c);
            out
        },
        Key::F(n) => {
            let mut out = "F(".to_owned();
            push_decimal(&mut out, n);
            out.append(")");
            out
        },
        Key::Media(m) => {
            let mut out = "Media(".to_owned();
            out.append(media_label(m));
            out.append(")");
            out
        },
        Key::Modifier(m) => {
            let mut out = "Modifier(".to_owned();
            out.append(modifier_label(m));
            out.append(")");
            out
        },
        Key::Backspace => "Backspace".to_owned(),
        Key::Enter => "Enter".to_owned(),
        Key::Left => "Left".to_owned(),
        Key::Right => "Right".to_owned(),
        Key::Up => "Up".to_owned(),
        Key::Down => "Down".to_owned(),
        Key::Home => "Home".to_owned(),
        Key::End => "End".to_owned(),
        Key::PageUp => "PageUp".to_owned(),
        Key::PageDown => "PageDown".to_owned(),
        Key::Tab => "Tab".to_owned(),
        Key::BackTab => "BackTab".to_owned(),
        Key::Delete => "Delete".to_owned(),
        Key::Insert => "Insert".to_owned(),
        Key::Null => "Null".to_owned(),
        Key::Esc => "Esc".to_owned(),
        Key::CapsLock => "CapsLock".to_owned(),
        Key::ScrollLock => "ScrollLock".to_owned(),
        Key::NumLock => "NumLock".to_owned(),
        Key::PrintScreen => "PrintScreen".to_owned(),
        Key::Pause => "Pause".to_owned(),
        Key::Menu => "Menu".to_owned(),
        Key::KeypadBegin => "KeypadBegin".to_owned(),
    }
}

/// Reads a key from text; `None` where the text is neither one of the seven
/// names nor a single character.
pub fn string_to_key(s: &str) -> (r: Option<Key>)
    ensures
        r == text_key(s@),
{
    if str_equal(s, "Enter") {
        Some(Key::Enter)
    } else if str_equal(s, "Esc") {
        Some(Key::Esc)
    } else if str_equal(s, "Up") {
        Some(Key::Up)
    } else if str_equal(s, "Down") {
        Some(Key::Down)
    } else if str_equal(s, "Left") {
        Some(Key::Left)
    } else if str_equal(s, "Right") {
        Some(Key::Right)
    } else if str_equal(s, "Null") {
        Some(Key::Null)
    } else if s.unicode_len() == 1 {
        Some(Key::Char(s.get_char(0)))
    } else {
        None
    }
}

/// Each of the seven names is longer than one character, and no two of them
/// are the same text.
pub proof fn lemma_names_distinct()
    ensures
        "Enter"@.len() == 5,
        "Esc"@.len() == 3,
        "Up"@.len() == 2,
        "Down"@.len() == 4,
        "Left"@.len() == 4,
        "Right"@.len() == 5,
        "Null"@.len() == 4,
        "Enter"@ != "Right"@,
        "Down"@ != "Left"@,
        "Down"@ != "Null"@,
        "Left"@ != "Null"@,
{
    reveal_strlit("Enter");
    reveal_strlit("Esc");
    reveal_strlit("Up");
    reveal_strlit("Down");
    reveal_strlit("Left");
    reveal_strlit("Right");
    reveal_strlit("Null");
    assert("Enter"@[0] != "Right"@[0]);
    assert("Down"@[0] != "Left"@[0]);
    assert("Down"@[0] != "Null"@[0]);
    assert("Left"@[0] != "Null"@[0]);
}

/// Writing a key and reading the text back gives the key again, for every
/// character key and each of the seven named keys.
pub proof fn lemma_key_round_trip(key: Key)
    requires
        has_stable_text(key),
    ensures
        text_key(key_text(key)) == Some(key),
{
    lemma_names_distinct();
}

/// What reading back the text of a key gives: the key itself for a character
/// key and each of the seven named keys, and no key for any other, whose
/// text is longer than one character and none of the seven names. No key has
/// an empty text.
pub proof fn lemma_key_text_reads_back(key: Key)
    ensures
        key_text(key).len() > 0,
        text_key(key_text(key)) == (if has_stable_text(key) {
            Some(key)
        } else {
            None
        }),
{
    reveal_strlit("Backspace");
    reveal_strlit("Enter");
    reveal_strlit("Left");
    reveal_strlit("Right");
    reveal_strlit("Up");
    reveal_strlit("Down");
    reveal_strlit("Home");
    reveal_strlit("End");
    reveal_strlit("PageUp");
    reveal_strlit("PageDown");
    reveal_strlit("Tab");
    reveal_strlit("BackTab");
    reveal_strlit("Delete");
    reveal_strlit("Insert");
    reveal_strlit("Null");
    reveal_strlit("Esc");
    reveal_strlit("CapsLock");
    reveal_strlit("ScrollLock");
    reveal_strlit("NumLock");
    reveal_strlit("PrintScreen");
    reveal_strlit("Pause");
    reveal_strlit("Menu");
    reveal_strlit("KeypadBegin");
    reveal_strlit("F(");
    reveal_strlit(")");
    reveal_strlit("Media(");
    reveal_strlit("Modifier(");
    assert("Home"@[0] != "Down"@[0]);
    assert("Home"@[0] != "Left"@[0]);
    assert("Home"@[0] != "Null"@[0]);
    assert("End"@[1] != "Esc"@[1]);
    assert("Tab"@[0] != "Esc"@[0]);
    assert("Pause"@[0] != "Enter"@[0]);
    assert("Pause"@[0] != "Right"@[0]);
    assert("Menu"@[0] != "Down"@[0]);
    assert("Menu"@[0] != "Left"@[0]);
    assert("Menu"@[0] != "Null"@[0]);
    match key {
        Key::F(n) => {
            let t = key_text(key);
            assert(decimal_text(n as nat).len() >= 1);
            assert(t.len() == 3 + decimal_text(n as nat).len());
            assert(t[0] == 'F');
            assert(t != "Enter"@) by {
                assert("Enter"@[0] == 'E');
            }
            assert(t != "Down"@) by {
                assert("Down"@[0] == 'D');
            }
            assert(t != "Left"@) by {
                assert("Left"@[0] == 'L');
            }
            assert(t != "Right"@) by {
                assert("Right"@[0] == 'R');
            }
            assert(t != "Null"@) by {
                assert("Null"@[0] == 'N');
            }
            assert(t != "Esc"@ && t != "Up"@);
            assert(text_key(t) is None);
        },
        Key::Media(m) => {
            assert(key_text(key).len() >= 7);
            assert(text_key(key_text(key)) is None);
        },
        Key::Modifier(m) => {
            assert(key_text(key).len() >= 10);
            assert(text_key(key_text(key)) is None);
        },
        Key::Char(c) => {
            assert(text_key(key_text(key)) == Some(key));
        },
        Key::Backspace => {
            assert("Backspace"@.len() == 9);
        },
        Key::Home => {
            assert("Home"@.len() == 4);
        },
        Key::End => {
            assert("End"@.len() == 3);
        },
        Key::PageUp => {
            assert("PageUp"@.len() == 6);
        },
        Key::PageDown => {
            assert("PageDown"@.len() == 8);
        },
        Key::Tab => {
            assert("Tab"@.len() == 3);
        },
        Key::BackTab => {
            assert("BackTab"@.len() == 7);
        },
        Key::Delete => {
            assert("Delete"@.len() == 6);
        },
        Key::Insert => {
            assert("Insert"@.len() == 6);
        },
        Key::CapsLock => {
            assert("CapsLock"@.len() == 8);
        },
        Key::ScrollLock => {
            assert("ScrollLock"@.len() == 10);
        },
        Key::NumLock => {
            assert("NumLock"@.len() == 7);
        },
        Key::PrintScreen => {
            assert("PrintScreen"@.len() == 11);
        },
        Key::Pause => {
            assert("Pause"@.len() == 5);
        },
        Key::Menu => {
            assert("Menu"@.len() == 4);
        },
        Key::KeypadBegin => {
            assert("KeypadBegin"@.len() == 11);
        },
        _ => {},
    }
}

/// A text that reads as a key is the text form of that key.
pub proof fn lemma_text_round_trip(s: Seq<char>)
    requires
        text_key(s) is Some,
    ensures
        key_text(text_key(s)->0) == s,
        has_stable_text(text_key(s)->0),
{
    lemma_names_distinct();
    if s != "Enter"@ && s != "Esc"@ && s != "Up"@ && s != "Down"@ && s != "Left"@ && s != "Right"@
        && s != "Null"@ {
        assert(s =~= seq![s[0]]);
    }
}

} // verus!
