//! Terminal events as the state machine reads them.

use vstd::prelude::*;
use crate::key_utils::Key;

verus! {

/// The modifier keys held down while a key was pressed, one bit each:
/// shift 1, control 2, alt 4, super 8, hyper 16, meta 32.
#[derive(Debug, Clone, Copy, PartialEq, Eq, Hash, Structural)]
pub struct KeyModifiers {
    pub bits: u8,
}

impl KeyModifiers {
    /// No modifier.
    pub fn none() -> (m: KeyModifiers)
        ensures
            m.bits == 0,
    {
        KeyModifiers { bits: 0 }
    }

    /// Shift alone.
    pub fn shift() -> (m: KeyModifiers)
        ensures
            m.bits == 1,
    {
        KeyModifiers { bits: 1 }
    }

    /// Whether no modifier is held.
    pub open spec fn spec_is_empty(&self) -> bool {
        self.bits == 0
    }

    /// Whether no modifier is held.
    #[verifier::when_used_as_spec(spec_is_empty)]
    pub fn is_empty(&self) -> (r: bool)
        ensures
            r == self.spec_is_empty(),
    {
        self.bits == 0
    }

    /// Whether a character typed under these modifiers is text: no modifier
    /// is held, or shift alone.
    pub open spec fn types_text(&self) -> bool {
        self.bits == 0 || self.bits == 1
    }
}

/// Whether a key went down, is held, or came up.
#[derive(Debug, Clone, Copy, PartialEq, Eq, Hash, Structural)]
pub enum KeyEventKind {
    Press,
    Repeat,
    Release,
}

/// One key event.
#[derive(Debug, Clone, Copy, PartialEq, Eq, Hash, Structural)]
pub struct KeyEvent {
    pub code: Key,
    pub modifiers: KeyModifiers,
    pub kind: KeyEventKind,
}

impl KeyEvent {
    /// A press of `code` under `modifiers`.
    pub fn new(code: Key, modifiers: KeyModifiers) -> (e: KeyEvent)
        ensures
            e == (KeyEvent { code, modifiers, kind: KeyEventKind::Press }),
    {
        KeyEvent { code, modifiers, kind: KeyEventKind::Press }
    }
}

impl From<Key> for KeyEvent {
    /// A press of `code` with no modifier.
    fn from(code: Key) -> (e: KeyEvent) {
        KeyEvent { code, modifiers: KeyModifiers { bits: 0 }, kind: KeyEventKind::Press }
    }
}

impl vstd::std_specs::convert::FromSpecImpl<Key> for KeyEvent {
    open spec fn obeys_from_spec() -> bool {
        true
    }

    open spec fn from_spec(code: Key) -> KeyEvent {
        KeyEvent { code, modifiers: KeyModifiers { bits: 0 }, kind: KeyEventKind::Press }
    }
}

/// A terminal event. Only key events carry anything that the application
/// reads.
#[derive(Debug, Clone, Copy, PartialEq, Eq, Hash, Structural)]
pub enum Event {
    Key(KeyEvent),
    Other,
}

} // verus!
