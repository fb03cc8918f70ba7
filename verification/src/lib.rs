//! Timestamped note taking for live sessions: the application state machine,
//! its key bindings, themes and the CSV form of the entry list.

pub mod app;
pub mod bindings;
pub mod clock;
pub mod entry;
pub mod error;
pub mod event;
pub mod key_utils;
pub mod laws;
pub mod machine;
pub mod persist;
pub mod text;
pub mod theme;

pub use app::{App, InputMode};
pub use bindings::{Action, KeyBindings, KeyBindingsConfig};
pub use clock::{Elapsed, TimeHack, TimeOfDay, Timestamp};
pub use entry::{Entry, Note, Section};
pub use error::AppError;
pub use event::{Event, KeyEvent, KeyEventKind, KeyModifiers};
pub use theme::{Color, Theme, ThemeName};
pub use machine::{Effect, Readings};
pub use key_utils::{key_to_string, string_to_key, Key, MediaKey, ModifierKey};
