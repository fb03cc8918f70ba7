//! The color themes.

use vstd::prelude::*;
use crate::text::{join_path, str_equal};

verus! {

/// A terminal color.
#[derive(Debug, Clone, Copy, PartialEq, Eq, Hash, Structural)]
pub enum Color {
    Reset,
    Black,
    Red,
    Green,
    Yellow,
    Blue,
    Magenta,
    Cyan,
    Gray,
    DarkGray,
    LightRed,
    LightGreen,
    LightYellow,
    LightBlue,
    LightMagenta,
    LightCyan,
    White,
    Rgb(u8, u8, u8),
    Indexed(u8),
}

/// The color of each part of the screen.
#[derive(Debug, Clone, Copy, PartialEq, Eq, Structural)]
pub struct Theme {
    /// Border of the list of entries.
    pub notes_border: Color,
    /// Title of the list of entries.
    pub notes_title: Color,
    /// Background of the selected entry.
    pub notes_highlight_bg: Color,
    /// Text of the selected entry.
    pub notes_highlight_fg: Color,
    /// Text of a note.
    pub note_fg: Color,
    /// Title of a section.
    pub section_fg: Color,
    /// Time of a note.
    pub timestamp_fg: Color,
    /// Border of the input box at rest.
    pub input_fg: Color,
    /// Title of the input box at rest.
    pub input_title: Color,
    /// A key in the help line.
    pub help_key: Color,
    /// What a key does, in the help line.
    pub help_desc: Color,
    /// Border of a menu.
    pub overlay_border: Color,
    /// Title of a menu.
    pub overlay_title: Color,
    /// Background of the selected line of a menu.
    pub overlay_highlight_bg: Color,
    /// Text of the selected line of a menu.
    pub overlay_highlight_fg: Color,
    /// Background of a menu.
    pub overlay_bg: Color,
    /// Border of the input box while editing.
    pub editing_fg: Color,
    /// Title of the input box while editing.
    pub editing_title: Color,
    /// Text of a menu.
    pub overlay_text: Color,
}

/// The themes, in the order in which the theme menu lists them.
#[derive(Debug, Clone, Copy, PartialEq, Eq, Hash, Structural)]
pub enum ThemeName {
    Default,
    Matrix,
    CyanCrush,
    Embercore,
    ToxicOrchid,
    Coldfire,
}

impl Default for ThemeName {
    fn default() -> (t: ThemeName)
        ensures
            t == ThemeName::Default,
    {
        ThemeName::Default
    }
}

impl ThemeName {
    /// Every theme, in the order of the menu.
    pub const ALL: [ThemeName; 6] = [
        ThemeName::Default,
        ThemeName::Matrix,
        ThemeName::CyanCrush,
        ThemeName::Embercore,
        ThemeName::ToxicOrchid,
        ThemeName::Coldfire,
    ];

    /// The number of themes.
    pub open spec fn count() -> nat {
        6
    }

    /// The place of a theme in the menu.
    pub open spec fn index(self) -> nat {
        match self {
            ThemeName::Default => 0,
            ThemeName::Matrix => 1,
            ThemeName::CyanCrush => 2,
            ThemeName::Embercore => 3,
            ThemeName::ToxicOrchid => 4,
            ThemeName::Coldfire => 5,
        }
    }

    /// The place of a theme in the menu.
    pub fn position(self) -> (i: usize)
        ensures
            i == self.index(),
            i < ThemeName::count(),
    {
        match self {
            ThemeName::Default => 0,
            ThemeName::Matrix => 1,
            ThemeName::CyanCrush => 2,
            ThemeName::Embercore => 3,
            ThemeName::ToxicOrchid => 4,
            ThemeName::Coldfire => 5,
        }
    }

    /// The theme at a place in the menu.
    pub fn from_index(i: usize) -> (r: Option<ThemeName>)
        ensures
            i < ThemeName::count() ==> r is Some && r->0.index() == i,
            i >= ThemeName::count() ==> r is None,
    {
        if i < 6 {
            Some(ThemeName::ALL[i])
        } else {
            None
        }
    }

    /// The name under which a theme is listed.
    pub open spec fn display_text(self) -> Seq<char> {
        match self {
            ThemeName::Default => "Default"@,
            ThemeName::Matrix => "Matrix"@,
            ThemeName::CyanCrush => "Cyan Crush"@,
            ThemeName::Embercore => "Embercore"@,
            ThemeName::ToxicOrchid => "Toxic Orchid"@,
            ThemeName::Coldfire => "Coldfire"@,
        }
    }

    /// Human readable display name for the theme.
    pub fn display_name(self) -> (s: &'static str)
        ensures
            s@ == self.display_text(),
    {
        match self {
            ThemeName::Default => "Default",
            ThemeName::Matrix => "Matrix",
            ThemeName::CyanCrush => "Cyan Crush",
            ThemeName::Embercore => "Embercore",
            ThemeName::ToxicOrchid => "Toxic Orchid",
            ThemeName::Coldfire => "Coldfire",
        }
    }

    /// The file that keeps the selected theme: `theme.json` inside the
    /// configuration directory, or on its own where there is no such
    /// directory.
    fn config_path(config_dir: Option<&str>) -> (path: String)
        ensures
            config_dir is None ==> path@ == "theme.json"@,
    {
        match config_dir {
            Some(dir) => join_path(dir, "theme.json"),
            None => "theme.json".to_owned(),
        }
    }

    /// Returns the configuration path used during testing.
    pub fn config_path_for_test(config_dir: Option<&str>) -> (path: String)
        ensures
            config_dir is None ==> path@ == "theme.json"@,
    {
        ThemeName::config_path(config_dir)
    }

    /// The name under which a theme is kept in its file.
    pub open spec fn saved_text(self) -> Seq<char> {
        match self {
            ThemeName::Default => "Default"@,
            ThemeName::Matrix => "Matrix"@,
            ThemeName::CyanCrush => "CyanCrush"@,
            ThemeName::Embercore => "Embercore"@,
            ThemeName::ToxicOrchid => "ToxicOrchid"@,
            ThemeName::Coldfire => "Coldfire"@,
        }
    }

    /// The theme that a text of the theme file names, if it names one.
    pub open spec fn named(text: Seq<char>) -> Option<ThemeName> {
        if text == "Default"@ {
            Some(ThemeName::Default)
        } else if text == "Matrix"@ {
            Some(ThemeName::Matrix)
        } else if text == "CyanCrush"@ {
            Some(ThemeName::CyanCrush)
        } else if text == "Embercore"@ {
            Some(ThemeName::Embercore)
        } else if text == "ToxicOrchid"@ {
            Some(ThemeName::ToxicOrchid)
        } else if text == "Coldfire"@ {
            Some(ThemeName::Coldfire)
        } else {
            None
        }
    }

    /// What is to be written to keep the theme: its name.
    pub fn save(self) -> (s: &'static str)
        ensures
            s@ == self.saved_text(),
    {
        match self {
            ThemeName::Default => "Default",
            ThemeName::Matrix => "Matrix",
            ThemeName::CyanCrush => "CyanCrush",
            ThemeName::Embercore => "Embercore",
            ThemeName::ToxicOrchid => "ToxicOrchid",
            ThemeName::Coldfire => "Coldfire",
        }
    }

    /// The theme that the text of the theme file names, or the default theme
    /// where there is no text or it names none.
    pub fn load_or_default(saved: Option<&str>) -> (t: ThemeName)
        ensures
            t == match saved {
                Some(text) => match ThemeName::named(text@) {
                    Some(theme) => theme,
                    None => ThemeName::Default,
                },
                None => ThemeName::Default,
            },
    {
        match saved {
            Some(text) => {
                if str_equal(text, "Default") {
                    ThemeName::Default
                } else if str_equal(text, "Matrix") {
                    ThemeName::Matrix
                } else if str_equal(text, "CyanCrush") {
                    ThemeName::CyanCrush
                } else if str_equal(text, "Embercore") {
                    ThemeName::Embercore
                } else if str_equal(text, "ToxicOrchid") {
                    ThemeName::ToxicOrchid
                } else if str_equal(text, "Coldfire") {
                    ThemeName::Coldfire
                } else {
                    ThemeName::Default
                }
            },
            None => ThemeName::Default,
        }
    }

    /// The colors of a theme.
    pub open spec fn palette(self) -> Theme {
        match self {
            ThemeName::Default => Theme {
                notes_border: Color::White,
                notes_title: Color::Black,
                notes_highlight_bg: Color::White,
                notes_highlight_fg: Color::Black,
                note_fg: Color::White,
                section_fg: Color::White,
                timestamp_fg: Color::White,
                input_fg: Color::White,
                input_title: Color::Black,
                help_key: Color::White,
                help_desc: Color::White,
                overlay_border: Color::White,
                overlay_title: Color::Black,
                overlay_highlight_bg: Color::White,
                overlay_highlight_fg: Color::Black,
                overlay_bg: Color::Black,
                editing_fg: Color::White,
                editing_title: Color::Black,
                overlay_text: Color::White,
            },
            ThemeName::Matrix => Theme {
                notes_border: Color::LightGreen,
                notes_title: Color::LightGreen,
                notes_highlight_bg: Color::Green,
                notes_highlight_fg: Color::Black,
                note_fg: Color::LightGreen,
                section_fg: Color::LightGreen,
                timestamp_fg: Color::Green,
                input_fg: Color::Green,
                input_title: Color::LightGreen,
                help_key: Color::LightGreen,
                help_desc: Color::Green,
                overlay_border: Color::LightGreen,
                overlay_title: Color::LightGreen,
                overlay_highlight_bg: Color::Green,
                overlay_highlight_fg: Color::Black,
                overlay_bg: Color::Black,
                editing_fg: Color::LightGreen,
                editing_title: Color::Green,
                overlay_text: Color::LightGreen,
            },
            ThemeName::CyanCrush => Theme {
                notes_border: Color::Cyan,
                notes_title: Color::LightMagenta,
                notes_highlight_bg: Color::LightMagenta,
                notes_highlight_fg: Color::Black,
                note_fg: Color::LightMagenta,
                section_fg: Color::LightMagenta,
                timestamp_fg: Color::Cyan,
                input_fg: Color::Cyan,
                input_title: Color::LightMagenta,
                help_key: Color::LightMagenta,
                help_desc: Color::LightCyan,
                overlay_border: Color::Cyan,
                overlay_title: Color::LightMagenta,
                overlay_highlight_bg: Color::LightMagenta,
                overlay_highlight_fg: Color::Cyan,
                overlay_bg: Color::Black,
                editing_fg: Color::LightMagenta,
                editing_title: Color::Cyan,
                overlay_text: Color::Cyan,
            },
            ThemeName::Embercore => Theme {
                notes_border: Color::Red,
                notes_title: Color::Yellow,
                notes_highlight_bg: Color::LightRed,
                notes_highlight_fg: Color::Black,
                note_fg: Color::LightYellow,
                section_fg: Color::Yellow,
                timestamp_fg: Color::Red,
                input_fg: Color::Red,
                input_title: Color::Yellow,
                help_key: Color::Red,
                help_desc: Color::Yellow,
                overlay_border: Color::LightRed,
                overlay_title: Color::Yellow,
                overlay_highlight_bg: Color::Red,
                overlay_highlight_fg: Color::Yellow,
                overlay_bg: Color::Black,
                editing_fg: Color::Yellow,
                editing_title: Color::Red,
                overlay_text: Color::LightRed,
            },
            ThemeName::ToxicOrchid => Theme {
                notes_border: Color::LightMagenta,
                notes_title: Color::LightGreen,
                notes_highlight_bg: Color::LightGreen,
                notes_highlight_fg: Color::Black,
                note_fg: Color::LightMagenta,
                section_fg: Color::LightMagenta,
                timestamp_fg: Color::LightGreen,
                input_fg: Color::LightMagenta,
                input_title: Color::LightGreen,
                help_key: Color::LightGreen,
                help_desc: Color::LightMagenta,
                overlay_border: Color::LightGreen,
                overlay_title: Color::LightMagenta,
                overlay_highlight_bg: Color::LightGreen,
                overlay_highlight_fg: Color::LightMagenta,
                overlay_bg: Color::Black,
                editing_fg: Color::LightMagenta,
                editing_title: Color::LightGreen,
                overlay_text: Color::LightGreen,
            },
            ThemeName::Coldfire => Theme {
                notes_border: Color::LightBlue,
                notes_title: Color::LightRed,
                notes_highlight_bg: Color::LightBlue,
                notes_highlight_fg: Color::Black,
                note_fg: Color::LightRed,
                section_fg: Color::LightBlue,
                timestamp_fg: Color::LightBlue,
                input_fg: Color::LightBlue,
                input_title: Color::LightRed,
                help_key: Color::LightRed,
                help_desc: Color::LightBlue,
                overlay_border: Color::LightRed,
                overlay_title: Color::LightBlue,
                overlay_highlight_bg: Color::LightRed,
                overlay_highlight_fg: Color::LightBlue,
                overlay_bg: Color::Black,
                editing_fg: Color::LightBlue,
                editing_title: Color::LightRed,
                overlay_text: Color::LightRed,
            },
        }
    }

    /// Returns the [`Theme`] struct for this theme name.
    pub fn theme(self) -> (t: Theme)
        ensures
            t == self.palette(),
    {
        match self {
            ThemeName::Default => Theme {
                notes_border: Color::White,
                notes_title: Color::Black,
                notes_highlight_bg: Color::White,
                notes_highlight_fg: Color::Black,
                note_fg: Color::White,
                section_fg: Color::White,
                timestamp_fg: Color::White,
                input_fg: Color::White,
                input_title: Color::Black,
                help_key: Color::White,
                help_desc: Color::White,
                overlay_border: Color::White,
                overlay_title: Color::Black,
                overlay_highlight_bg: Color::White,
                overlay_highlight_fg: Color::Black,
                overlay_bg: Color::Black,
                editing_fg: Color::White,
                editing_title: Color::Black,
                overlay_text: Color::White,
            },
            ThemeName::Matrix => Theme {
                notes_border: Color::LightGreen,
                notes_title: Color::LightGreen,
                notes_highlight_bg: Color::Green,
                notes_highlight_fg: Color::Black,
                note_fg: Color::LightGreen,
                section_fg: Color::LightGreen,
                timestamp_fg: Color::Green,
                input_fg: Color::Green,
                input_title: Color::LightGreen,
                help_key: Color::LightGreen,
                help_desc: Color::Green,
                overlay_border: Color::LightGreen,
                overlay_title: Color::LightGreen,
                overlay_highlight_bg: Color::Green,
                overlay_highlight_fg: Color::Black,
                overlay_bg: Color::Black,
                editing_fg: Color::LightGreen,
                editing_title: Color::Green,
                overlay_text: Color::LightGreen,
            },
            ThemeName::CyanCrush => Theme {
                notes_border: Color::Cyan,
                notes_title: Color::LightMagenta,
                notes_highlight_bg: Color::LightMagenta,
                notes_highlight_fg: Color::Black,
                note_fg: Color::LightMagenta,
                section_fg: Color::LightMagenta,
                timestamp_fg: Color::Cyan,
                input_fg: Color::Cyan,
                input_title: Color::LightMagenta,
                help_key: Color::LightMagenta,
                help_desc: Color::LightCyan,
                overlay_border: Color::Cyan,
                overlay_title: Color::LightMagenta,
                overlay_highlight_bg: Color::LightMagenta,
                overlay_highlight_fg: Color::Cyan,
                overlay_bg: Color::Black,
                editing_fg: Color::LightMagenta,
                editing_title: Color::Cyan,
                overlay_text: Color::Cyan,
            },
            ThemeName::Embercore => Theme {
                notes_border: Color::Red,
                notes_title: Color::Yellow,
                notes_highlight_bg: Color::LightRed,
                notes_highlight_fg: Color::Black,
                note_fg: Color::LightYellow,
                section_fg: Color::Yellow,
                timestamp_fg: Color::Red,
                input_fg: Color::Red,
                input_title: Color::Yellow,
                help_key: Color::Red,
                help_desc: Color::Yellow,
                overlay_border: Color::LightRed,
                overlay_title: Color::Yellow,
                overlay_highlight_bg: Color::Red,
                overlay_highlight_fg: Color::Yellow,
                overlay_bg: Color::Black,
                editing_fg: Color::Yellow,
                editing_title: Color::Red,
                overlay_text: Color::LightRed,
            },
            ThemeName::ToxicOrchid => Theme {
                notes_border: Color::LightMagenta,
                notes_title: Color::LightGreen,
                notes_highlight_bg: Color::LightGreen,
                notes_highlight_fg: Color::Black,
                note_fg: Color::LightMagenta,
                section_fg: Color::LightMagenta,
                timestamp_fg: Color::LightGreen,
                input_fg: Color::LightMagenta,
                input_title: Color::LightGreen,
                help_key: Color::LightGreen,
                help_desc: Color::LightMagenta,
                overlay_border: Color::LightGreen,
                overlay_title: Color::LightMagenta,
                overlay_highlight_bg: Color::LightGreen,
                overlay_highlight_fg: Color::LightMagenta,
                overlay_bg: Color::Black,
                editing_fg: Color::LightMagenta,
                editing_title: Color::LightGreen,
                overlay_text: Color::LightGreen,
            },
            ThemeName::Coldfire => Theme {
                notes_border: Color::LightBlue,
                notes_title: Color::LightRed,
                notes_highlight_bg: Color::LightBlue,
                notes_highlight_fg: Color::Black,
                note_fg: Color::LightRed,
                section_fg: Color::LightBlue,
                timestamp_fg: Color::LightBlue,
                input_fg: Color::LightBlue,
                input_title: Color::LightRed,
                help_key: Color::LightRed,
                help_desc: Color::LightBlue,
                overlay_border: Color::LightRed,
                overlay_title: Color::LightBlue,
                overlay_highlight_bg: Color::LightRed,
                overlay_highlight_fg: Color::LightBlue,
                overlay_bg: Color::Black,
                editing_fg: Color::LightBlue,
                editing_title: Color::LightRed,
                overlay_text: Color::LightRed,
            },
        }
    }
}

/// In every theme a selected line can be read: its text is not of the color
/// of its background, in the list of entries and in the menus, and the text
/// of a menu is not of the color of the menu's background.
pub proof fn lemma_selection_is_legible(name: ThemeName)
    ensures
        name.palette().notes_highlight_fg != name.palette().notes_highlight_bg,
        name.palette().overlay_highlight_fg != name.palette().overlay_highlight_bg,
        name.palette().overlay_text != name.palette().overlay_bg,
{
}

/// A theme that is kept and read back is the same theme.
pub proof fn lemma_theme_reads_back(name: ThemeName)
    ensures
        ThemeName::named(name.saved_text()) == Some(name),
{
    reveal_strlit("Default");
    reveal_strlit("Matrix");
    reveal_strlit("CyanCrush");
    reveal_strlit("Embercore");
    reveal_strlit("ToxicOrchid");
    reveal_strlit("Coldfire");
    assert("Default"@.len() == 7 && "Matrix"@.len() == 6 && "CyanCrush"@.len() == 9);
    assert("Embercore"@.len() == 9 && "ToxicOrchid"@.len() == 11 && "Coldfire"@.len() == 8);
    assert("CyanCrush"@[0] != "Embercore"@[0]);
}

} // verus!
