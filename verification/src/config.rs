//! The user's configuration: the application's name and the colours of its
//! theme, as they come out of the settings file.

use crate::text::{
    byte_of, chars_of, lower_all, lowered, parse_byte, pieces_of, same_text, split, split_on, trim,
    trimmed,
};
use crate::events::{bindings_of, KeyBindings, KeysSection};
use crate::scanner::{extensions_of, root_of, texts_of, LibrarySection, ScanConfig};
use vstd::prelude::*;

verus! {

/// A colour of the theme: one of the sixteen named terminal colours, or a
/// colour given by its red, green and blue parts.
#[derive(Clone, Copy, Debug, PartialEq, Eq, Structural)]
pub enum Color {
    Black,
    Blue,
    Green,
    Red,
    Yellow,
    Magenta,
    Cyan,
    Gray,
    DarkGray,
    LightRed,
    LightGreen,
    LightYellow,
    LightBlue,
    LightMagenta,
    LightCyan,
    White,
    Rgb(u8, u8, u8),
}

/// The `[theme]` section of the settings file. Each entry is the text the
/// user wrote, if any.
#[derive(Clone, Debug, PartialEq, Eq)]
pub struct Theme {
    pub foreground: Option<String>,
    pub background: Option<String>,
    pub h_foreground: Option<String>,
    pub h_background: Option<String>,
    pub border: Option<String>,
}

/// The `[app]` section of the settings file.
#[derive(Clone, Debug, PartialEq, Eq)]
pub struct AppSection {
    pub app_name: Option<String>,
}

/// The settings file as a whole. Any section may be missing.
#[derive(Clone, Debug, PartialEq, Eq)]
pub struct ConfToml {
    pub app: Option<AppSection>,
    pub theme: Option<Theme>,
    pub keys: Option<KeysSection>,
    pub library: Option<LibrarySection>,
}

/// The configuration in force.
#[derive(Clone, Debug, PartialEq, Eq)]
pub struct Config {
    pub app_name: String,
    pub foreground: Color,
    pub background: Color,
    pub h_foreground: Color,
    pub h_background: Color,
    pub border: Color,
    /// The key of each command.
    pub keys: KeyBindings,
    /// Where the scanner looks, and for what.
    pub scan: ScanConfig,
}

/// The colour that a lower-case name stands for.
pub open spec fn named_color(name: Seq<char>) -> Option<Color> {
    if name == "black"@ {
        Some(Color::Black)
    } else if name == "blue"@ {
        Some(Color::Blue)
    } else if name == "green"@ {
        Some(Color::Green)
    } else if name == "red"@ {
        Some(Color::Red)
    } else if name == "yellow"@ {
        Some(Color::Yellow)
    } else if name == "magenta"@ {
        Some(Color::Magenta)
    } else if name == "cyan"@ {
        Some(Color::Cyan)
    } else if name == "gray"@ {
        Some(Color::Gray)
    } else if name == "dark gray"@ {
        Some(Color::DarkGray)
    } else if name == "light red"@ {
        Some(Color::LightRed)
    } else if name == "light green"@ {
        Some(Color::LightGreen)
    } else if name == "light yellow"@ {
        Some(Color::LightYellow)
    } else if name == "light blue"@ {
        Some(Color::LightBlue)
    } else if name == "light magenta"@ {
        Some(Color::LightMagenta)
    } else if name == "light cyan"@ {
        Some(Color::LightCyan)
    } else if name == "white"@ {
        Some(Color::White)
    } else {
        None
    }
}

/// The colour that three comma-separated bytes give: exactly three pieces,
/// each a decimal byte once the white space around it is taken away.
pub open spec fn rgb_of(text: Seq<char>) -> Option<Color> {
    let parts = split_on(text, ',');
    if parts.len() == 3 {
        match (byte_of(trimmed(parts[0])), byte_of(trimmed(parts[1])), byte_of(trimmed(parts[2]))) {
            (Some(r), Some(g), Some(b)) => Some(Color::Rgb(r, g, b)),
            _ => None,
        }
    } else {
        None
    }
}

/// The colour that a theme entry writes: a colour name in any mix of upper
/// and lower case, or else red, green and blue as `r, g, b`.
pub open spec fn color_of(text: Seq<char>) -> Option<Color> {
    match named_color(lowered(text)) {
        Some(c) => Some(c),
        None => rgb_of(text),
    }
}

/// The colour of one slot of the theme: the slot's default where the user
/// set nothing, the colour written where the entry can be read, and black
/// where it cannot.
pub open spec fn slot_color(entry: Option<String>, default: Color) -> Color {
    match entry {
        None => default,
        Some(text) => match color_of(text@) {
            Some(c) => c,
            None => Color::Black,
        },
    }
}

/// The theme that a parsed settings file carries; a file that could not be
/// parsed, or has no `[theme]` section, sets no slot.
pub open spec fn theme_of(parsed: Option<ConfToml>) -> Theme {
    match parsed {
        Some(ConfToml { theme: Some(theme), .. }) => theme,
        _ => Theme {
            foreground: None,
            background: None,
            h_foreground: None,
            h_background: None,
            border: None,
        },
    }
}

/// The `[keys]` section that a parsed settings file carries.
pub open spec fn keys_of(parsed: Option<ConfToml>) -> Option<KeysSection> {
    match parsed {
        Some(conf) => conf.keys,
        None => None,
    }
}

/// The `[library]` section that a parsed settings file carries.
pub open spec fn library_of(parsed: Option<ConfToml>) -> Option<LibrarySection> {
    match parsed {
        Some(conf) => conf.library,
        None => None,
    }
}

/// The application name that a parsed settings file gives, `Rustify` where
/// it gives none.
pub open spec fn name_of(parsed: Option<ConfToml>) -> Seq<char> {
    match parsed {
        Some(ConfToml { app: Some(AppSection { app_name: Some(name) }), .. }) => name@,
        _ => "Rustify"@,
    }
}

fn color_by_name(name: &Vec<char>) -> (r: Option<Color>)
    ensures
        r == named_color(name@),
{
    if same_text(name, "black") {
        Some(Color::Black)
    } else if same_text(name, "blue") {
        Some(Color::Blue)
    } else if same_text(name, "green") {
        Some(Color::Green)
    } else if same_text(name, "red") {
        Some(Color::Red)
    } else if same_text(name, "yellow") {
        Some(Color::Yellow)
    } else if same_text(name, "magenta") {
        Some(Color::Magenta)
    } else if same_text(name, "cyan") {
        Some(Color::Cyan)
    } else if same_text(name, "gray") {
        Some(Color::Gray)
    } else if same_text(name, "dark gray") {
        Some(Color::DarkGray)
    } else if same_text(name, "light red") {
        Some(Color::LightRed)
    } else if same_text(name, "light green") {
        Some(Color::LightGreen)
    } else if same_text(name, "light yellow") {
        Some(Color::LightYellow)
    } else if same_text(name, "light blue") {
        Some(Color::LightBlue)
    } else if same_text(name, "light magenta") {
        Some(Color::LightMagenta)
    } else if same_text(name, "light cyan") {
        Some(Color::LightCyan)
    } else if same_text(name, "white") {
        Some(Color::White)
    } else {
        None
    }
}

fn parse_rgb(chars: &Vec<char>) -> (r: Option<Color>)
    ensures
        r == rgb_of(chars@),
{
    let parts = split(chars, ',');
    assert(pieces_of(parts@).len() == parts@.len());
    if parts.len() != 3 {
        return None;
    }
    assert(pieces_of(parts@)[0] == parts@[0]@);
    assert(pieces_of(parts@)[1] == parts@[1]@);
    assert(pieces_of(parts@)[2] == parts@[2]@);
    let red = parse_byte(&trim(&parts[0]));
    let green = parse_byte(&trim(&parts[1]));
    let blue = parse_byte(&trim(&parts[2]));
    match (red, green, blue) {
        (Some(r), Some(g), Some(b)) => Some(Color::Rgb(r, g, b)),
        _ => None,
    }
}

/// Reads a theme entry as a colour; `None` where the text is neither a
/// colour name nor three bytes.
pub fn parse_color(text: &str) -> (r: Option<Color>)
    ensures
        r == color_of(text@),
{
    let chars = chars_of(text);
    let lower = lower_all(&chars);
    match color_by_name(&lower) {
        Some(c) => Some(c),
        None => parse_rgb(&chars),
    }
}

/// The colour of one slot of the theme, given the user's entry for it and
/// the slot's default.
pub fn resolve_color(entry: &Option<String>, default: Color) -> (r: Color)
    ensures
        r == slot_color(*entry, default),
{
    match entry {
        None => default,
        Some(text) => match parse_color(text.as_str()) {
            Some(c) => c,
            None => Color::Black,
        },
    }
}

impl Config {
    /// The configuration that a settings file gives. `parsed` is the file
    /// as parsed, or `None` where there was none that could be parsed; what
    /// it leaves open falls back to the defaults.
    pub fn new(parsed: Option<ConfToml>) -> (c: Config)
        ensures
            c.app_name@ == name_of(parsed),
            c.foreground == slot_color(theme_of(parsed).foreground, Color::LightCyan),
            c.background == slot_color(theme_of(parsed).background, Color::Black),
            c.h_foreground == slot_color(theme_of(parsed).h_foreground, Color::Black),
            c.h_background == slot_color(theme_of(parsed).h_background, Color::LightGreen),
            c.border == slot_color(theme_of(parsed).border, Color::LightGreen),
            c.keys == bindings_of(keys_of(parsed)),
            c.scan.root@ == root_of(library_of(parsed)),
            texts_of(c.scan.extensions@) == extensions_of(library_of(parsed)),
    {
        let (app, theme, keys, library) = match parsed {
            Some(conf) => (conf.app, conf.theme, conf.keys, conf.library),
            None => (None, None, None, None),
        };
        let app_name = match app {
            Some(AppSection { app_name: Some(name) }) => name,
            _ => "Rustify".to_owned(),
        };
        let theme = match theme {
            Some(theme) => theme,
            None => Theme {
                foreground: None,
                background: None,
                h_foreground: None,
                h_background: None,
                border: None,
            },
        };
        Config {
            app_name,
            foreground: resolve_color(&theme.foreground, Color::LightCyan),
            background: resolve_color(&theme.background, Color::Black),
            h_foreground: resolve_color(&theme.h_foreground, Color::Black),
            h_background: resolve_color(&theme.h_background, Color::LightGreen),
            border: resolve_color(&theme.border, Color::LightGreen),
            keys: KeyBindings::from_settings(&keys),
            scan: ScanConfig::from_settings(library),
        }
    }

    pub fn app_name(&self) -> (name: String)
        ensures
            name@ == self.app_name@,
    {
        self.app_name.clone()
    }

    pub fn foreground(&self) -> (color: Color)
        ensures
            color == self.foreground,
    {
        self.foreground
    }

    pub fn background(&self) -> (color: Color)
        ensures
            color == self.background,
    {
        self.background
    }

    pub fn h_foreground(&self) -> (color: Color)
        ensures
            color == self.h_foreground,
    {
        self.h_foreground
    }

    pub fn h_background(&self) -> (color: Color)
        ensures
            color == self.h_background,
    {
        self.h_background
    }

    pub fn border(&self) -> (color: Color)
        ensures
            color == self.border,
    {
        self.border
    }
}

impl Default for Config {
    fn default() -> (c: Config)
        ensures
            c.app_name@ == "Rustify"@,
            c.foreground == Color::LightCyan,
            c.background == Color::Black,
            c.h_foreground == Color::Black,
            c.h_background == Color::LightGreen,
            c.border == Color::LightGreen,
            c.keys == crate::events::default_bindings(),
            c.scan.root@ == crate::scanner::default_root(),
            texts_of(c.scan.extensions@) == crate::scanner::default_extensions(),
    {
        Config::new(None)
    }
}

} // verus!
