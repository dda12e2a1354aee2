//! Colour schemes: terminal colour codes, text modifiers, and the style of
//! each kind of entry. `Color` and `Style` hold plainly what a terminal
//! front end needs to draw.

use vstd::prelude::*;
use crate::ftype::{FileEntry, FileType};

verus! {

/// A terminal colour.
#[derive(Debug, Clone, Copy, PartialEq, Eq, Structural)]
pub enum Color {
    Reset,
    Black,
    Red,
    Green,
    Yellow,
    Blue,
    Magenta,
    Cyan,
    Gray,
    DarkGray,
    LightRed,
    LightGreen,
    LightYellow,
    LightBlue,
    LightMagenta,
    LightCyan,
    White,
}

/// The colour that a code names: the same colour for its foreground code
/// and for its background code (ten more).
pub open spec fn color_of(code: u8) -> Option<Color> {
    if code == 30 || code == 40 {
        Some(Color::Black)
    } else if code == 31 || code == 41 {
        Some(Color::Red)
    } else if code == 32 || code == 42 {
        Some(Color::Green)
    } else if code == 33 || code == 43 {
        Some(Color::Yellow)
    } else if code == 34 || code == 44 {
        Some(Color::Blue)
    } else if code == 35 || code == 45 {
        Some(Color::Magenta)
    } else if code == 36 || code == 46 {
        Some(Color::Cyan)
    } else if code == 37 || code == 47 {
        Some(Color::White)
    } else if code == 38 || code == 48 {
        Some(Color::Gray)
    } else if code == 91 || code == 101 {
        Some(Color::LightRed)
    } else if code == 92 || code == 102 {
        Some(Color::LightGreen)
    } else if code == 93 || code == 103 {
        Some(Color::LightYellow)
    } else if code == 94 || code == 104 {
        Some(Color::LightBlue)
    } else if code == 95 || code == 105 {
        Some(Color::LightMagenta)
    } else if code == 96 || code == 106 {
        Some(Color::LightCyan)
    } else if code == 98 || code == 108 {
        Some(Color::DarkGray)
    } else {
        None
    }
}

pub fn color_from_u8(color: u8) -> (r: Option<Color>)
    ensures
        r == color_of(color),
{
    match color {
        30 | 40 => Some(Color::Black),
        31 | 41 => Some(Color::Red),
        32 | 42 => Some(Color::Green),
        33 | 43 => Some(Color::Yellow),
        34 | 44 => Some(Color::Blue),
        35 | 45 => Some(Color::Magenta),
        36 | 46 => Some(Color::Cyan),
        37 | 47 => Some(Color::White),
        38 | 48 => Some(Color::Gray),
        91 | 101 => Some(Color::LightRed),
        92 | 102 => Some(Color::LightGreen),
        93 | 103 => Some(Color::LightYellow),
        94 | 104 => Some(Color::LightBlue),
        95 | 105 => Some(Color::LightMagenta),
        96 | 106 => Some(Color::LightCyan),
        98 | 108 => Some(Color::DarkGray),
        _ => None,
    }
}

/// A combination of text modifiers.
#[derive(Debug, Clone, Copy, PartialEq, Eq, Structural)]
pub enum Modifier {
    Bold,
    Italic,
    Underline,
    BoldItalic,
    BoldUnderline,
    ItalicUnderline,
    BoldItalicUnderline,
    Plain,
}

/// The modifier that a code names; codes other than one to seven name none.
pub open spec fn modifier_of(code: u8) -> Modifier {
    if code == 1 {
        Modifier::Bold
    } else if code == 2 {
        Modifier::Italic
    } else if code == 3 {
        Modifier::Underline
    } else if code == 4 {
        Modifier::BoldItalic
    } else if code == 5 {
        Modifier::BoldUnderline
    } else if code == 6 {
        Modifier::ItalicUnderline
    } else if code == 7 {
        Modifier::BoldItalicUnderline
    } else {
        Modifier::Plain
    }
}

impl From<u8> for Modifier {
    fn from(value: u8) -> (r: Modifier)
        ensures
            r == modifier_of(value),
    {
        match value {
            1 => Modifier::Bold,
            2 => Modifier::Italic,
            3 => Modifier::Underline,
            4 => Modifier::BoldItalic,
            5 => Modifier::BoldUnderline,
            6 => Modifier::ItalicUnderline,
            7 => Modifier::BoldItalicUnderline,
            _ => Modifier::Plain,
        }
    }
}

impl vstd::std_specs::convert::FromSpecImpl<u8> for Modifier {
    open spec fn obeys_from_spec() -> bool {
        true
    }

    open spec fn from_spec(v: u8) -> Modifier {
        modifier_of(v)
    }
}

impl Modifier {
    pub open spec fn spec_bold(self) -> bool {
        self is Bold || self is BoldItalic || self is BoldUnderline || self is BoldItalicUnderline
    }

    pub open spec fn spec_italic(self) -> bool {
        self is Italic || self is BoldItalic || self is ItalicUnderline
            || self is BoldItalicUnderline
    }

    pub open spec fn spec_underlined(self) -> bool {
        self is Underline || self is BoldUnderline || self is ItalicUnderline
            || self is BoldItalicUnderline
    }
}

/// How a piece of text is drawn: colours where set, and modifiers.
#[derive(Debug, Clone, Copy, PartialEq, Eq, Structural)]
pub struct Style {
    pub fg: Option<Color>,
    pub bg: Option<Color>,
    pub bold: bool,
    pub italic: bool,
    pub underlined: bool,
}

impl Style {
    /// The style that sets nothing.
    pub fn plain() -> (r: Style)
        ensures
            r == (Style { fg: None, bg: None, bold: false, italic: false, underlined: false }),
    {
        Style { fg: None, bg: None, bold: false, italic: false, underlined: false }
    }

    /// This style with the modifiers of `m` added.
    pub fn with_modifier(self, m: Modifier) -> (r: Style)
        ensures
            r.fg == self.fg,
            r.bg == self.bg,
            r.bold == (self.bold || m.spec_bold()),
            r.italic == (self.italic || m.spec_italic()),
            r.underlined == (self.underlined || m.spec_underlined()),
    {
        let (b, i, u) = match m {
            Modifier::Bold => (true, false, false),
            Modifier::Italic => (false, true, false),
            Modifier::Underline => (false, false, true),
            Modifier::BoldItalic => (true, true, false),
            Modifier::BoldUnderline => (true, false, true),
            Modifier::ItalicUnderline => (false, true, true),
            Modifier::BoldItalicUnderline => (true, true, true),
            Modifier::Plain => (false, false, false),
        };
        Style {
            fg: self.fg,
            bg: self.bg,
            bold: self.bold || b,
            italic: self.italic || i,
            underlined: self.underlined || u,
        }
    }
}

/// The colour that a code names, or the terminal's default colour.
pub open spec fn color_or_reset(code: u8) -> Color {
    match color_of(code) {
        Some(c) => c,
        None => Color::Reset,
    }
}

/// A style from a colour code and an optional modifier code: codes from 40
/// up set the background, lower ones the foreground.
pub fn get_style(color_code: u8, modifier: Option<u8>) -> (r: Style)
    ensures
        r.fg == (if color_code >= 40 { None } else { Some(color_or_reset(color_code)) }),
        r.bg == (if color_code >= 40 { Some(color_or_reset(color_code)) } else { None }),
        ({
            let m = match modifier {
                Some(c) => modifier_of(c),
                None => Modifier::Plain,
            };
            r.bold == m.spec_bold() && r.italic == m.spec_italic() && r.underlined
                == m.spec_underlined()
        }),
{
    let color = match color_from_u8(color_code) {
        Some(c) => c,
        None => Color::Reset,
    };
    let mut style = Style::plain();
    if color_code >= 40 {
        style.bg = Some(color);
    } else {
        style.fg = Some(color);
    }
    let m = match modifier {
        Some(c) => Modifier::from(c),
        None => Modifier::Plain,
    };
    style.with_modifier(m)
}

/// Colours of the title line.
#[derive(Debug, Clone, Copy, PartialEq, Eq, Structural)]
pub struct Title {
    pub background: u8,
    pub text: u8,
    pub text_modifier: Option<u8>,
}

/// Colours of the file panels.
#[derive(Debug, Clone, Copy, PartialEq, Eq, Structural)]
pub struct Panels {
    pub background: u8,
    pub border_active: u8,
    pub border_inactive: u8,
    pub file: u8,
    pub file_modifier: Option<u8>,
    pub exec_file: u8,
    pub exec_file_modifier: Option<u8>,
    pub link: u8,
    pub link_modifier: Option<u8>,
    pub special_file: u8,
    pub special_file_modifier: Option<u8>,
    pub dir: u8,
    pub dir_modifier: Option<u8>,
    pub hidden: u8,
    pub selection_color: u8,
    pub header_bg: u8,
    pub header_fg: u8,
}

/// Colours of the key line at the bottom.
#[derive(Debug, Clone, Copy, PartialEq, Eq, Structural)]
pub struct Footer {
    pub key_code: u8,
    pub key_code_modifier: Option<u8>,
    pub key_title: u8,
    pub key_title_modifier: Option<u8>,
    pub background: u8,
}

/// A whole colour scheme.
#[derive(Debug, Clone, Copy, PartialEq, Eq, Structural)]
pub struct Colors {
    pub title: Title,
    pub panels: Panels,
    pub footer: Footer,
}

pub open spec fn default_title() -> Title {
    Title { background: 30, text: 93, text_modifier: Some(1) }
}

pub open spec fn default_panels() -> Panels {
    Panels {
        background: 98,
        border_active: 34,
        border_inactive: 30,
        file: 37,
        file_modifier: None,
        exec_file: 32,
        exec_file_modifier: None,
        link: 32,
        link_modifier: None,
        special_file: 36,
        special_file_modifier: None,
        dir: 34,
        dir_modifier: None,
        hidden: 38,
        selection_color: 96,
        header_bg: 98,
        header_fg: 38,
    }
}

pub open spec fn default_footer() -> Footer {
    Footer {
        key_code: 31,
        key_code_modifier: Some(1),
        key_title: 30,
        key_title_modifier: None,
        background: 38,
    }
}

impl Default for Title {
    fn default() -> (r: Title)
        ensures
            r == default_title(),
    {
        Title { background: 30, text: 93, text_modifier: Some(1) }
    }
}

impl Default for Panels {
    fn default() -> (r: Panels)
        ensures
            r == default_panels(),
    {
        Panels {
            background: 98,
            border_active: 34,
            border_inactive: 30,
            file: 37,
            file_modifier: None,
            exec_file: 32,
            exec_file_modifier: None,
            link: 32,
            link_modifier: None,
            special_file: 36,
            special_file_modifier: None,
            dir: 34,
            dir_modifier: None,
            hidden: 38,
            selection_color: 96,
            header_bg: 98,
            header_fg: 38,
        }
    }
}

impl Default for Footer {
    fn default() -> (r: Footer)
        ensures
            r == default_footer(),
    {
        Footer {
            key_code: 31,
            key_code_modifier: Some(1),
            key_title: 30,
            key_title_modifier: None,
            background: 38,
        }
    }
}

impl Default for Colors {
    fn default() -> (r: Colors)
        ensures
            r == (Colors { title: default_title(), panels: default_panels(), footer: default_footer() }),
    {
        Colors { title: Title::default(), panels: Panels::default(), footer: Footer::default() }
    }
}

/// The style of one row of the file panel.
pub struct FileColor<'a> {
    pub entry: &'a FileEntry,
    pub cols: Panels,
    pub selected: bool,
}

/// The foreground code of an entry of kind `t` that is not hidden.
pub open spec fn kind_color_code(cols: Panels, t: FileType) -> u8 {
    match t {
        FileType::Directory | FileType::ParentDirectory => cols.dir,
        FileType::Link => cols.link,
        FileType::FileExecutable => cols.exec_file,
        FileType::Special => cols.special_file,
        FileType::File => cols.file,
    }
}

/// The modifier code of an entry of kind `t`.
pub open spec fn kind_modifier_code(cols: Panels, t: FileType) -> u8 {
    let m = match t {
        FileType::File | FileType::FileExecutable => cols.file_modifier,
        FileType::Directory | FileType::ParentDirectory => cols.dir_modifier,
        FileType::Link => cols.link_modifier,
        FileType::Special => cols.special_file_modifier,
    };
    match m {
        Some(c) => c,
        None => 8,
    }
}

impl<'a> FileColor<'a> {
    fn bg(&self) -> (r: Option<Color>)
        ensures
            r == color_of(
                if self.selected && !self.entry.is_hidden {
                    self.cols.selection_color
                } else {
                    self.cols.background
                },
            ),
    {
        color_from_u8(
            if self.selected && !self.entry.is_hidden {
                self.cols.selection_color
            } else {
                self.cols.background
            },
        )
    }

    fn fg(&self) -> (r: Option<Color>)
        ensures
            r == color_of(
                if self.entry.is_hidden {
                    self.cols.hidden
                } else {
                    kind_color_code(self.cols, self.entry.file_type)
                },
            ),
    {
        if self.entry.is_hidden {
            color_from_u8(self.cols.hidden)
        } else {
            let code = match self.entry.file_type {
                FileType::Directory | FileType::ParentDirectory => self.cols.dir,
                FileType::Link => self.cols.link,
                FileType::FileExecutable => self.cols.exec_file,
                FileType::Special => self.cols.special_file,
                FileType::File => self.cols.file,
            };
            color_from_u8(code)
        }
    }

    fn modifier(&self) -> (r: Modifier)
        ensures
            r == modifier_of(kind_modifier_code(self.cols, self.entry.file_type)),
    {
        let m = match self.entry.file_type {
            FileType::File | FileType::FileExecutable => self.cols.file_modifier,
            FileType::Directory | FileType::ParentDirectory => self.cols.dir_modifier,
            FileType::Link => self.cols.link_modifier,
            FileType::Special => self.cols.special_file_modifier,
        };
        Modifier::from(
            match m {
                Some(c) => c,
                None => 8,
            },
        )
    }

    /// The row's style: background from selection, foreground from kind or
    /// hidden state, modifier from kind; a code that names no colour gives
    /// the terminal's default.
    pub fn style(&self) -> (r: Style)
        ensures
            r.bg == Some(
                color_or_reset(
                    if self.selected && !self.entry.is_hidden {
                        self.cols.selection_color
                    } else {
                        self.cols.background
                    },
                ),
            ),
            r.fg == Some(
                color_or_reset(
                    if self.entry.is_hidden {
                        self.cols.hidden
                    } else {
                        kind_color_code(self.cols, self.entry.file_type)
                    },
                ),
            ),
            r.bold == modifier_of(kind_modifier_code(self.cols, self.entry.file_type)).spec_bold(),
            r.italic == modifier_of(
                kind_modifier_code(self.cols, self.entry.file_type),
            ).spec_italic(),
            r.underlined == modifier_of(
                kind_modifier_code(self.cols, self.entry.file_type),
            ).spec_underlined(),
    {
        let bg = match self.bg() {
            Some(c) => c,
            None => Color::Reset,
        };
        let fg = match self.fg() {
            Some(c) => c,
            None => Color::Reset,
        };
        let style = Style { fg: Some(fg), bg: Some(bg), bold: false, italic: false, underlined: false };
        style.with_modifier(self.modifier())
    }
}

} // verus!
