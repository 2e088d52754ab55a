//! Color themes: a semantic palette so presets can be swapped in, plus the
//! small styled-text model (style, span, line) that rendering code produces.
use vstd::prelude::*;
use crate::text::{replace_char, replace_char_seq, spec_lowercase, str_eq, to_lowercase, trim, trim_seq};

verus! {

/// Terminal colors used by the palettes.
#[derive(Clone, Copy, PartialEq, Eq, Debug, Structural)]
pub enum Color {
    Reset,
    Black,
    White,
    DarkGray,
    Gray,
    Red,
    Green,
    Yellow,
    Blue,
    Magenta,
    Cyan,
    Rgb(u8, u8, u8),
}

/// Semantic color palette. All UI colors reference these fields.
#[derive(Clone, Copy, PartialEq, Eq, Debug, Structural)]
pub struct Theme {
    /// Normal text (bold when emphasized).
    pub text: Color,
    /// Meta/dim text, unfocused borders.
    pub muted: Color,
    /// Focus, titles, numbers, primary emphasis.
    pub accent: Color,
    /// Success/done (✓), LIVE.
    pub success: Color,
    /// In progress/pending/warning.
    pub warning: Color,
    /// Failure/error (✗).
    pub error: Color,
    /// New/changed markers, labels.
    pub highlight: Color,
    /// Commit sha.
    pub sha: Color,
    /// Markdown links.
    pub link: Color,
    /// Code (inline/block).
    pub code: Color,
    /// Selected row background tint.
    pub sel: Color,
}

/// `0xRRGGBB` → `Color::Rgb`.
pub open spec fn rgb_spec(hex: u32) -> Color {
    Color::Rgb((hex >> 16u32) as u8, (hex >> 8u32) as u8, hex as u8)
}

pub fn rgb(hex: u32) -> (c: Color)
    ensures
        c == rgb_spec(hex),
{
    Color::Rgb((hex >> 16u32) as u8, (hex >> 8u32) as u8, hex as u8)
}

/// Selectable theme names (for help/validation).
pub fn names() -> (r: Vec<&'static str>)
    ensures
        r@.len() == 5,
        r@[0]@ == "default"@,
        r@[1]@ == "nord"@,
        r@[2]@ == "catppuccin-mocha"@,
        r@[3]@ == "dracula"@,
        r@[4]@ == "tokyo-night"@,
{
    vec!["default", "nord", "catppuccin-mocha", "dracula", "tokyo-night"]
}

/// Which preset a (normalised) name selects.
#[derive(Clone, Copy, PartialEq, Eq, Debug, Structural)]
pub enum Preset {
    Default,
    Nord,
    CatppuccinMocha,
    Dracula,
    TokyoNight,
}

impl Theme {
    /// The name with surrounding whitespace removed, lowercased and `_` → `-`.
    pub open spec fn normalize_name(name: Seq<char>) -> Seq<char> {
        replace_char_seq(spec_lowercase(trim_seq(name)), '_', '-')
    }

    pub open spec fn preset_of(name: Seq<char>) -> Preset {
        Theme::preset_for(Theme::normalize_name(name))
    }

    /// The preset a normalized name picks (aliases included; default otherwise).
    pub open spec fn preset_for(n: Seq<char>) -> Preset {
        if n == "nord"@ {
            Preset::Nord
        } else if n == "catppuccin"@ || n == "catppuccin-mocha"@ || n == "mocha"@ {
            Preset::CatppuccinMocha
        } else if n == "dracula"@ {
            Preset::Dracula
        } else if n == "tokyo-night"@ || n == "tokyonight"@ {
            Preset::TokyoNight
        } else {
            Preset::Default
        }
    }

    pub open spec fn preset_spec(p: Preset) -> Theme {
        match p {
            Preset::Default => Theme::default_spec(),
            Preset::Nord => Theme::nord_spec(),
            Preset::CatppuccinMocha => Theme::catppuccin_mocha_spec(),
            Preset::Dracula => Theme::dracula_spec(),
            Preset::TokyoNight => Theme::tokyo_night_spec(),
        }
    }

    /// The theme of a normalized name (see `normalize_name`).
    pub fn from_normalized(n: &str) -> (t: Theme)
        ensures
            t == Theme::preset_spec(Theme::preset_for(n@)),
    {
        if str_eq(n, "nord") {
            Theme::nord()
        } else if str_eq(n, "catppuccin") || str_eq(n, "catppuccin-mocha") || str_eq(n, "mocha") {
            Theme::catppuccin_mocha()
        } else if str_eq(n, "dracula") {
            Theme::dracula()
        } else if str_eq(n, "tokyo-night") || str_eq(n, "tokyonight") {
            Theme::tokyo_night()
        } else {
            Theme::default_theme()
        }
    }

    /// Pick a theme by name. Falls back to default if unknown.
    pub fn from_name(name: &str) -> (t: Theme)
        ensures
            t == Theme::preset_spec(Theme::preset_of(name@)),
    {
        let n = replace_char(to_lowercase(trim(name).as_str()).as_str(), '_', '-');
        Theme::from_normalized(n.as_str())
    }

    pub open spec fn default_spec() -> Theme {
        Theme {
            text: Color::White,
            muted: Color::DarkGray,
            accent: Color::Cyan,
            success: Color::Green,
            warning: Color::Yellow,
            error: Color::Red,
            highlight: Color::Magenta,
            sha: Color::Yellow,
            link: Color::Blue,
            code: rgb_spec(0xaaaaaa),
            sel: rgb_spec(0x303030),
        }
    }

    /// Terminal default 16 colors — fits any terminal theme.
    pub fn default_theme() -> (t: Theme)
        ensures
            t == Theme::default_spec(),
    {
        Theme {
            text: Color::White,
            muted: Color::DarkGray,
            accent: Color::Cyan,
            success: Color::Green,
            warning: Color::Yellow,
            error: Color::Red,
            highlight: Color::Magenta,
            sha: Color::Yellow,
            link: Color::Blue,
            code: rgb(0xaaaaaa),
            sel: rgb(0x303030),
        }
    }

    pub open spec fn nord_spec() -> Theme {
        Theme {
            text: rgb_spec(0xd8dee9),
            muted: rgb_spec(0x4c566a),
            accent: rgb_spec(0x88c0d0),
            success: rgb_spec(0xa3be8c),
            warning: rgb_spec(0xebcb8b),
            error: rgb_spec(0xbf616a),
            highlight: rgb_spec(0xb48ead),
            sha: rgb_spec(0xd08770),
            link: rgb_spec(0x81a1c1),
            code: rgb_spec(0x8fbcbb),
            sel: rgb_spec(0x3b4252),
        }
    }

    pub fn nord() -> (t: Theme)
        ensures
            t == Theme::nord_spec(),
    {
        Theme {
            text: rgb(0xd8dee9),
            muted: rgb(0x4c566a),
            accent: rgb(0x88c0d0),
            success: rgb(0xa3be8c),
            warning: rgb(0xebcb8b),
            error: rgb(0xbf616a),
            highlight: rgb(0xb48ead),
            sha: rgb(0xd08770),
            link: rgb(0x81a1c1),
            code: rgb(0x8fbcbb),
            sel: rgb(0x3b4252),
        }
    }

    pub open spec fn catppuccin_mocha_spec() -> Theme {
        Theme {
            text: rgb_spec(0xcdd6f4),
            muted: rgb_spec(0x6c7086),
            accent: rgb_spec(0x89dceb),
            success: rgb_spec(0xa6e3a1),
            warning: rgb_spec(0xf9e2af),
            error: rgb_spec(0xf38ba8),
            highlight: rgb_spec(0xcba6f7),
            sha: rgb_spec(0xfab387),
            link: rgb_spec(0x89b4fa),
            code: rgb_spec(0x94e2d5),
            sel: rgb_spec(0x313244),
        }
    }

    pub fn catppuccin_mocha() -> (t: Theme)
        ensures
            t == Theme::catppuccin_mocha_spec(),
    {
        Theme {
            text: rgb(0xcdd6f4),
            muted: rgb(0x6c7086),
            accent: rgb(0x89dceb),
            success: rgb(0xa6e3a1),
            warning: rgb(0xf9e2af),
            error: rgb(0xf38ba8),
            highlight: rgb(0xcba6f7),
            sha: rgb(0xfab387),
            link: rgb(0x89b4fa),
            code: rgb(0x94e2d5),
            sel: rgb(0x313244),
        }
    }

    pub open spec fn dracula_spec() -> Theme {
        Theme {
            text: rgb_spec(0xf8f8f2),
            muted: rgb_spec(0x6272a4),
            accent: rgb_spec(0x8be9fd),
            success: rgb_spec(0x50fa7b),
            warning: rgb_spec(0xf1fa8c),
            error: rgb_spec(0xff5555),
            highlight: rgb_spec(0xbd93f9),
            sha: rgb_spec(0xffb86c),
            link: rgb_spec(0x8be9fd),
            code: rgb_spec(0x50fa7b),
            sel: rgb_spec(0x44475a),
        }
    }

    pub fn dracula() -> (t: Theme)
        ensures
            t == Theme::dracula_spec(),
    {
        Theme {
            text: rgb(0xf8f8f2),
            muted: rgb(0x6272a4),
            accent: rgb(0x8be9fd),
            success: rgb(0x50fa7b),
            warning: rgb(0xf1fa8c),
            error: rgb(0xff5555),
            highlight: rgb(0xbd93f9),
            sha: rgb(0xffb86c),
            link: rgb(0x8be9fd),
            code: rgb(0x50fa7b),
            sel: rgb(0x44475a),
        }
    }

    pub open spec fn tokyo_night_spec() -> Theme {
        Theme {
            text: rgb_spec(0xc0caf5),
            muted: rgb_spec(0x565f89),
            accent: rgb_spec(0x7dcfff),
            success: rgb_spec(0x9ece6a),
            warning: rgb_spec(0xe0af68),
            error: rgb_spec(0xf7768e),
            highlight: rgb_spec(0xbb9af7),
            sha: rgb_spec(0xff9e64),
            link: rgb_spec(0x7aa2f7),
            code: rgb_spec(0x73daca),
            sel: rgb_spec(0x292e42),
        }
    }

    pub fn tokyo_night() -> (t: Theme)
        ensures
            t == Theme::tokyo_night_spec(),
    {
        Theme {
            text: rgb(0xc0caf5),
            muted: rgb(0x565f89),
            accent: rgb(0x7dcfff),
            success: rgb(0x9ece6a),
            warning: rgb(0xe0af68),
            error: rgb(0xf7768e),
            highlight: rgb(0xbb9af7),
            sha: rgb(0xff9e64),
            link: rgb(0x7aa2f7),
            code: rgb(0x73daca),
            sel: rgb(0x292e42),
        }
    }
}

impl Default for Theme {
    fn default() -> (t: Theme)
        ensures
            t == Theme::default_spec(),
    {
        Theme::default_theme()
    }
}

// ─── styled text ─────────────────────────────────────────────────────────────

/// Text attributes.
#[derive(Clone, Copy, PartialEq, Eq, Debug, Structural)]
pub struct Modifiers {
    pub bold: bool,
    pub italic: bool,
    pub crossed_out: bool,
    pub underlined: bool,
}

/// Foreground/background color and attributes of a piece of text.
#[derive(Clone, Copy, PartialEq, Eq, Debug, Structural)]
pub struct TextStyle {
    pub fg: Option<Color>,
    pub bg: Option<Color>,
    pub mods: Modifiers,
}

pub open spec fn no_mods() -> Modifiers {
    Modifiers { bold: false, italic: false, crossed_out: false, underlined: false }
}

/// The empty style (terminal defaults).
pub open spec fn plain_style() -> TextStyle {
    TextStyle { fg: None, bg: None, mods: no_mods() }
}

pub open spec fn fg_style(c: Color) -> TextStyle {
    TextStyle { fg: Some(c), bg: None, mods: no_mods() }
}

pub fn style_plain() -> (s: TextStyle)
    ensures
        s == plain_style(),
{
    TextStyle {
        fg: None,
        bg: None,
        mods: Modifiers { bold: false, italic: false, crossed_out: false, underlined: false },
    }
}

pub fn style_fg(c: Color) -> (s: TextStyle)
    ensures
        s == fg_style(c),
{
    TextStyle {
        fg: Some(c),
        bg: None,
        mods: Modifiers { bold: false, italic: false, crossed_out: false, underlined: false },
    }
}

/// A run of text with one style.
#[derive(Clone, Debug)]
pub struct TextSpan {
    pub text: String,
    pub style: TextStyle,
}

/// One line of styled text.
#[derive(Clone, Debug)]
pub struct TextLine {
    pub spans: Vec<TextSpan>,
    pub style: TextStyle,
}

/// Plain view of a span: its text and style.
pub open spec fn span_view(s: TextSpan) -> (Seq<char>, TextStyle) {
    (s.text@, s.style)
}

/// Plain views of spans.
pub open spec fn spans_view(v: Seq<TextSpan>) -> Seq<(Seq<char>, TextStyle)> {
    v.map_values(|s: TextSpan| span_view(s))
}

/// Plain view of a line.
pub open spec fn line_view(l: TextLine) -> (Seq<(Seq<char>, TextStyle)>, TextStyle) {
    (spans_view(l.spans@), l.style)
}

pub open spec fn lines_view(ls: Seq<TextLine>) -> Seq<(Seq<(Seq<char>, TextStyle)>, TextStyle)> {
    ls.map_values(|l: TextLine| line_view(l))
}

} // verus!
