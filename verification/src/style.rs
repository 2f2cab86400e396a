//! Colors, text decorations, and styled text fragments.
//!
//! A [`Style`] is a pure description; rendering it produces exactly the
//! select-graphic-rendition sequences its contract states, and the `Inherit`
//! members produce nothing at all.

use crate::escapes::{
    bg_escape, bg_seq, bold_escape, blink_escape, crossed_out_escape, faint_escape, fg_escape,
    fg_seq, invert_escape, italic_escape, reset_escape, reset_seq, sgr_seq, underline_escape,
};
use vstd::prelude::*;
use vstd::string::StringExecFns;

verus! {

/// A terminal palette color, or `Inherit` to leave the terminal's current
/// color untouched.
#[derive(Debug, PartialEq, Eq, Structural, Clone, Copy)]
pub enum Color {
    Black,
    Blue,
    Cyan,
    Green,
    Magenta,
    Red,
    White,
    Yellow,
    LightBlack,
    LightBlue,
    LightCyan,
    LightGreen,
    LightMagenta,
    LightRed,
    LightWhite,
    LightYellow,
    Inherit,
}

impl Default for Color {
    /// The default color inherits whatever the terminal shows.
    fn default() -> (r: Self)
        ensures
            r == Color::Inherit,
    {
        Self::Inherit
    }
}

impl Color {
    /// The color's index in the terminal's 256-color palette, matching the
    /// table of the terminal-control crate. `Inherit` has no index; it is
    /// never rendered.
    pub open spec fn palette_index(self) -> u8 {
        match self {
            Color::Black => 0,
            Color::Red => 1,
            Color::Green => 2,
            Color::Yellow => 3,
            Color::Blue => 4,
            Color::Magenta => 5,
            Color::Cyan => 6,
            Color::White => 7,
            Color::LightBlack => 8,
            Color::LightRed => 9,
            Color::LightGreen => 10,
            Color::LightYellow => 11,
            Color::LightBlue => 12,
            Color::LightMagenta => 13,
            Color::LightCyan => 14,
            Color::LightWhite => 15,
            Color::Inherit => 0,
        }
    }

    /// The escape sequence that selects this foreground color; empty for
    /// `Inherit`.
    pub open spec fn fg_code_seq(self) -> Seq<char> {
        if self is Inherit {
            Seq::empty()
        } else {
            fg_seq(self.palette_index())
        }
    }

    /// The escape sequence that selects this background color; empty for
    /// `Inherit`.
    pub open spec fn bg_code_seq(self) -> Seq<char> {
        if self is Inherit {
            Seq::empty()
        } else {
            bg_seq(self.palette_index())
        }
    }

    fn palette(&self) -> (r: u8)
        ensures
            r == self.palette_index(),
    {
        match self {
            Color::Black => 0,
            Color::Red => 1,
            Color::Green => 2,
            Color::Yellow => 3,
            Color::Blue => 4,
            Color::Magenta => 5,
            Color::Cyan => 6,
            Color::White => 7,
            Color::LightBlack => 8,
            Color::LightRed => 9,
            Color::LightGreen => 10,
            Color::LightYellow => 11,
            Color::LightBlue => 12,
            Color::LightMagenta => 13,
            Color::LightCyan => 14,
            Color::LightWhite => 15,
            Color::Inherit => 0,
        }
    }

    /// Renders the foreground selection sequence.
    fn write_fg(&self) -> (r: String)
        ensures
            r@ == self.fg_code_seq(),
    {
        match self {
            Color::Inherit => String::new(),
            _ => fg_escape(self.palette()),
        }
    }

    /// Renders the background selection sequence.
    fn write_bg(&self) -> (r: String)
        ensures
            r@ == self.bg_code_seq(),
    {
        match self {
            Color::Inherit => String::new(),
            _ => bg_escape(self.palette()),
        }
    }
}

/// A text decoration, or `Inherit` to leave the current attributes alone.
#[derive(Debug, PartialEq, Eq, Structural, Clone, Copy)]
pub enum Decoration {
    Bold,
    Faint,
    Italic,
    Underline,
    Blink,
    Invert,
    CrossedOut,
    Inherit,
}

impl Decoration {
    /// The escape sequence that switches this decoration on; empty for
    /// `Inherit`.
    pub open spec fn code_seq(self) -> Seq<char> {
        match self {
            Decoration::Bold => sgr_seq(1),
            Decoration::Faint => sgr_seq(2),
            Decoration::Italic => sgr_seq(3),
            Decoration::Underline => sgr_seq(4),
            Decoration::Blink => sgr_seq(5),
            Decoration::Invert => sgr_seq(7),
            Decoration::CrossedOut => sgr_seq(9),
            Decoration::Inherit => Seq::empty(),
        }
    }

    /// Renders the decoration's escape sequence.
    fn render(&self) -> (r: String)
        ensures
            r@ == self.code_seq(),
    {
        match self {
            Decoration::Bold => bold_escape(),
            Decoration::Faint => faint_escape(),
            Decoration::Italic => italic_escape(),
            Decoration::Underline => underline_escape(),
            Decoration::Blink => blink_escape(),
            Decoration::Invert => invert_escape(),
            Decoration::CrossedOut => crossed_out_escape(),
            Decoration::Inherit => String::new(),
        }
    }
}

/// A foreground: a color together with a decoration.
#[derive(Debug, PartialEq, Eq, Structural, Clone, Copy)]
pub struct Foreground {
    /// The foreground color.
    pub color: Color,
    /// The text decoration.
    pub decoration: Decoration,
}

impl Foreground {
    /// Replaces the color.
    pub fn color(self, color: Color) -> (r: Foreground)
        ensures
            r == (Foreground { color, ..self }),
    {
        Foreground { color, ..self }
    }

    /// Replaces the decoration.
    pub fn decoration(self, decoration: Decoration) -> (r: Foreground)
        ensures
            r == (Foreground { decoration, ..self }),
    {
        Foreground { decoration, ..self }
    }

    /// The sequences selecting this foreground: color first, then
    /// decoration.
    pub open spec fn code_seq(self) -> Seq<char> {
        self.color.fg_code_seq() + self.decoration.code_seq()
    }
}

impl Default for Foreground {
    /// The default foreground inherits both color and decoration.
    fn default() -> (r: Self)
        ensures
            r == (Foreground { color: Color::Inherit, decoration: Decoration::Inherit }),
    {
        Foreground { color: Color::Inherit, decoration: Decoration::Inherit }
    }
}

impl From<Color> for Foreground {
    /// A foreground that only sets the color.
    fn from(color: Color) -> (r: Foreground)
        ensures
            r == (Foreground { color, decoration: Decoration::Inherit }),
    {
        Foreground { color, decoration: Decoration::Inherit }
    }
}

impl vstd::std_specs::convert::FromSpecImpl<Color> for Foreground {
    open spec fn obeys_from_spec() -> bool {
        true
    }

    open spec fn from_spec(color: Color) -> Foreground {
        Foreground { color, decoration: Decoration::Inherit }
    }
}

impl From<Decoration> for Foreground {
    /// A foreground that only sets the decoration.
    fn from(decoration: Decoration) -> (r: Foreground)
        ensures
            r == (Foreground { color: Color::Inherit, decoration }),
    {
        Foreground { color: Color::Inherit, decoration }
    }
}

impl vstd::std_specs::convert::FromSpecImpl<Decoration> for Foreground {
    open spec fn obeys_from_spec() -> bool {
        true
    }

    open spec fn from_spec(decoration: Decoration) -> Foreground {
        Foreground { color: Color::Inherit, decoration }
    }
}

/// A full style: foreground (color and decoration) and background color.
#[derive(Debug, PartialEq, Eq, Structural, Clone, Copy)]
pub struct Style {
    /// The foreground.
    pub fg: Foreground,
    /// The background color.
    pub bg: Color,
}

impl Default for Style {
    /// The default style inherits everything and renders as nothing.
    fn default() -> (r: Self)
        ensures
            r == (Style {
                fg: Foreground { color: Color::Inherit, decoration: Decoration::Inherit },
                bg: Color::Inherit,
            }),
    {
        Style {
            fg: Foreground { color: Color::Inherit, decoration: Decoration::Inherit },
            bg: Color::Inherit,
        }
    }
}

impl Style {
    /// Replaces the background color.
    pub fn bg(self, color: Color) -> (r: Style)
        ensures
            r == (Style { bg: color, ..self }),
    {
        Style { bg: color, ..self }
    }

    /// Replaces the foreground.
    pub fn fg(self, style: Foreground) -> (r: Style)
        ensures
            r == (Style { fg: style, ..self }),
    {
        Style { fg: style, ..self }
    }

    /// The sequences selecting this style: foreground first, then
    /// background. The default style renders as the empty sequence.
    pub open spec fn code_seq(self) -> Seq<char> {
        self.fg.code_seq() + self.bg.bg_code_seq()
    }

    /// Renders the style's escape sequences.
    pub fn render(&self) -> (r: String)
        ensures
            r@ == self.code_seq(),
    {
        let mut s = self.fg.color.write_fg();
        let d = self.fg.decoration.render();
        s.append(d.as_str());
        let b = self.bg.write_bg();
        s.append(b.as_str());
        s
    }
}

/// A piece of text wrapped in a style: rendering yields the style's
/// sequences, the text, and a reset.
pub open spec fn styled_seq(style: Style, s: Seq<char>) -> Seq<char> {
    style.code_seq() + s + reset_seq()
}

/// Renders `text` under `style`, closing with a reset of all attributes.
pub fn render_styled(style: &Style, text: &str) -> (r: String)
    ensures
        r@ == styled_seq(*style, text@),
{
    let mut s = style.render();
    s.append(text);
    let reset = reset_escape();
    s.append(reset.as_str());
    s
}

/// A string together with the style it is rendered under.
#[derive(Debug, Clone)]
pub struct StyledString {
    /// The bare text.
    pub string: String,
    /// The style it renders under.
    pub style: Style,
}

impl StyledString {
    /// Wraps `string` in `style`.
    pub fn new(style: Style, string: String) -> (r: StyledString)
        ensures
            r.style == style,
            r.string@ == string@,
    {
        StyledString { string, style }
    }

    /// What rendering this fragment produces.
    pub open spec fn render_seq(self) -> Seq<char> {
        styled_seq(self.style, self.string@)
    }

    /// Renders the fragment: style, text, reset.
    pub fn render(&self) -> (r: String)
        ensures
            r@ == self.render_seq(),
    {
        render_styled(&self.style, self.string.as_str())
    }
}

} // verus!
