//! Themes: how semantic roles — question prefix, highlight, selection
//! marker, error, result — map to styled text.
//!
//! A theme is a pure value; its `print_*` methods render complete lines and
//! each contract states the produced character sequence exactly. The caller
//! writes the returned strings to its output.

use crate::escapes::{clear_line_escape, clear_line_seq, stripped_of, visible_width};
use crate::style::{render_styled, styled_seq, Color, Decoration, Foreground, Style};
use vstd::prelude::*;
use vstd::string::StringExecFns;

verus! {

/// The pair of markers a row can carry: the `active` form when the row has
/// the property, the `inactive` form when it does not.
#[derive(Clone, Debug, PartialEq)]
pub struct Indicator {
    /// Marker for a row that has the property.
    pub active: String,
    /// Marker for a row that does not.
    pub inactive: String,
}

/// `n` spaces.
pub open spec fn spaces(n: nat) -> Seq<char> {
    Seq::new(n, |i: int| ' ')
}

fn spaces_str(n: usize) -> (r: String)
    ensures
        r@ == spaces(n as nat),
{
    let mut s = String::new();
    let mut i: usize = 0;
    while i < n
        invariant
            i <= n,
            s@ == spaces(i as nat),
        decreases n - i,
    {
        s.push(' ');
        proof {
            assert(s@ =~= spaces((i + 1) as nat));
        }
        i = i + 1;
    }
    s
}

/// The style the question line's default-value hint is rendered in.
pub open spec fn hint_style() -> Style {
    Style {
        fg: Foreground { color: Color::LightBlue, decoration: Decoration::Inherit },
        bg: Color::Inherit,
    }
}

/// The style error lines are introduced with.
pub open spec fn error_mark_style() -> Style {
    Style {
        fg: Foreground { color: Color::Red, decoration: Decoration::Inherit },
        bg: Color::Inherit,
    }
}

/// A mapping from semantic roles to styles and markers. Stateless: every
/// `print_*` method is a pure function of the theme and its arguments.
#[derive(Clone, Debug, PartialEq)]
pub struct Theme {
    /// Text placed before every question, if any.
    pub prefix: Option<String>,
    /// Style of the prefix.
    pub prefix_style: Style,
    /// Text between a question and its answer.
    pub separator: String,
    /// Style of unremarkable text.
    pub default: Style,
    /// Style of the row under the cursor.
    pub highlight: Style,
    /// Style of selected rows.
    pub selected: Style,
    /// Style of a committed answer.
    pub result: Style,
    /// Markers for the row under the cursor.
    pub highlight_indicator: Indicator,
    /// Markers for selected rows.
    pub selected_indicator: Indicator,
}

impl Theme {
    /// What the prefix contributes to a rendered line.
    pub open spec fn prefix_block(self) -> Seq<char> {
        match self.prefix {
            Some(p) => styled_seq(self.prefix_style, p@),
            None => Seq::empty(),
        }
    }

    /// The question line: carriage return, erase-line, prefix, message, an
    /// optional default-value hint in brackets, and the separator.
    pub open spec fn question_seq(self, msg: Seq<char>, default: Option<Seq<char>>) -> Seq<char> {
        styled_seq(self.default, "\r"@) + styled_seq(self.default, clear_line_seq())
            + self.prefix_block() + styled_seq(self.default, msg) + (match default {
            Some(d) => styled_seq(hint_style(), "["@ + d + "]"@),
            None => Seq::empty(),
        }) + styled_seq(self.default, self.separator@)
    }

    /// The answered line: erase-line, carriage return, prefix, message,
    /// separator, and the committed answer in the result style, closed by a
    /// carriage return and line feed.
    pub open spec fn results_seq(self, msg: Seq<char>, ans: Seq<char>) -> Seq<char> {
        styled_seq(self.default, clear_line_seq()) + styled_seq(self.default, "\r"@)
            + self.prefix_block() + styled_seq(self.default, msg) + styled_seq(
            self.default,
            self.separator@,
        ) + styled_seq(self.result, ans) + "\r\n"@
    }

    /// One single-select row: erase-line, alignment spaces as wide as the
    /// prefix is visible, the highlight marker, a space, and the choice text,
    /// highlighted exactly when the cursor is on the row.
    pub open spec fn choice_seq(self, text: Seq<char>, highlighted: bool) -> Seq<char> {
        styled_seq(self.default, clear_line_seq()) + styled_seq(
            self.default,
            spaces(self.prefix_visible_len()),
        ) + (if highlighted {
            styled_seq(self.highlight, self.highlight_indicator.active@)
        } else {
            styled_seq(self.default, self.highlight_indicator.inactive@)
        }) + styled_seq(self.default, " "@) + (if highlighted {
            styled_seq(self.highlight, text)
        } else {
            styled_seq(self.default, text)
        })
    }

    /// One multi-select row: as [`Theme::choice_seq`], but with a second,
    /// independent marker for membership in the selection, and the selected
    /// style taking precedence over the highlight style for the text.
    pub open spec fn multiple_choice_seq(
        self,
        text: Seq<char>,
        highlighted: bool,
        selected: bool,
    ) -> Seq<char> {
        styled_seq(self.default, clear_line_seq()) + styled_seq(
            self.default,
            spaces(self.prefix_visible_len()),
        ) + (if highlighted {
            styled_seq(self.highlight, self.highlight_indicator.active@)
        } else {
            styled_seq(self.default, self.highlight_indicator.inactive@)
        }) + styled_seq(self.default, " "@) + (if selected {
            styled_seq(self.selected, self.selected_indicator.active@)
        } else {
            styled_seq(self.default, self.selected_indicator.inactive@)
        }) + styled_seq(self.default, " "@) + (if highlighted && !selected {
            styled_seq(self.highlight, text)
        } else if selected {
            styled_seq(self.selected, text)
        } else {
            styled_seq(self.default, text)
        })
    }

    /// The error line: erase-line, a red exclamation mark, a space, and the
    /// message.
    pub open spec fn error_seq(self, error: Seq<char>) -> Seq<char> {
        styled_seq(self.default, clear_line_seq()) + styled_seq(error_mark_style(), "!"@)
            + styled_seq(self.default, " "@) + styled_seq(self.default, error)
    }

    /// The visible width of the prefix: its length once styling is stripped.
    pub open spec fn prefix_visible_len(self) -> nat {
        match self.prefix {
            Some(p) => stripped_of(p@).len(),
            None => 0,
        }
    }

    /// The theme every prompt uses unless another is supplied.
    pub fn new() -> (r: Theme)
        ensures
            r.prefix is Some && r.prefix.unwrap()@ == "? "@,
            r.separator@ == " "@,
            r.prefix_style == (Style {
                fg: Foreground { color: Color::Green, decoration: Decoration::Inherit },
                bg: Color::Inherit,
            }),
            r.default == (Style {
                fg: Foreground { color: Color::Inherit, decoration: Decoration::Inherit },
                bg: Color::Inherit,
            }),
            r.result == (Style {
                fg: Foreground { color: Color::Cyan, decoration: Decoration::Inherit },
                bg: Color::Inherit,
            }),
            r.highlight == (Style {
                fg: Foreground { color: Color::Cyan, decoration: Decoration::Inherit },
                bg: Color::Inherit,
            }),
            r.selected == (Style {
                fg: Foreground { color: Color::Green, decoration: Decoration::Inherit },
                bg: Color::Inherit,
            }),
            r.highlight_indicator.active@ == "\u{276f}"@,
            r.highlight_indicator.inactive@ == " "@,
            r.selected_indicator.active@ == "\u{25c9}"@,
            r.selected_indicator.inactive@ == "\u{25ef}"@,
    {
        ThemeBuilder::default().build()
    }

    /// Starts a styled line using this theme.
    pub fn builder<'a>(&'a self) -> (r: LineBuilder<'a>)
        ensures
            r.theme == self,
            r@ == Seq::<(Style, Seq<char>)>::empty(),
    {
        LineBuilder::new(self)
    }

    /// Renders the question line and measures its visible width: the
    /// returned width counts the characters left once styling sequences are
    /// stripped, never the raw length.
    pub fn print_question(&self, msg: &str, default: Option<&str>) -> (r: (String, usize))
        ensures
            r.0@ == self.question_seq(
                msg@,
                match default {
                    Some(d) => Some(d@),
                    None => None,
                },
            ),
            r.1 == stripped_of(r.0@).len(),
    {
        let mut s = render_styled(&self.default, "\r");
        let cl = clear_line_escape();
        let piece = render_styled(&self.default, cl.as_str());
        s.append(piece.as_str());
        match &self.prefix {
            Some(p) => {
                let piece = render_styled(&self.prefix_style, p.as_str());
                s.append(piece.as_str());
            },
            None => {},
        }
        let piece = render_styled(&self.default, msg);
        s.append(piece.as_str());
        match default {
            Some(d) => {
                let mut hint = String::new();
                hint.append("[");
                hint.append(d);
                hint.append("]");
                let style = Style {
                    fg: Foreground { color: Color::LightBlue, decoration: Decoration::Inherit },
                    bg: Color::Inherit,
                };
                let piece = render_styled(&style, hint.as_str());
                s.append(piece.as_str());
            },
            None => {},
        }
        let piece = render_styled(&self.default, self.separator.as_str());
        s.append(piece.as_str());
        let w = visible_width(s.as_str());
        (s, w)
    }

    /// Renders the answered line shown once a prompt commits.
    pub fn print_results(&self, msg: &str, ans: &str) -> (r: String)
        ensures
            r@ == self.results_seq(msg@, ans@),
    {
        let cl = clear_line_escape();
        let mut s = render_styled(&self.default, cl.as_str());
        let piece = render_styled(&self.default, "\r");
        s.append(piece.as_str());
        match &self.prefix {
            Some(p) => {
                let piece = render_styled(&self.prefix_style, p.as_str());
                s.append(piece.as_str());
            },
            None => {},
        }
        let piece = render_styled(&self.default, msg);
        s.append(piece.as_str());
        let piece = render_styled(&self.default, self.separator.as_str());
        s.append(piece.as_str());
        let piece = render_styled(&self.result, ans);
        s.append(piece.as_str());
        s.append("\r\n");
        s
    }

    /// Renders one single-select row.
    pub fn print_choice(&self, text: &str, highlighted: bool) -> (r: String)
        ensures
            r@ == self.choice_seq(text@, highlighted),
    {
        let cl = clear_line_escape();
        let mut s = render_styled(&self.default, cl.as_str());
        let pad = match &self.prefix {
            Some(p) => visible_width(p.as_str()),
            None => 0,
        };
        let sp = spaces_str(pad);
        let piece = render_styled(&self.default, sp.as_str());
        s.append(piece.as_str());
        let piece = if highlighted {
            render_styled(&self.highlight, self.highlight_indicator.active.as_str())
        } else {
            render_styled(&self.default, self.highlight_indicator.inactive.as_str())
        };
        s.append(piece.as_str());
        let piece = render_styled(&self.default, " ");
        s.append(piece.as_str());
        let piece = if highlighted {
            render_styled(&self.highlight, text)
        } else {
            render_styled(&self.default, text)
        };
        s.append(piece.as_str());
        s
    }

    /// Renders one multi-select row, marking highlight and selection
    /// independently.
    pub fn print_multiple_choice(&self, text: &str, highlighted: bool, selected: bool) -> (r:
        String)
        ensures
            r@ == self.multiple_choice_seq(text@, highlighted, selected),
    {
        let cl = clear_line_escape();
        let mut s = render_styled(&self.default, cl.as_str());
        let pad = match &self.prefix {
            Some(p) => visible_width(p.as_str()),
            None => 0,
        };
        let sp = spaces_str(pad);
        let piece = render_styled(&self.default, sp.as_str());
        s.append(piece.as_str());
        let piece = if highlighted {
            render_styled(&self.highlight, self.highlight_indicator.active.as_str())
        } else {
            render_styled(&self.default, self.highlight_indicator.inactive.as_str())
        };
        s.append(piece.as_str());
        let piece = render_styled(&self.default, " ");
        s.append(piece.as_str());
        let piece = if selected {
            render_styled(&self.selected, self.selected_indicator.active.as_str())
        } else {
            render_styled(&self.default, self.selected_indicator.inactive.as_str())
        };
        s.append(piece.as_str());
        let piece = render_styled(&self.default, " ");
        s.append(piece.as_str());
        let piece = if highlighted && !selected {
            render_styled(&self.highlight, text)
        } else if selected {
            render_styled(&self.selected, text)
        } else {
            render_styled(&self.default, text)
        };
        s.append(piece.as_str());
        s
    }

    /// Renders the error line shown under a prompt.
    pub fn print_error(&self, error: &str) -> (r: String)
        ensures
            r@ == self.error_seq(error@),
    {
        let cl = clear_line_escape();
        let mut s = render_styled(&self.default, cl.as_str());
        let style = Style {
            fg: Foreground { color: Color::Red, decoration: Decoration::Inherit },
            bg: Color::Inherit,
        };
        let piece = render_styled(&style, "!");
        s.append(piece.as_str());
        let piece = render_styled(&self.default, " ");
        s.append(piece.as_str());
        let piece = render_styled(&self.default, error);
        s.append(piece.as_str());
        s
    }
}

impl Default for Theme {
    /// The same theme [`Theme::new`] builds.
    fn default() -> (r: Self)
        ensures
            r.prefix is Some && r.prefix.unwrap()@ == "? "@,
            r.separator@ == " "@,
            r.prefix_style == (Style {
                fg: Foreground { color: Color::Green, decoration: Decoration::Inherit },
                bg: Color::Inherit,
            }),
            r.default == (Style {
                fg: Foreground { color: Color::Inherit, decoration: Decoration::Inherit },
                bg: Color::Inherit,
            }),
            r.result == (Style {
                fg: Foreground { color: Color::Cyan, decoration: Decoration::Inherit },
                bg: Color::Inherit,
            }),
            r.highlight == (Style {
                fg: Foreground { color: Color::Cyan, decoration: Decoration::Inherit },
                bg: Color::Inherit,
            }),
            r.selected == (Style {
                fg: Foreground { color: Color::Green, decoration: Decoration::Inherit },
                bg: Color::Inherit,
            }),
            r.highlight_indicator.active@ == "\u{276f}"@,
            r.highlight_indicator.inactive@ == " "@,
            r.selected_indicator.active@ == "\u{25c9}"@,
            r.selected_indicator.inactive@ == "\u{25ef}"@,
    {
        Theme::new()
    }
}

/// Collects the choices made before [`ThemeBuilder::build`] fills in the
/// defaults.
#[derive(Clone, PartialEq)]
pub struct ThemeBuilder {
    /// Question prefix; `None` leaves the default.
    pub prefix: Option<String>,
    /// Separator; `None` leaves the default.
    pub separator: Option<String>,
    /// Style of the prefix.
    pub prefix_style: Style,
    /// Style of unremarkable text.
    pub default: Style,
    /// Style of the row under the cursor.
    pub highlight: Style,
    /// Style of selected rows.
    pub selected: Style,
    /// Style of a committed answer.
    pub result: Style,
    /// Markers for the row under the cursor; `None` leaves the default.
    pub highlight_indicator: Option<Indicator>,
    /// Markers for selected rows; `None` leaves the default.
    pub selected_indicator: Option<Indicator>,
}

impl Default for ThemeBuilder {
    /// A builder with every choice left open and the stock styles.
    fn default() -> (r: Self)
        ensures
            r.prefix is None,
            r.separator is None,
            r.prefix_style == (Style {
                fg: Foreground { color: Color::Green, decoration: Decoration::Inherit },
                bg: Color::Inherit,
            }),
            r.default == (Style {
                fg: Foreground { color: Color::Inherit, decoration: Decoration::Inherit },
                bg: Color::Inherit,
            }),
            r.result == (Style {
                fg: Foreground { color: Color::Cyan, decoration: Decoration::Inherit },
                bg: Color::Inherit,
            }),
            r.highlight == (Style {
                fg: Foreground { color: Color::Cyan, decoration: Decoration::Inherit },
                bg: Color::Inherit,
            }),
            r.selected == (Style {
                fg: Foreground { color: Color::Green, decoration: Decoration::Inherit },
                bg: Color::Inherit,
            }),
            r.highlight_indicator is None,
            r.selected_indicator is None,
    {
        Self {
            prefix: None,
            separator: None,
            prefix_style: Style {
                fg: Foreground { color: Color::Green, decoration: Decoration::Inherit },
                bg: Color::Inherit,
            },
            default: Style {
                fg: Foreground { color: Color::Inherit, decoration: Decoration::Inherit },
                bg: Color::Inherit,
            },
            result: Style {
                fg: Foreground { color: Color::Cyan, decoration: Decoration::Inherit },
                bg: Color::Inherit,
            },
            highlight: Style {
                fg: Foreground { color: Color::Cyan, decoration: Decoration::Inherit },
                bg: Color::Inherit,
            },
            selected: Style {
                fg: Foreground { color: Color::Green, decoration: Decoration::Inherit },
                bg: Color::Inherit,
            },
            highlight_indicator: None,
            selected_indicator: None,
        }
    }
}

impl ThemeBuilder {
    /// Sets the question prefix.
    pub fn prefix(self, prefix: &str) -> (r: Self)
        ensures
            r.prefix is Some && r.prefix.unwrap()@ == prefix@,
            r.separator == self.separator,
            r.prefix_style == self.prefix_style,
            r.default == self.default,
            r.highlight == self.highlight,
            r.selected == self.selected,
            r.result == self.result,
            r.highlight_indicator == self.highlight_indicator,
            r.selected_indicator == self.selected_indicator,
    {
        Self { prefix: Some(prefix.to_owned()), ..self }
    }

    /// Sets the separator between question and answer.
    pub fn separator(self, sep: &str) -> (r: Self)
        ensures
            r.separator is Some && r.separator.unwrap()@ == sep@,
            r.prefix == self.prefix,
            r.prefix_style == self.prefix_style,
            r.default == self.default,
            r.highlight == self.highlight,
            r.selected == self.selected,
            r.result == self.result,
            r.highlight_indicator == self.highlight_indicator,
            r.selected_indicator == self.selected_indicator,
    {
        Self { separator: Some(sep.to_owned()), ..self }
    }

    /// Sets the prefix style.
    pub fn prefix_style(self, prefix: Style) -> (r: Self)
        ensures
            r == (ThemeBuilder { prefix_style: prefix, ..self }),
    {
        Self { prefix_style: prefix, ..self }
    }

    /// Sets the style of unremarkable text.
    pub fn base(self, default: Style) -> (r: Self)
        ensures
            r == (ThemeBuilder { default, ..self }),
    {
        Self { default, ..self }
    }

    /// Sets the style of the row under the cursor.
    pub fn highlight(self, style: Style) -> (r: Self)
        ensures
            r == (ThemeBuilder { highlight: style, ..self }),
    {
        Self { highlight: style, ..self }
    }

    /// Sets the style of selected rows.
    pub fn selected(self, style: Style) -> (r: Self)
        ensures
            r == (ThemeBuilder { selected: style, ..self }),
    {
        Self { selected: style, ..self }
    }

    /// Sets the style of committed answers.
    pub fn result(self, style: Style) -> (r: Self)
        ensures
            r == (ThemeBuilder { result: style, ..self }),
    {
        Self { result: style, ..self }
    }

    /// Sets the markers for the row under the cursor.
    pub fn highlight_indicator(self, indicator: Indicator) -> (r: Self)
        ensures
            r.highlight_indicator is Some && r.highlight_indicator.unwrap() == indicator,
            r.prefix == self.prefix,
            r.separator == self.separator,
            r.prefix_style == self.prefix_style,
            r.default == self.default,
            r.highlight == self.highlight,
            r.selected == self.selected,
            r.result == self.result,
            r.selected_indicator == self.selected_indicator,
    {
        Self { highlight_indicator: Some(indicator), ..self }
    }

    /// Sets the markers for selected rows.
    pub fn selected_indicator(self, indicator: Indicator) -> (r: Self)
        ensures
            r.selected_indicator is Some && r.selected_indicator.unwrap() == indicator,
            r.prefix == self.prefix,
            r.separator == self.separator,
            r.prefix_style == self.prefix_style,
            r.default == self.default,
            r.highlight == self.highlight,
            r.selected == self.selected,
            r.result == self.result,
            r.highlight_indicator == self.highlight_indicator,
    {
        Self { selected_indicator: Some(indicator), ..self }
    }

    /// Fills in the stock prefix, separator and markers where no choice was
    /// made and produces the theme.
    pub fn build(self) -> (r: Theme)
        ensures
            r.prefix is Some && r.prefix.unwrap()@ == (if self.prefix is Some {
                self.prefix.unwrap()@
            } else {
                "? "@
            }),
            r.separator@ == (if self.separator is Some {
                self.separator.unwrap()@
            } else {
                " "@
            }),
            r.prefix_style == self.prefix_style,
            r.default == self.default,
            r.highlight == self.highlight,
            r.selected == self.selected,
            r.result == self.result,
            self.highlight_indicator is Some ==> r.highlight_indicator
                == self.highlight_indicator.unwrap(),
            self.highlight_indicator is None ==> r.highlight_indicator.active@ == "\u{276f}"@
                && r.highlight_indicator.inactive@ == " "@,
            self.selected_indicator is Some ==> r.selected_indicator
                == self.selected_indicator.unwrap(),
            self.selected_indicator is None ==> r.selected_indicator.active@ == "\u{25c9}"@
                && r.selected_indicator.inactive@ == "\u{25ef}"@,
    {
        let prefix = match self.prefix {
            Some(p) => p,
            None => "? ".to_owned(),
        };
        let separator = match self.separator {
            Some(s) => s,
            None => " ".to_owned(),
        };
        let highlight_indicator = match self.highlight_indicator {
            Some(i) => i,
            None => Indicator { active: "\u{276f}".to_owned(), inactive: " ".to_owned() },
        };
        let selected_indicator = match self.selected_indicator {
            Some(i) => i,
            None => Indicator { active: "\u{25c9}".to_owned(), inactive: "\u{25ef}".to_owned() },
        };
        Theme {
            prefix: Some(prefix),
            prefix_style: self.prefix_style,
            separator,
            default: self.default,
            highlight: self.highlight,
            selected: self.selected,
            result: self.result,
            highlight_indicator,
            selected_indicator,
        }
    }
}

/// What `print_lines`-style rendering of a built line produces: each
/// fragment's text under its style, concatenated.
pub open spec fn line_seq(items: Seq<(Style, Seq<char>)>) -> Seq<char>
    decreases items.len(),
{
    if items.len() == 0 {
        Seq::empty()
    } else {
        line_seq(items.drop_last()) + styled_seq(items.last().0, items.last().1)
    }
}

/// Accumulates styled fragments and renders them as one line.
pub struct LineBuilder<'a> {
    /// The theme the fragments draw their styles from.
    pub theme: &'a Theme,
    /// The fragments accumulated so far.
    pub writer: Vec<crate::style::StyledString>,
}

impl<'a> View for LineBuilder<'a> {
    type V = Seq<(Style, Seq<char>)>;

    open spec fn view(&self) -> Seq<(Style, Seq<char>)> {
        self.writer@.map_values(|ss: crate::style::StyledString| (ss.style, ss.string@))
    }
}

impl<'a> LineBuilder<'a> {
    /// An empty line over `theme`.
    pub fn new(theme: &'a Theme) -> (r: LineBuilder<'a>)
        ensures
            r.theme == theme,
            r@ == Seq::<(Style, Seq<char>)>::empty(),
    {
        let r = LineBuilder { theme, writer: Vec::new() };
        proof {
            assert(r@ =~= Seq::<(Style, Seq<char>)>::empty());
        }
        r
    }

    /// Appends the selection marker for `on`, styled as selected text when
    /// set.
    pub fn selected_indicator(self, on: bool) -> (r: Self)
        ensures
            r.theme == self.theme,
            r@ == self@.push(
                if on {
                    (self.theme.selected, self.theme.selected_indicator.active@)
                } else {
                    (self.theme.default, self.theme.selected_indicator.inactive@)
                },
            ),
    {
        let style = if on {
            self.theme.selected
        } else {
            self.theme.default
        };
        let text = if on {
            self.theme.selected_indicator.active.clone()
        } else {
            self.theme.selected_indicator.inactive.clone()
        };
        self.push_fragment(style, text)
    }

    /// Appends the highlight marker for `on`, styled as highlighted text
    /// when set.
    pub fn highlight_indicator(self, on: bool) -> (r: Self)
        ensures
            r.theme == self.theme,
            r@ == self@.push(
                if on {
                    (self.theme.highlight, self.theme.highlight_indicator.active@)
                } else {
                    (self.theme.default, self.theme.highlight_indicator.inactive@)
                },
            ),
    {
        let style = if on {
            self.theme.highlight
        } else {
            self.theme.default
        };
        let text = if on {
            self.theme.highlight_indicator.active.clone()
        } else {
            self.theme.highlight_indicator.inactive.clone()
        };
        self.push_fragment(style, text)
    }

    /// Appends `msg` in the highlight style.
    pub fn highlight(self, msg: &str) -> (r: Self)
        ensures
            r.theme == self.theme,
            r@ == self@.push((self.theme.highlight, msg@)),
    {
        let style = self.theme.highlight;
        self.push_fragment(style, msg.to_owned())
    }

    /// Appends `msg` in the result style.
    pub fn result(self, msg: &str) -> (r: Self)
        ensures
            r.theme == self.theme,
            r@ == self@.push((self.theme.result, msg@)),
    {
        let style = self.theme.result;
        self.push_fragment(style, msg.to_owned())
    }

    /// Appends `msg` in the default style.
    pub fn plain(self, msg: &str) -> (r: Self)
        ensures
            r.theme == self.theme,
            r@ == self@.push((self.theme.default, msg@)),
    {
        let style = self.theme.default;
        self.push_fragment(style, msg.to_owned())
    }

    /// Appends `msg` under an explicit style.
    pub fn styled(self, style: Style, msg: &str) -> (r: Self)
        ensures
            r.theme == self.theme,
            r@ == self@.push((style, msg@)),
    {
        self.push_fragment(style, msg.to_owned())
    }

    /// Appends the theme's prefix in its style, if the theme has one.
    pub fn prefix(self) -> (r: Self)
        ensures
            r.theme == self.theme,
            r@ == (match self.theme.prefix {
                Some(p) => self@.push((self.theme.prefix_style, p@)),
                None => self@,
            }),
    {
        match &self.theme.prefix {
            Some(p) => {
                let text = p.clone();
                let style = self.theme.prefix_style;
                self.push_fragment(style, text)
            },
            None => self,
        }
    }

    fn push_fragment(self, style: Style, text: String) -> (r: Self)
        ensures
            r.theme == self.theme,
            r@ == self@.push((style, text@)),
    {
        let LineBuilder { theme, mut writer } = self;
        writer.push(crate::style::StyledString { string: text, style });
        let r = LineBuilder { theme, writer };
        proof {
            assert(r@ =~= self@.push((style, text@)));
        }
        r
    }

    /// Renders the accumulated fragments: each one's style, text, and a
    /// reset, in order.
    pub fn render(&self) -> (r: String)
        ensures
            r@ == line_seq(self@),
    {
        let mut s = String::new();
        let mut i: usize = 0;
        while i < self.writer.len()
            invariant
                i <= self.writer@.len(),
                s@ == line_seq(self@.subrange(0, i as int)),
            decreases self.writer@.len() - i,
        {
            let piece = self.writer[i].render();
            s.append(piece.as_str());
            proof {
                let pref = self@.subrange(0, i as int);
                let next = self@.subrange(0, i + 1 as int);
                assert(next.drop_last() =~= pref);
                assert(next.last() == self@[i as int]);
            }
            i = i + 1;
        }
        proof {
            assert(self@.subrange(0, self@.len() as int) =~= self@);
        }
        s
    }
}

} // verus!
