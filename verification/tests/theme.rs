use termprompt::style::{Color, Decoration, Foreground, Style, StyledString};
use termprompt::theme::{Indicator, Theme, ThemeBuilder};

const RESET: &str = "\x1b[m";
const CLEAR_LINE: &str = "\x1b[2K";

// A fragment in the default (inheriting) style: the text and a reset.
fn plain(s: &str) -> String {
    format!("{}{}", s, RESET)
}

// A fragment under a single foreground palette color.
fn fg(n: u8, s: &str) -> String {
    format!("\x1b[38;5;{}m{}{}", n, s, RESET)
}

#[test]
fn style_renders_its_codes_in_order() {
    let style = Style::default().fg(Foreground::from(Color::Red).decoration(Decoration::Bold)).bg(
        Color::Blue,
    );
    assert_eq!(style.render(), "\x1b[38;5;1m\x1b[1m\x1b[48;5;4m");
}

#[test]
fn the_default_style_renders_as_nothing() {
    assert_eq!(Style::default().render(), "");
}

#[test]
fn each_decoration_has_its_own_code() {
    let cases = [
        (Decoration::Bold, "\x1b[1m"),
        (Decoration::Faint, "\x1b[2m"),
        (Decoration::Italic, "\x1b[3m"),
        (Decoration::Underline, "\x1b[4m"),
        (Decoration::Blink, "\x1b[5m"),
        (Decoration::Invert, "\x1b[7m"),
        (Decoration::CrossedOut, "\x1b[9m"),
    ];
    for (deco, code) in cases {
        let style = Style::default().fg(Foreground::from(deco));
        assert_eq!(style.render(), code);
    }
    let style = Style::default().fg(Foreground::from(Decoration::Inherit));
    assert_eq!(style.render(), "");
}

#[test]
fn light_colors_use_the_high_palette() {
    let style = Style::default().fg(Foreground::from(Color::LightBlue));
    assert_eq!(style.render(), "\x1b[38;5;12m");
    let style = Style::default().fg(Foreground::from(Color::LightWhite));
    assert_eq!(style.render(), "\x1b[38;5;15m");
}

#[test]
fn styled_string_closes_with_a_reset() {
    let ss = StyledString::new(
        Style::default().fg(Foreground::from(Color::Green)),
        String::from("ok"),
    );
    assert_eq!(ss.render(), "\x1b[38;5;2mok\x1b[m");
}

#[test]
fn question_line_and_visible_width() {
    let theme = Theme::new();
    let (line, width) = theme.print_question("Hi", None);
    let expected = format!(
        "{}{}{}{}{}",
        plain("\r"),
        plain(CLEAR_LINE),
        fg(2, "? "),
        plain("Hi"),
        plain(" "),
    );
    assert_eq!(line, expected);
    // "? Hi " once every styling sequence is stripped.
    assert_eq!(width, 5);
}

#[test]
fn question_line_shows_the_default_hint() {
    let theme = Theme::new();
    let (line, width) = theme.print_question("Name", Some("Rasmus"));
    assert!(line.contains(&fg(12, "[Rasmus]")));
    // "? Name[Rasmus] "
    assert_eq!(width, 15);
}

#[test]
fn results_line_ends_the_row() {
    let theme = Theme::new();
    let line = theme.print_results("Name", "Ada");
    let expected = format!(
        "{}{}{}{}{}{}\r\n",
        plain(CLEAR_LINE),
        plain("\r"),
        fg(2, "? "),
        plain("Name"),
        plain(" "),
        fg(6, "Ada"),
    );
    assert_eq!(line, expected);
}

#[test]
fn choice_rows_mark_the_highlight() {
    let theme = Theme::new();
    let picked = theme.print_choice("apple", true);
    let expected = format!(
        "{}{}{}{}{}",
        plain(CLEAR_LINE),
        plain("  "),
        fg(6, "\u{276f}"),
        plain(" "),
        fg(6, "apple"),
    );
    assert_eq!(picked, expected);
    let other = theme.print_choice("apple", false);
    let expected = format!(
        "{}{}{}{}{}",
        plain(CLEAR_LINE),
        plain("  "),
        plain(" "),
        plain(" "),
        plain("apple"),
    );
    assert_eq!(other, expected);
}

#[test]
fn multiple_choice_rows_carry_both_markers() {
    let theme = Theme::new();
    let line = theme.print_multiple_choice("pear", true, true);
    let expected = format!(
        "{}{}{}{}{}{}{}",
        plain(CLEAR_LINE),
        plain("  "),
        fg(6, "\u{276f}"),
        plain(" "),
        fg(2, "\u{25c9}"),
        plain(" "),
        fg(2, "pear"),
    );
    assert_eq!(line, expected);
    let line = theme.print_multiple_choice("pear", false, false);
    let expected = format!(
        "{}{}{}{}{}{}{}",
        plain(CLEAR_LINE),
        plain("  "),
        plain(" "),
        plain(" "),
        plain("\u{25ef}"),
        plain(" "),
        plain("pear"),
    );
    assert_eq!(line, expected);
}

#[test]
fn error_line_leads_with_a_red_mark() {
    let theme = Theme::new();
    let line = theme.print_error("boom");
    let expected = format!("{}{}{}{}", plain(CLEAR_LINE), fg(1, "!"), plain(" "), plain("boom"));
    assert_eq!(line, expected);
}

#[test]
fn builder_overrides_prefix_and_markers() {
    let theme = ThemeBuilder::default().prefix(">> ").separator(": ").highlight_indicator(
        Indicator { active: String::from("*"), inactive: String::from("-") },
    ).build();
    let (line, width) = theme.print_question("Q", None);
    assert!(line.contains(&fg(2, ">> ")));
    // ">> Q: "
    assert_eq!(width, 6);
    let row = theme.print_choice("x", true);
    assert!(row.contains(&fg(6, "*")));
    let row = theme.print_choice("x", false);
    assert!(row.contains(&plain("-")));
}

#[test]
fn a_styled_prefix_is_measured_by_its_visible_width() {
    // The prefix carries its own escape sequences; the alignment spaces
    // under it must count only the visible characters.
    let theme = ThemeBuilder::default().prefix("\x1b[1m=>\x1b[m ").build();
    let row = theme.print_choice("x", false);
    // Three visible prefix characters: "=> ".
    assert!(row.contains(&plain("   ")));
    let (_, width) = theme.print_question("Q", None);
    // "=> Q " once stripped.
    assert_eq!(width, 5);
}

#[test]
fn line_builder_renders_fragments_in_order() {
    let theme = Theme::new();
    let line = theme.builder().prefix().plain("ab").highlight("cd").result("e").render();
    let expected = format!("{}{}{}{}", fg(2, "? "), plain("ab"), fg(6, "cd"), fg(6, "e"));
    assert_eq!(line, expected);
}

#[test]
fn line_builder_indicators_follow_the_theme() {
    let theme = Theme::new();
    let line = theme.builder().highlight_indicator(true).selected_indicator(false).render();
    let expected = format!("{}{}", fg(6, "\u{276f}"), plain("\u{25ef}"));
    assert_eq!(line, expected);
}
