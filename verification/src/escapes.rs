//! The terminal control sequences the library emits, as mathematical
//! sequences of characters, together with the trusted bridge functions that
//! obtain the concrete bytes from the terminal-control crate and the visible
//! width of styled text from the escape-stripping crate.

use crate::util::dec_seq;
use vstd::prelude::*;

verus! {

/// The control sequence introducer that starts every escape sequence here.
pub open spec fn csi_seq() -> Seq<char> {
    seq!['\x1b', '[']
}

/// Absolute cursor positioning (one-based coordinates).
pub open spec fn goto_seq(x: u16, y: u16) -> Seq<char> {
    csi_seq() + dec_seq(y as nat) + seq![';'] + dec_seq(x as nat) + seq!['H']
}

/// Relative cursor move to the left.
pub open spec fn left_seq(n: u16) -> Seq<char> {
    csi_seq() + dec_seq(n as nat) + seq!['D']
}

/// Relative cursor move to the right.
pub open spec fn right_seq(n: u16) -> Seq<char> {
    csi_seq() + dec_seq(n as nat) + seq!['C']
}

/// Relative cursor move upwards.
pub open spec fn up_seq(n: u16) -> Seq<char> {
    csi_seq() + dec_seq(n as nat) + seq!['A']
}

/// Erase from the cursor to the end of the screen.
pub open spec fn clear_after_seq() -> Seq<char> {
    csi_seq() + seq!['J']
}

/// Erase the whole line under the cursor.
pub open spec fn clear_line_seq() -> Seq<char> {
    csi_seq() + seq!['2', 'K']
}

/// Make the cursor invisible.
pub open spec fn hide_seq() -> Seq<char> {
    csi_seq() + seq!['?', '2', '5', 'l']
}

/// Make the cursor visible again.
pub open spec fn show_seq() -> Seq<char> {
    csi_seq() + seq!['?', '2', '5', 'h']
}

/// Select the foreground color with the given palette index.
pub open spec fn fg_seq(n: u8) -> Seq<char> {
    csi_seq() + seq!['3', '8', ';', '5', ';'] + dec_seq(n as nat) + seq!['m']
}

/// Select the background color with the given palette index.
pub open spec fn bg_seq(n: u8) -> Seq<char> {
    csi_seq() + seq!['4', '8', ';', '5', ';'] + dec_seq(n as nat) + seq!['m']
}

/// Select a text attribute by its select-graphic-rendition code.
pub open spec fn sgr_seq(code: u8) -> Seq<char> {
    csi_seq() + dec_seq(code as nat) + seq!['m']
}

/// Reset all graphic attributes.
pub open spec fn reset_seq() -> Seq<char> {
    csi_seq() + seq!['m']
}

/// What the escape-stripping collaborator leaves of a piece of text once all
/// terminal control sequences are removed: the visible characters.
pub uninterp spec fn stripped_of(s: Seq<char>) -> Seq<char>;

/// Relies on `strip_ansi_escapes::strip_str`: removes ANSI escape sequences
/// and the control characters other than line feeds, keeping the visible
/// characters; the result is a function of the input alone and is never
/// longer than the input.
#[verifier::external_body]
pub(crate) fn strip_styles(s: &str) -> (r: String)
    ensures
        r@ == stripped_of(s@),
        r@.len() <= s@.len(),
{
    strip_ansi_escapes::strip_str(s)
}

/// The number of visible characters of `s`: its length once terminal control
/// sequences are stripped.
pub fn visible_width(s: &str) -> (w: usize)
    ensures
        w == stripped_of(s@).len(),
{
    let stripped = strip_styles(s);
    stripped.as_str().unicode_len()
}

/// Relies on `termion::cursor::Goto`: renders as `ESC [ y ; x H`. The
/// argument `(0, 0)` is excluded because the crate rejects it (the
/// coordinates are one-based).
#[verifier::external_body]
pub(crate) fn goto_escape(x: u16, y: u16) -> (r: String)
    requires
        x >= 1 || y >= 1,
    ensures
        r@ == goto_seq(x, y),
{
    format!("{}", termion::cursor::Goto(x, y))
}

/// Relies on `termion::cursor::Left`: renders as `ESC [ n D`.
#[verifier::external_body]
pub(crate) fn left_escape(n: u16) -> (r: String)
    ensures
        r@ == left_seq(n),
{
    format!("{}", termion::cursor::Left(n))
}

/// Relies on `termion::cursor::Right`: renders as `ESC [ n C`.
#[verifier::external_body]
pub(crate) fn right_escape(n: u16) -> (r: String)
    ensures
        r@ == right_seq(n),
{
    format!("{}", termion::cursor::Right(n))
}

/// Relies on `termion::cursor::Up`: renders as `ESC [ n A`.
#[verifier::external_body]
pub(crate) fn up_escape(n: u16) -> (r: String)
    ensures
        r@ == up_seq(n),
{
    format!("{}", termion::cursor::Up(n))
}

/// Relies on `termion::clear::AfterCursor`: renders as `ESC [ J`.
#[verifier::external_body]
pub(crate) fn clear_after_escape() -> (r: String)
    ensures
        r@ == clear_after_seq(),
{
    format!("{}", termion::clear::AfterCursor)
}

/// Relies on `termion::clear::CurrentLine`: renders as `ESC [ 2 K`.
#[verifier::external_body]
pub(crate) fn clear_line_escape() -> (r: String)
    ensures
        r@ == clear_line_seq(),
{
    format!("{}", termion::clear::CurrentLine)
}

/// Relies on `termion::cursor::Hide`: renders as `ESC [ ? 2 5 l`.
#[verifier::external_body]
pub(crate) fn hide_escape() -> (r: String)
    ensures
        r@ == hide_seq(),
{
    format!("{}", termion::cursor::Hide)
}

/// Relies on `termion::cursor::Show`: renders as `ESC [ ? 2 5 h`.
#[verifier::external_body]
pub(crate) fn show_escape() -> (r: String)
    ensures
        r@ == show_seq(),
{
    format!("{}", termion::cursor::Show)
}

/// Relies on `termion::color::Fg` over `termion::color::AnsiValue`: renders
/// as `ESC [ 3 8 ; 5 ; n m`, the same bytes the crate uses for its named
/// palette colors.
#[verifier::external_body]
pub(crate) fn fg_escape(n: u8) -> (r: String)
    ensures
        r@ == fg_seq(n),
{
    format!("{}", termion::color::Fg(termion::color::AnsiValue(n)))
}

/// Relies on `termion::color::Bg` over `termion::color::AnsiValue`: renders
/// as `ESC [ 4 8 ; 5 ; n m`.
#[verifier::external_body]
pub(crate) fn bg_escape(n: u8) -> (r: String)
    ensures
        r@ == bg_seq(n),
{
    format!("{}", termion::color::Bg(termion::color::AnsiValue(n)))
}

/// Relies on `termion::style::Reset`: renders as `ESC [ m`.
#[verifier::external_body]
pub(crate) fn reset_escape() -> (r: String)
    ensures
        r@ == reset_seq(),
{
    format!("{}", termion::style::Reset)
}

/// Relies on `termion::style::Bold`: renders as `ESC [ 1 m`.
#[verifier::external_body]
pub(crate) fn bold_escape() -> (r: String)
    ensures
        r@ == sgr_seq(1),
{
    format!("{}", termion::style::Bold)
}

/// Relies on `termion::style::Faint`: renders as `ESC [ 2 m`.
#[verifier::external_body]
pub(crate) fn faint_escape() -> (r: String)
    ensures
        r@ == sgr_seq(2),
{
    format!("{}", termion::style::Faint)
}

/// Relies on `termion::style::Italic`: renders as `ESC [ 3 m`.
#[verifier::external_body]
pub(crate) fn italic_escape() -> (r: String)
    ensures
        r@ == sgr_seq(3),
{
    format!("{}", termion::style::Italic)
}

/// Relies on `termion::style::Underline`: renders as `ESC [ 4 m`.
#[verifier::external_body]
pub(crate) fn underline_escape() -> (r: String)
    ensures
        r@ == sgr_seq(4),
{
    format!("{}", termion::style::Underline)
}

/// Relies on `termion::style::Blink`: renders as `ESC [ 5 m`.
#[verifier::external_body]
pub(crate) fn blink_escape() -> (r: String)
    ensures
        r@ == sgr_seq(5),
{
    format!("{}", termion::style::Blink)
}

/// Relies on `termion::style::Invert`: renders as `ESC [ 7 m`.
#[verifier::external_body]
pub(crate) fn invert_escape() -> (r: String)
    ensures
        r@ == sgr_seq(7),
{
    format!("{}", termion::style::Invert)
}

/// Relies on `termion::style::CrossedOut`: renders as `ESC [ 9 m`.
#[verifier::external_body]
pub(crate) fn crossed_out_escape() -> (r: String)
    ensures
        r@ == sgr_seq(9),
{
    format!("{}", termion::style::CrossedOut)
}

} // verus!
