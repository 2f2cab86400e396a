//! Small shared helpers: character classification and decimal rendering.

use vstd::prelude::*;

verus! {

/// Relies on std's `String::push`: appends the given character to the end of
/// the string.
pub assume_specification[ String::push ](s: &mut String, ch: char)
    ensures
        final(s)@ == old(s)@.push(ch),
;

/// True for the characters that the line editors silently discard instead of
/// inserting into the buffer: a band of low control characters and the two
/// highest code points.
pub fn match_char(data: &char) -> (r: bool)
    ensures
        r == (1 <= *data as u32 <= 8 || 0x10FFFE <= *data as u32 <= 0x10FFFF),
{
    match *data {
        '\x01'..='\x08' | '\u{10FFFE}'..='\u{10FFFF}' => true,
        _ => false,
    }
}

/// Whether the line editors insert the character: control characters (the
/// C0 band, delete, and the C1 band) and the two highest code points are
/// ignored, never inserted.
pub open spec fn editable_char(c: char) -> bool {
    let u = c as u32;
    u >= 32 && u != 127 && (u < 128 || u >= 160) && u < 0x10FFFE
}

/// Decides [`editable_char`].
pub fn is_editable(c: char) -> (r: bool)
    ensures
        r == editable_char(c),
{
    let u = c as u32;
    u >= 32 && u != 127 && !(u >= 128 && u < 160) && u < 0x10FFFE
}

/// The character for the decimal digit `d`.
pub open spec fn digit_char(d: nat) -> char
    recommends
        d < 10,
{
    ((d + 48) as u8) as char
}

/// The decimal representation of `n`, most significant digit first, with no
/// leading zeros (a single `'0'` for zero).
pub open spec fn dec_seq(n: nat) -> Seq<char>
    decreases n,
{
    if n < 10 {
        seq![digit_char(n)]
    } else {
        dec_seq(n / 10).push(digit_char(n % 10))
    }
}

/// Renders `n` in decimal.
pub fn fmt_usize(n: usize) -> (r: String)
    ensures
        r@ == dec_seq(n as nat),
    decreases n,
{
    let mut s = if n >= 10 {
        fmt_usize(n / 10)
    } else {
        String::new()
    };
    let d: u8 = 48 + (n % 10) as u8;
    s.push(d as char);
    s
}

} // verus!
