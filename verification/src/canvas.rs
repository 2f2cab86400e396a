//! A cursor-tracking canvas.
//!
//! The canvas owns a buffer of pending terminal bytes and a minimal cursor
//! model: the anchor position where the prompt region begins, how many rows
//! are rendered, and where the cursor stands relative to the anchor. Every
//! operation appends exactly the control sequences its contract states and
//! keeps the model in step with them; the caller drains the buffer with
//! [`Canvas::flush`] and writes it to the real terminal.
//!
//! Column accounting always uses the visible width of a line — its length
//! once styling sequences are stripped — never its raw encoded length.

use crate::error::Error;
use crate::escapes::{
    clear_after_escape, clear_after_seq, clear_line_escape, clear_line_seq, goto_escape, goto_seq,
    left_escape, left_seq, right_escape, right_seq, stripped_of, up_escape, up_seq, visible_width,
};
use vstd::prelude::*;
use vstd::string::StringExecFns;

verus! {

/// The mathematical state of a [`Canvas`]: the pending output bytes and the
/// cursor model.
pub ghost struct CanvasView {
    /// Characters emitted and not yet drained by `flush`.
    pub out: Seq<char>,
    /// Terminal rows currently occupied by the rendered region.
    pub lines: u16,
    /// Cursor row relative to the anchor, one-based: row 1 is the anchor row.
    pub line: u16,
    /// Cursor column within the current row, zero-based.
    pub col: u16,
    /// Absolute terminal position of the anchor, one-based, fixed at
    /// construction.
    pub pos: (u16, u16),
}

/// The state a canvas has right after construction: nothing rendered and the
/// cursor at the anchor. `new` establishes it and `clear` restores it.
pub open spec fn initial_state(pos: (u16, u16), out: Seq<char>) -> CanvasView {
    CanvasView { out, lines: 0, line: 1, col: 0, pos }
}

/// The erase-and-rewrite block `print_lines` emits for one line: erase to the
/// end of the region, the line itself, a cursor move back to column zero, and
/// a line feed.
pub open spec fn line_block(l: Seq<char>, back: u16) -> Seq<char> {
    clear_after_seq() + l + left_seq(back) + seq!['\n']
}

/// The blocks `print_lines` emits for a whole list of lines: the first line
/// moves back over the column the cursor started at, the others start at
/// column zero.
pub open spec fn lines_block(ls: Seq<Seq<char>>, col0: u16) -> Seq<char>
    decreases ls.len(),
{
    if ls.len() == 0 {
        Seq::empty()
    } else {
        lines_block(ls.drop_last(), col0) + line_block(
            ls.last(),
            ((stripped_of(ls.last()).len() + if ls.len() == 1 {
                col0 as int
            } else {
                0int
            }) as u16),
        )
    }
}

/// Whether every line's visible width, plus the starting column for the
/// first, fits the cursor model's column range.
pub open spec fn lines_fit(ls: Seq<Seq<char>>, col0: u16) -> bool {
    forall|i: int|
        0 <= i < ls.len() ==> stripped_of(ls[i]).len() + (if i == 0 {
            col0 as int
        } else {
            0int
        }) <= u16::MAX
}

/// The erase-one-row-and-step-up block `clear` emits once per rendered line.
pub open spec fn clear_block(n: nat) -> Seq<char>
    decreases n,
{
    if n == 0 {
        Seq::empty()
    } else {
        clear_block((n - 1) as nat) + clear_line_seq() + up_seq(1)
    }
}

/// A prompt's rendering region: an anchor on the terminal, a count of
/// rendered rows, a cursor position relative to the anchor, and the buffered
/// bytes that realize them.
pub struct Canvas {
    out: String,
    lines: u16,
    line: u16,
    col: u16,
    pos: (u16, u16),
}

impl View for Canvas {
    type V = CanvasView;

    closed spec fn view(&self) -> CanvasView {
        CanvasView {
            out: self.out@,
            lines: self.lines,
            line: self.line,
            col: self.col,
            pos: self.pos,
        }
    }
}

impl Canvas {
    #[verifier::type_invariant]
    spec fn wf(self) -> bool {
        &&& 1 <= self.line <= self.lines + 1
        &&& self.pos.0 >= 1
        &&& self.pos.1 >= 1
        &&& self.pos.1 + self.lines <= u16::MAX
    }

    /// Appends already-rendered characters to the pending output.
    fn emit(&mut self, s: &str)
        ensures
            final(self)@ == (CanvasView { out: old(self)@.out + s@, ..old(self)@ }),
    {
        proof {
            use_type_invariant(&*self);
        }
        let mut o = self.out.clone();
        o.append(s);
        self.out = o;
    }

    /// Creates a canvas anchored at the given one-based terminal position and
    /// queues a cursor move to it.
    pub fn new(pos: (u16, u16)) -> (c: Canvas)
        requires
            pos.0 >= 1,
            pos.1 >= 1,
        ensures
            c@ == initial_state(pos, goto_seq(pos.0, pos.1)),
    {
        let out = goto_escape(pos.0, pos.1);
        Canvas { out, lines: 0, line: 1, col: 0, pos }
    }

    /// Erases from the cursor to the end of the region and writes `text`,
    /// advancing the column by the visible (style-stripped) width of `text`,
    /// not by its raw length. Fails, leaving the canvas unchanged, only when
    /// the advanced column would not fit the cursor model.
    pub fn print(&mut self, text: &str) -> (r: Result<(), Error>)
        ensures
            ({
                let visible = stripped_of(text@).len();
                if old(self)@.col + visible <= u16::MAX {
                    &&& r is Ok
                    &&& final(self)@ == (CanvasView {
                        out: old(self)@.out + clear_after_seq() + text@,
                        col: (old(self)@.col + visible) as u16,
                        ..old(self)@
                    })
                } else {
                    &&& r == Err::<(), Error>(Error::Format)
                    &&& final(self)@ == old(self)@
                }
            }),
    {
        proof {
            use_type_invariant(&*self);
        }
        let w = visible_width(text);
        if w > (u16::MAX - self.col) as usize {
            return Err(Error::Format);
        }
        let erase = clear_after_escape();
        self.emit(erase.as_str());
        self.emit(text);
        self.col = self.col + w as u16;
        Ok(())
    }

    /// Like [`Canvas::print`], but finishes the row: after the text it queues
    /// a cursor move back over the text's visible width and a line feed, adds
    /// one rendered line, moves the cursor one row down and resets the column
    /// to zero. Fails, leaving the canvas unchanged, when the text's visible
    /// width or the grown region would not fit the cursor model.
    pub fn println(&mut self, line: &str) -> (r: Result<(), Error>)
        ensures
            ({
                let visible = stripped_of(line@).len();
                if visible <= u16::MAX && old(self)@.pos.1 + old(self)@.lines + 1 <= u16::MAX {
                    &&& r is Ok
                    &&& final(self)@ == (CanvasView {
                        out: old(self)@.out + clear_after_seq() + line@ + left_seq(
                            visible as u16,
                        ) + seq!['\n'],
                        lines: (old(self)@.lines + 1) as u16,
                        line: (old(self)@.line + 1) as u16,
                        col: 0u16,
                        ..old(self)@
                    })
                } else {
                    &&& r == Err::<(), Error>(Error::Format)
                    &&& final(self)@ == old(self)@
                }
            }),
    {
        proof {
            use_type_invariant(&*self);
        }
        let w = visible_width(line);
        if w > u16::MAX as usize {
            return Err(Error::Format);
        }
        if self.pos.1 as usize + self.lines as usize + 1 > u16::MAX as usize {
            return Err(Error::Format);
        }
        let erase = clear_after_escape();
        self.emit(erase.as_str());
        self.emit(line);
        let back = left_escape(w as u16);
        self.emit(back.as_str());
        self.emit("\n");
        proof {
            reveal_strlit("\n");
            assert("\n"@ =~= seq!['\n']);
        }
        self.lines = self.lines + 1;
        self.line = self.line + 1;
        self.col = 0;
        Ok(())
    }

    /// Writes each line in turn, erasing the remainder of the region first
    /// and terminating each with a cursor move back to column zero and a line
    /// feed; grows the rendered region and moves the cursor down by the
    /// count, resetting the column to zero. Fails, leaving the canvas
    /// unchanged, when a visible width or the grown region would not fit the
    /// cursor model.
    pub fn print_lines(&mut self, lines: &Vec<String>) -> (r: Result<(), Error>)
        ensures
            ({
                let ls = lines@.map_values(|s: String| s@);
                let n = lines@.len();
                if lines_fit(ls, old(self)@.col) && old(self)@.pos.1 + old(self)@.lines + n
                    <= u16::MAX {
                    &&& r is Ok
                    &&& final(self)@ == (CanvasView {
                        out: old(self)@.out + lines_block(ls, old(self)@.col),
                        lines: (old(self)@.lines + n) as u16,
                        line: (old(self)@.line + n) as u16,
                        col: if n == 0 {
                            old(self)@.col
                        } else {
                            0u16
                        },
                        ..old(self)@
                    })
                } else {
                    &&& r == Err::<(), Error>(Error::Format)
                    &&& final(self)@ == old(self)@
                }
            }),
    {
        proof {
            use_type_invariant(&*self);
        }
        let ghost ls = lines@.map_values(|s: String| s@);
        let n = lines.len();
        if n > u16::MAX as usize {
            proof {
                assert(old(self)@.pos.1 + old(self)@.lines + n > u16::MAX);
            }
            return Err(Error::Format);
        }
        if self.pos.1 as usize + self.lines as usize + n > u16::MAX as usize {
            return Err(Error::Format);
        }
        let mut widths: Vec<usize> = Vec::new();
        let mut i: usize = 0;
        while i < n
            invariant
                i <= n,
                n == lines@.len(),
                widths@.len() == i,
                ls == lines@.map_values(|s: String| s@),
                forall|j: int| 0 <= j < i ==> widths@[j] == stripped_of(ls[j]).len(),
            decreases n - i,
        {
            let w = visible_width(lines[i].as_str());
            widths.push(w);
            i = i + 1;
        }
        i = 0;
        while i < n
            invariant
                i <= n,
                n == lines@.len(),
                widths@.len() == n,
                ls == lines@.map_values(|s: String| s@),
                forall|j: int| 0 <= j < n ==> widths@[j] == stripped_of(ls[j]).len(),
                forall|j: int|
                    0 <= j < i ==> stripped_of(ls[j]).len() + (if j == 0 {
                        self@.col as int
                    } else {
                        0int
                    }) <= u16::MAX,
                self@ == old(self)@,
            decreases n - i,
        {
            let limit: usize = if i == 0 {
                (u16::MAX - self.col) as usize
            } else {
                u16::MAX as usize
            };
            if widths[i] > limit {
                return Err(Error::Format);
            }
            i = i + 1;
        }
        assert(lines_fit(ls, self@.col));
        i = 0;
        while i < n
            invariant
                i <= n,
                n == lines@.len(),
                n <= u16::MAX,
                widths@.len() == n,
                ls == lines@.map_values(|s: String| s@),
                forall|j: int| 0 <= j < n ==> widths@[j] == stripped_of(ls[j]).len(),
                lines_fit(ls, old(self)@.col),
                self@.lines == old(self)@.lines,
                self@.line == old(self)@.line,
                self@.pos == old(self)@.pos,
                self@.col == if i == 0 {
                    old(self)@.col
                } else {
                    0u16
                },
                self@.out == old(self)@.out + lines_block(ls.subrange(0, i as int), old(self)@.col),
            decreases n - i,
        {
            let erase = clear_after_escape();
            self.emit(erase.as_str());
            self.emit(lines[i].as_str());
            let back_amount = widths[i] as u16 + self.col;
            let back = left_escape(back_amount);
            self.emit(back.as_str());
            self.emit("\n");
            proof {
                use_type_invariant(&*self);
                reveal_strlit("\n");
                assert("\n"@ =~= seq!['\n']);
                let pref = ls.subrange(0, i as int);
                let next = ls.subrange(0, i + 1 as int);
                assert(next.drop_last() =~= pref);
                assert(next.last() == ls[i as int]);
                assert(self@.out =~= old(self)@.out + lines_block(next, old(self)@.col));
            }
            self.col = 0;
            i = i + 1;
        }
        proof {
            use_type_invariant(&*self);
            assert(ls.subrange(0, n as int) =~= ls);
        }
        self.lines = self.lines + n as u16;
        self.line = self.line + n as u16;
        Ok(())
    }

    /// Moves the cursor `a` columns to the left. A move past column zero is a
    /// no-op: the cursor never leaves the region on the left.
    pub fn move_left(&mut self, a: u16)
        ensures
            final(self)@ == if a <= old(self)@.col {
                (CanvasView {
                    out: old(self)@.out + left_seq(a),
                    col: (old(self)@.col - a) as u16,
                    ..old(self)@
                })
            } else {
                old(self)@
            },
    {
        proof {
            use_type_invariant(&*self);
        }
        if self.col < a {
            return ;
        }
        let s = left_escape(a);
        self.emit(s.as_str());
        self.col = self.col - a;
    }

    /// Moves the cursor `a` columns to the right. Fails, leaving the canvas
    /// unchanged, when the new column would not fit the cursor model.
    pub fn move_right(&mut self, a: u16) -> (r: Result<(), Error>)
        ensures
            if old(self)@.col + a <= u16::MAX {
                &&& r is Ok
                &&& final(self)@ == (CanvasView {
                    out: old(self)@.out + right_seq(a),
                    col: (old(self)@.col + a) as u16,
                    ..old(self)@
                })
            } else {
                &&& r == Err::<(), Error>(Error::Format)
                &&& final(self)@ == old(self)@
            },
    {
        proof {
            use_type_invariant(&*self);
        }
        if a > u16::MAX - self.col {
            return Err(Error::Format);
        }
        let s = right_escape(a);
        self.emit(s.as_str());
        self.col = self.col + a;
        Ok(())
    }

    /// Moves the cursor `c` rows up. A move above the anchor row is a no-op.
    pub fn move_up(&mut self, c: u16)
        ensures
            final(self)@ == if c < old(self)@.line {
                (CanvasView {
                    out: old(self)@.out + up_seq(c),
                    line: (old(self)@.line - c) as u16,
                    ..old(self)@
                })
            } else {
                old(self)@
            },
    {
        proof {
            use_type_invariant(&*self);
        }
        if c >= self.line {
            return ;
        }
        let s = up_escape(c);
        self.emit(s.as_str());
        self.line = self.line - c;
    }

    /// Moves the cursor to the bottom of the rendered region, erases each
    /// rendered line from the bottom up, and restores the just-constructed
    /// state: nothing rendered, cursor at the anchor.
    pub fn clear(&mut self)
        ensures
            final(self)@ == initial_state(
                old(self)@.pos,
                old(self)@.out + goto_seq(
                    old(self)@.pos.0,
                    (old(self)@.pos.1 + old(self)@.lines) as u16,
                ) + clear_block(old(self)@.lines as nat),
            ),
    {
        proof {
            use_type_invariant(&*self);
        }
        let s = goto_escape(self.pos.0, self.pos.1 + self.lines);
        self.emit(s.as_str());
        let n = self.lines;
        let mut i: u16 = 0;
        while i < n
            invariant
                i <= n,
                self@ == (CanvasView {
                    out: old(self)@.out + goto_seq(
                        old(self)@.pos.0,
                        (old(self)@.pos.1 + old(self)@.lines) as u16,
                    ) + clear_block(i as nat),
                    ..old(self)@
                }),
            decreases n - i,
        {
            let e = clear_line_escape();
            self.emit(e.as_str());
            let u = up_escape(1);
            self.emit(u.as_str());
            proof {
                use_type_invariant(&*self);
                assert(self@.out =~= old(self)@.out + goto_seq(
                    old(self)@.pos.0,
                    (old(self)@.pos.1 + old(self)@.lines) as u16,
                ) + clear_block((i + 1) as nat));
            }
            i = i + 1;
        }
        proof {
            use_type_invariant(&*self);
        }
        self.line = 1;
        self.lines = 0;
        self.col = 0;
    }

    /// Moves the cursor to column `col` of the current row — absolutely, from
    /// the anchor — and erases from there to the end of the region; the model
    /// column becomes `col`. Editors use it to repaint the part of a line
    /// after a fixed prefix. Fails, leaving the canvas unchanged, when the
    /// target column would not fit the terminal's coordinate space.
    pub fn clear_from(&mut self, col: u16) -> (r: Result<(), Error>)
        ensures
            if old(self)@.pos.0 + col <= u16::MAX {
                &&& r is Ok
                &&& final(self)@ == (CanvasView {
                    out: old(self)@.out + goto_seq(
                        (old(self)@.pos.0 + col) as u16,
                        (old(self)@.pos.1 + old(self)@.line - 1) as u16,
                    ) + clear_after_seq(),
                    col: col,
                    ..old(self)@
                })
            } else {
                &&& r == Err::<(), Error>(Error::Format)
                &&& final(self)@ == old(self)@
            },
    {
        proof {
            use_type_invariant(&*self);
        }
        if col > u16::MAX - self.pos.0 {
            return Err(Error::Format);
        }
        let s = goto_escape(self.pos.0 + col, self.pos.1 - 1 + self.line);
        self.emit(s.as_str());
        let e = clear_after_escape();
        self.emit(e.as_str());
        self.col = col;
        Ok(())
    }

    /// Drains the pending output for the caller to write to the terminal.
    /// The cursor model is untouched.
    pub fn flush(&mut self) -> (r: String)
        ensures
            r@ == old(self)@.out,
            final(self)@ == (CanvasView { out: Seq::<char>::empty(), ..old(self)@ }),
    {
        proof {
            use_type_invariant(&*self);
        }
        let r = self.out.clone();
        self.out = String::new();
        r
    }

    /// The anchor's absolute terminal position.
    pub fn pos(&self) -> (r: (u16, u16))
        ensures
            r == self@.pos,
    {
        self.pos
    }

    /// The cursor's column, zero-based.
    pub fn col(&self) -> (r: u16)
        ensures
            r == self@.col,
    {
        self.col
    }

    /// The number of terminal rows the rendered region occupies.
    pub fn lines_rendered(&self) -> (r: u16)
        ensures
            r == self@.lines,
    {
        self.lines
    }

    /// The cursor's row relative to the anchor, one-based.
    pub fn cursor_row(&self) -> (r: u16)
        ensures
            r == self@.line,
    {
        self.line
    }
}

/// For every sequence of canvas operations, the cursor model after `clear`
/// is exactly the model right after construction: both contracts pin the
/// state to `initial_state`, whose cursor model does not depend on what was
/// rendered before.
pub proof fn lemma_clear_restores_initial(cleared: CanvasView, constructed: CanvasView)
    requires
        cleared == initial_state(cleared.pos, cleared.out),
        constructed == initial_state(constructed.pos, constructed.out),
    ensures
        cleared.lines == constructed.lines,
        cleared.line == constructed.line,
        cleared.col == constructed.col,
{
}

} // verus!
