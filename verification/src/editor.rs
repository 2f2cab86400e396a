//! The caret-addressable line editor and its canvas choreography.
//!
//! [`LineEdit`] is the pure buffer-and-caret state machine; [`Input2`] wraps
//! it with rendering configuration (echo suppression, masking, a style) and
//! drives a [`Canvas`] so that after every redraw the terminal cursor stands
//! exactly at the caret's column.

use crate::canvas::{Canvas, CanvasView};
use crate::error::Error;
use crate::escapes::{
    clear_after_seq, goto_seq, left_seq, right_seq, stripped_of, visible_width,
};
use crate::events::KeyEvent;
use crate::style::{styled_seq, Color, Decoration, Foreground, Style};
use crate::util::{editable_char, is_editable};
use vstd::prelude::*;
use vstd::string::StringExecFns;

verus! {

/// The mathematical state of a [`LineEdit`]: the buffer's characters and the
/// caret's position within them.
pub ghost struct LineEditView {
    /// The characters typed so far.
    pub buffer: Seq<char>,
    /// The insertion point: `0 <= caret <= buffer.len()`.
    pub caret: int,
}

/// A text buffer with an insertion caret.
pub struct LineEdit {
    buffer: Vec<char>,
    caret: usize,
}

impl View for LineEdit {
    type V = LineEditView;

    closed spec fn view(&self) -> LineEditView {
        LineEditView { buffer: self.buffer@, caret: self.caret as int }
    }
}

impl LineEdit {
    #[verifier::type_invariant]
    spec fn wf(self) -> bool {
        self.caret <= self.buffer@.len()
    }

    /// An empty buffer with the caret at the start.
    pub fn new() -> (r: LineEdit)
        ensures
            r@.buffer == Seq::<char>::empty(),
            r@.caret == 0,
    {
        let r = LineEdit { buffer: Vec::new(), caret: 0 };
        proof {
            assert(r@.buffer =~= Seq::<char>::empty());
        }
        r
    }

    /// Inserts `c` at the caret and advances the caret past it.
    pub fn insert(&mut self, c: char)
        ensures
            final(self)@.buffer == old(self)@.buffer.insert(old(self)@.caret, c),
            final(self)@.caret == old(self)@.caret + 1,
    {
        proof {
            use_type_invariant(&*self);
        }
        let idx = self.caret;
        self.caret = 0;
        let mut buffer: Vec<char> = Vec::new();
        core::mem::swap(&mut buffer, &mut self.buffer);
        buffer.insert(idx, c);
        core::mem::swap(&mut buffer, &mut self.buffer);
        let n = self.buffer.len();
        self.caret = idx + 1;
    }

    /// Removes the character immediately before the caret and moves the
    /// caret back over it; at the start of the buffer this is a no-op.
    pub fn backspace(&mut self)
        ensures
            final(self)@ == if old(self)@.caret > 0 {
                (LineEditView {
                    buffer: old(self)@.buffer.remove(old(self)@.caret - 1),
                    caret: old(self)@.caret - 1,
                })
            } else {
                old(self)@
            },
    {
        proof {
            use_type_invariant(&*self);
        }
        if self.caret == 0 {
            return ;
        }
        let idx = self.caret - 1;
        self.caret = 0;
        let mut buffer: Vec<char> = Vec::new();
        core::mem::swap(&mut buffer, &mut self.buffer);
        buffer.remove(idx);
        core::mem::swap(&mut buffer, &mut self.buffer);
        self.caret = idx;
    }

    /// Moves the caret one character to the left, clamped at the start.
    pub fn caret_left(&mut self)
        ensures
            final(self)@.buffer == old(self)@.buffer,
            final(self)@.caret == if old(self)@.caret > 0 {
                old(self)@.caret - 1
            } else {
                0int
            },
    {
        proof {
            use_type_invariant(&*self);
        }
        if self.caret > 0 {
            self.caret = self.caret - 1;
        }
    }

    /// Moves the caret one character to the right, clamped at the end of the
    /// buffer.
    pub fn caret_right(&mut self)
        ensures
            final(self)@.buffer == old(self)@.buffer,
            final(self)@.caret == if old(self)@.caret < old(self)@.buffer.len() {
                old(self)@.caret + 1
            } else {
                old(self)@.caret
            },
    {
        proof {
            use_type_invariant(&*self);
        }
        if self.caret < self.buffer.len() {
            self.caret = self.caret + 1;
        }
    }

    /// The caret's position.
    pub fn caret(&self) -> (r: usize)
        ensures
            r == self@.caret,
    {
        self.caret
    }

    /// The number of characters in the buffer.
    pub fn len(&self) -> (r: usize)
        ensures
            r == self@.buffer.len(),
    {
        self.buffer.len()
    }

    /// The buffer's text.
    pub fn text(&self) -> (r: String)
        ensures
            r@ == self@.buffer,
    {
        let mut s = String::new();
        let mut i: usize = 0;
        while i < self.buffer.len()
            invariant
                i <= self.buffer@.len(),
                s@ == self.buffer@.subrange(0, i as int),
            decreases self.buffer@.len() - i,
        {
            s.push(self.buffer[i]);
            proof {
                assert(s@ =~= self.buffer@.subrange(0, i + 1 as int));
            }
            i = i + 1;
        }
        proof {
            assert(self.buffer@.subrange(0, self.buffer@.len() as int) =~= self.buffer@);
        }
        s
    }
}

/// Inserting a character at the caret and then deleting at the same position
/// restores the original buffer: insert and delete are mutual inverses at a
/// position.
pub proof fn lemma_insert_delete_inverse(buffer: Seq<char>, i: int, c: char)
    requires
        0 <= i <= buffer.len(),
    ensures
        buffer.insert(i, c).remove(i) == buffer,
{
    assert(buffer.insert(i, c).remove(i) =~= buffer);
}

/// What one key did to the editor.
#[derive(Debug, PartialEq, Eq, Structural, Clone, Copy)]
pub enum EditStep {
    /// The buffer changed and, when echoing, the line was redrawn.
    Edited,
    /// Only the caret moved.
    Moved,
    /// Enter: the caller takes the buffer as the committed value.
    Committed,
    /// Ctrl-C: the caller abandons the prompt.
    Aborted,
    /// The key did nothing.
    Ignored,
}

/// `s` repeated `n` times.
pub open spec fn repeat_seq(s: Seq<char>, n: nat) -> Seq<char>
    decreases n,
{
    if n == 0 {
        Seq::empty()
    } else {
        repeat_seq(s, (n - 1) as nat) + s
    }
}

/// An interactive line reader: a line editor plus how its buffer is shown —
/// echoed plainly, masked one token per character, or not at all.
pub struct Input2 {
    /// Whether the buffer is echoed at all when no mask is set.
    pub echo: bool,
    /// When present, each buffer character is rendered as this token instead
    /// of its real value.
    pub mask: Option<String>,
    /// The style the (masked or plain) text is rendered under.
    pub style: Style,
}

impl Input2 {
    /// An editor configuration; `mask` takes precedence over `echo`.
    pub fn new(echo: bool, mask: Option<&str>) -> (r: Input2)
        ensures
            r.echo == echo,
            r.mask is Some <==> mask is Some,
            mask is Some ==> r.mask.unwrap()@ == mask.unwrap()@,
            r.style == (Style {
                fg: Foreground { color: Color::Inherit, decoration: Decoration::Inherit },
                bg: Color::Inherit,
            }),
    {
        let m = match mask {
            Some(s) => Some(s.to_owned()),
            None => None,
        };
        Input2 { echo, mask: m, style: Style::default() }
    }

    /// Whether edits repaint anything at all.
    pub open spec fn echoes(self) -> bool {
        self.mask is Some || self.echo
    }

    /// The characters shown for a buffer: the mask token repeated once per
    /// character when masking, the buffer itself otherwise.
    pub open spec fn display_text(self, buffer: Seq<char>) -> Seq<char> {
        match self.mask {
            Some(m) => repeat_seq(m@, buffer.len()),
            None => buffer,
        }
    }

    /// The full styled text a redraw prints.
    pub open spec fn rendered(self, buffer: Seq<char>) -> Seq<char> {
        styled_seq(self.style, self.display_text(buffer))
    }

    /// Whether a redraw of `buffer` with the cursor restored to `caret` fits
    /// the cursor model: the repaint column, the printed width, and the
    /// caret's target column all stay within range.
    pub open spec fn redraw_ok(
        self,
        cv: CanvasView,
        start_col: u16,
        buffer: Seq<char>,
        caret: int,
    ) -> bool {
        &&& cv.pos.0 + start_col <= u16::MAX
        &&& start_col + stripped_of(self.rendered(buffer)).len() <= u16::MAX
        &&& start_col + caret <= u16::MAX
    }

    /// The bytes a successful redraw appends: reposition to the start
    /// column, erase, print the styled text, and move the cursor from the
    /// end of the text back (or forward) to the caret's column.
    pub open spec fn redraw_out(
        self,
        cv: CanvasView,
        start_col: u16,
        buffer: Seq<char>,
        caret: int,
    ) -> Seq<char> {
        let rendered = self.rendered(buffer);
        let col_after = start_col + stripped_of(rendered).len();
        let target = start_col + caret;
        cv.out + goto_seq((cv.pos.0 + start_col) as u16, (cv.pos.1 + cv.line - 1) as u16)
            + clear_after_seq() + clear_after_seq() + rendered + (if col_after > target {
            left_seq((col_after - target) as u16)
        } else if col_after < target {
            right_seq((target - col_after) as u16)
        } else {
            Seq::empty()
        })
    }

    /// The characters shown for the current buffer.
    fn display_string(&self, state: &LineEdit) -> (r: String)
        ensures
            r@ == self.display_text(state@.buffer),
    {
        match &self.mask {
            Some(m) => {
                let mut s = String::new();
                let n = state.len();
                let mut i: usize = 0;
                while i < n
                    invariant
                        i <= n,
                        n == state@.buffer.len(),
                        s@ == repeat_seq(m@, i as nat),
                    decreases n - i,
                {
                    s.append(m.as_str());
                    i = i + 1;
                }
                s
            },
            None => state.text(),
        }
    }

    /// Consumes one key event, updating the editor and repainting the line
    /// on the canvas.
    ///
    /// When echoing, the caller keeps the terminal cursor in step with the
    /// caret: on entry the canvas column is the start column plus the caret,
    /// and on every successful return it is again. Printable characters are
    /// inserted at the caret; control characters and out-of-range code
    /// points are ignored, never inserted. A failed redraw (`Format`) leaves
    /// the canvas untouched, though the buffer edit itself stands.
    pub fn handle_key(
        &self,
        state: &mut LineEdit,
        canvas: &mut Canvas,
        start_col: u16,
        key: KeyEvent,
    ) -> (r: Result<EditStep, Error>)
        requires
            self.echoes() ==> old(canvas)@.col == start_col + old(state)@.caret,
        ensures
            (key == KeyEvent::Enter ==> {
                &&& r == Ok::<EditStep, Error>(EditStep::Committed)
                &&& final(state)@ == old(state)@
                &&& final(canvas)@ == old(canvas)@
            }),
            (key == KeyEvent::Ctrl('c') ==> {
                &&& r == Ok::<EditStep, Error>(EditStep::Aborted)
                &&& final(state)@ == old(state)@
                &&& final(canvas)@ == old(canvas)@
            }),
            ((key matches KeyEvent::Ctrl(c) && c != 'c') || key == KeyEvent::Esc || key
                == KeyEvent::Up || key == KeyEvent::Down ==> {
                &&& r == Ok::<EditStep, Error>(EditStep::Ignored)
                &&& final(state)@ == old(state)@
                &&& final(canvas)@ == old(canvas)@
            }),
            (key == KeyEvent::Left ==> {
                &&& r == Ok::<EditStep, Error>(EditStep::Moved)
                &&& final(state)@.buffer == old(state)@.buffer
                &&& final(state)@.caret == (if old(state)@.caret > 0 {
                    old(state)@.caret - 1
                } else {
                    0int
                })
                &&& final(canvas)@ == (if old(state)@.caret > 0 && self.echoes() {
                    (CanvasView {
                        out: old(canvas)@.out + left_seq(1),
                        col: (old(canvas)@.col - 1) as u16,
                        ..old(canvas)@
                    })
                } else {
                    old(canvas)@
                })
            }),
            (key == KeyEvent::Right ==> {
                &&& final(state)@.buffer == old(state)@.buffer
                &&& (if old(state)@.caret < old(state)@.buffer.len() && self.echoes() && old(
                    canvas,
                )@.col == u16::MAX {
                    &&& r == Err::<EditStep, Error>(Error::Format)
                    &&& final(state)@ == old(state)@
                    &&& final(canvas)@ == old(canvas)@
                } else {
                    &&& r == Ok::<EditStep, Error>(EditStep::Moved)
                    &&& final(state)@.caret == (if old(state)@.caret < old(state)@.buffer.len() {
                        old(state)@.caret + 1
                    } else {
                        old(state)@.caret
                    })
                    &&& final(canvas)@ == (if old(state)@.caret < old(state)@.buffer.len()
                        && self.echoes() {
                        (CanvasView {
                            out: old(canvas)@.out + right_seq(1),
                            col: (old(canvas)@.col + 1) as u16,
                            ..old(canvas)@
                        })
                    } else {
                        old(canvas)@
                    })
                })
            }),
            (key == KeyEvent::Backspace && old(state)@.caret == 0 ==> {
                &&& r == Ok::<EditStep, Error>(EditStep::Ignored)
                &&& final(state)@ == old(state)@
                &&& final(canvas)@ == old(canvas)@
            }),
            (key == KeyEvent::Backspace && old(state)@.caret > 0 ==> {
                &&& final(state)@.buffer == old(state)@.buffer.remove(old(state)@.caret - 1)
                &&& final(state)@.caret == old(state)@.caret - 1
                &&& self.edited_outcome(r, old(canvas)@, final(canvas)@, start_col, final(state)@)
            }),
            (key matches KeyEvent::Char(c) ==> (if !editable_char(c) {
                &&& r == Ok::<EditStep, Error>(EditStep::Ignored)
                &&& final(state)@ == old(state)@
                &&& final(canvas)@ == old(canvas)@
            } else {
                &&& final(state)@.buffer == old(state)@.buffer.insert(old(state)@.caret, c)
                &&& final(state)@.caret == old(state)@.caret + 1
                &&& self.edited_outcome(r, old(canvas)@, final(canvas)@, start_col, final(state)@)
            })),
    {
        match key {
            KeyEvent::Enter => Ok(EditStep::Committed),
            KeyEvent::Ctrl(c) => {
                if c == 'c' {
                    Ok(EditStep::Aborted)
                } else {
                    Ok(EditStep::Ignored)
                }
            },
            KeyEvent::Esc | KeyEvent::Up | KeyEvent::Down => Ok(EditStep::Ignored),
            KeyEvent::Left => {
                let moved = state.caret() > 0;
                state.caret_left();
                if moved && self.echoes_exec() {
                    canvas.move_left(1);
                }
                Ok(EditStep::Moved)
            },
            KeyEvent::Right => {
                if state.caret() < state.len() {
                    if self.echoes_exec() {
                        match canvas.move_right(1) {
                            Ok(()) => {},
                            Err(e) => {
                                return Err(e);
                            },
                        }
                    }
                    state.caret_right();
                }
                Ok(EditStep::Moved)
            },
            KeyEvent::Backspace => {
                if state.caret() == 0 {
                    return Ok(EditStep::Ignored);
                }
                state.backspace();
                self.redraw(state, canvas, start_col)
            },
            KeyEvent::Char(c) => {
                if !is_editable(c) {
                    return Ok(EditStep::Ignored);
                }
                state.insert(c);
                self.redraw(state, canvas, start_col)
            },
        }
    }

    /// How a buffer edit relates the canvas before and after: when echoing
    /// and the redraw fits, the line was repainted and the cursor stands at
    /// the caret's column; when echoing and it does not fit, the canvas is
    /// untouched and the step failed; when not echoing, nothing is painted.
    pub open spec fn edited_outcome(
        self,
        r: Result<EditStep, Error>,
        before: CanvasView,
        after: CanvasView,
        start_col: u16,
        state: LineEditView,
    ) -> bool {
        if self.echoes() {
            if self.redraw_ok(before, start_col, state.buffer, state.caret) {
                &&& r == Ok::<EditStep, Error>(EditStep::Edited)
                &&& after == (CanvasView {
                    out: self.redraw_out(before, start_col, state.buffer, state.caret),
                    col: (start_col + state.caret) as u16,
                    ..before
                })
            } else {
                &&& r == Err::<EditStep, Error>(Error::Format)
                &&& after == before
            }
        } else {
            &&& r == Ok::<EditStep, Error>(EditStep::Edited)
            &&& after == before
        }
    }

    fn echoes_exec(&self) -> (r: bool)
        ensures
            r == self.echoes(),
    {
        match &self.mask {
            Some(_) => true,
            None => self.echo,
        }
    }

    /// Repaints the buffer from the start column and restores the cursor to
    /// the caret's column.
    fn redraw(&self, state: &LineEdit, canvas: &mut Canvas, start_col: u16) -> (r: Result<
        EditStep,
        Error,
    >)
        ensures
            self.echoes() ==> self.edited_outcome(
                r,
                old(canvas)@,
                final(canvas)@,
                start_col,
                state@,
            ),
            !self.echoes() ==> r == Ok::<EditStep, Error>(EditStep::Edited) && final(canvas)@
                == old(canvas)@,
    {
        if !self.echoes_exec() {
            return Ok(EditStep::Edited);
        }
        let display = self.display_string(state);
        let rendered = crate::style::render_styled(&self.style, display.as_str());
        let w = visible_width(rendered.as_str());
        let pos = canvas.pos();
        if pos.0 as usize + start_col as usize > u16::MAX as usize {
            return Err(Error::Format);
        }
        if w > u16::MAX as usize || start_col as usize + w > u16::MAX as usize {
            return Err(Error::Format);
        }
        let caret = state.caret();
        if caret > u16::MAX as usize || start_col as usize + caret > u16::MAX as usize {
            return Err(Error::Format);
        }
        let target_wide: usize = start_col as usize + caret;
        match canvas.clear_from(start_col) {
            Ok(()) => {},
            Err(e) => {
                return Err(e);
            },
        }
        match canvas.print(rendered.as_str()) {
            Ok(()) => {},
            Err(e) => {
                return Err(e);
            },
        }
        let cur = canvas.col();
        let target = target_wide as u16;
        if cur > target {
            canvas.move_left(cur - target);
        } else if cur < target {
            match canvas.move_right(target - cur) {
                Ok(()) => {},
                Err(e) => {
                    return Err(e);
                },
            }
        }
        proof {
            assert(canvas@.out =~= self.redraw_out(
                old(canvas)@,
                start_col,
                state@.buffer,
                state@.caret,
            ));
        }
        Ok(EditStep::Edited)
    }
}

} // verus!
