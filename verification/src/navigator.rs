//! The paginated cursor over an immutable list of choices.
//!
//! The visible window holds `rows = min(page_size, len)` choices beginning
//! at `offset`; `cursor` addresses a row of that window. Movement never
//! wraps: up at the very first choice and down at the very last are no-ops,
//! and in every reachable state the cursor stays inside the window and the
//! window inside the list.

use crate::events::KeyEvent;
use vstd::prelude::*;

verus! {

/// The mathematical state of a [`Navigator`].
pub ghost struct NavigatorView {
    /// How many choices there are.
    pub len: int,
    /// The size of the visible window: `min(page_size, len)`.
    pub rows: int,
    /// The highlighted row, as an index into the visible window.
    pub cursor: int,
    /// The index of the first visible choice.
    pub offset: int,
}

/// One Up transition: move within the page, or scroll the window up one
/// choice when already at its top row; at the very first choice, do
/// nothing.
pub open spec fn nav_up(v: NavigatorView) -> NavigatorView {
    if v.cursor > 0 {
        NavigatorView { cursor: v.cursor - 1, ..v }
    } else if v.offset > 0 {
        NavigatorView { offset: v.offset - 1, ..v }
    } else {
        v
    }
}

/// One Down transition, symmetric to [`nav_up`].
pub open spec fn nav_down(v: NavigatorView) -> NavigatorView {
    if v.cursor < v.rows - 1 {
        NavigatorView { cursor: v.cursor + 1, ..v }
    } else if v.offset + v.rows < v.len {
        NavigatorView { offset: v.offset + 1, ..v }
    } else {
        v
    }
}

/// What one key did to a single-select navigator.
#[derive(Debug, PartialEq, Eq, Structural, Clone, Copy)]
pub enum NavStep {
    /// The cursor may have moved; the prompt keeps running.
    Continue,
    /// Enter: commit the choice at this absolute index.
    Commit(usize),
    /// Ctrl-C: abandon the prompt.
    Abort,
}

/// A paginated cursor over `len` choices with a window of `rows` of them
/// visible.
pub struct Navigator {
    len: usize,
    rows: usize,
    cursor: usize,
    offset: usize,
}

impl View for Navigator {
    type V = NavigatorView;

    closed spec fn view(&self) -> NavigatorView {
        NavigatorView {
            len: self.len as int,
            rows: self.rows as int,
            cursor: self.cursor as int,
            offset: self.offset as int,
        }
    }
}

impl Navigator {
    #[verifier::type_invariant]
    spec fn wf(self) -> bool {
        &&& 1 <= self.rows <= self.len
        &&& self.cursor < self.rows
        &&& self.offset + self.rows <= self.len
    }

    /// A navigator over `len` choices paged by `page_size`, starting at the
    /// first choice.
    pub fn new(len: usize, page_size: usize) -> (r: Navigator)
        requires
            len >= 1,
            page_size >= 1,
        ensures
            r@ == (NavigatorView {
                len: len as int,
                rows: if page_size < len {
                    page_size as int
                } else {
                    len as int
                },
                cursor: 0,
                offset: 0,
            }),
            nav_invariant(r@),
    {
        let rows = if page_size < len {
            page_size
        } else {
            len
        };
        Navigator { len, rows, cursor: 0, offset: 0 }
    }

    /// Moves the highlight one choice up, scrolling when needed; a no-op at
    /// the very first choice.
    pub fn key_up(&mut self)
        ensures
            final(self)@ == nav_up(old(self)@),
            nav_invariant(final(self)@),
        no_unwind
    {
        proof {
            use_type_invariant(&*self);
        }
        if self.cursor > 0 {
            self.cursor = self.cursor - 1;
        } else if self.offset > 0 {
            self.offset = self.offset - 1;
        }
        proof {
            use_type_invariant(&*self);
        }
    }

    /// Moves the highlight one choice down, scrolling when needed; a no-op
    /// at the very last choice.
    pub fn key_down(&mut self)
        ensures
            final(self)@ == nav_down(old(self)@),
            nav_invariant(final(self)@),
        no_unwind
    {
        proof {
            use_type_invariant(&*self);
        }
        if self.cursor < self.rows - 1 {
            self.cursor = self.cursor + 1;
        } else if self.offset < self.len - self.rows {
            self.offset = self.offset + 1;
        }
        proof {
            use_type_invariant(&*self);
        }
    }

    /// The absolute index of the highlighted choice; always within the
    /// list.
    pub fn selected_index(&self) -> (r: usize)
        ensures
            r == self@.offset + self@.cursor,
            r < self@.len,
    {
        proof {
            use_type_invariant(&*self);
        }
        self.offset + self.cursor
    }

    /// Consumes one key event: arrows move the highlight, Enter commits the
    /// highlighted choice, Ctrl-C aborts, and every other key does nothing.
    pub fn handle_key(&mut self, key: KeyEvent) -> (r: NavStep)
        ensures
            (key == KeyEvent::Up ==> r == NavStep::Continue && final(self)@ == nav_up(old(self)@)),
            (key == KeyEvent::Down ==> r == NavStep::Continue && final(self)@ == nav_down(
                old(self)@,
            )),
            (key == KeyEvent::Enter ==> r == NavStep::Commit(
                (old(self)@.offset + old(self)@.cursor) as usize,
            ) && final(self)@ == old(self)@),
            (key == KeyEvent::Ctrl('c') ==> r == NavStep::Abort && final(self)@ == old(self)@),
            (!(key == KeyEvent::Up || key == KeyEvent::Down || key == KeyEvent::Enter || key
                == KeyEvent::Ctrl('c')) ==> r == NavStep::Continue && final(self)@ == old(self)@),
            nav_invariant(final(self)@),
    {
        proof {
            use_type_invariant(&*self);
        }
        match key {
            KeyEvent::Up => {
                self.key_up();
                NavStep::Continue
            },
            KeyEvent::Down => {
                self.key_down();
                NavStep::Continue
            },
            KeyEvent::Enter => NavStep::Commit(self.selected_index()),
            KeyEvent::Ctrl(c) => {
                if c == 'c' {
                    NavStep::Abort
                } else {
                    NavStep::Continue
                }
            },
            _ => NavStep::Continue,
        }
    }

    /// How many choices the navigator ranges over.
    pub fn len(&self) -> (r: usize)
        ensures
            r == self@.len,
    {
        self.len
    }

    /// The size of the visible window.
    pub fn rows(&self) -> (r: usize)
        ensures
            r == self@.rows,
    {
        self.rows
    }

    /// The highlighted row within the visible window.
    pub fn cursor(&self) -> (r: usize)
        ensures
            r == self@.cursor,
    {
        self.cursor
    }

    /// The index of the first visible choice.
    pub fn offset(&self) -> (r: usize)
        ensures
            r == self@.offset,
    {
        self.offset
    }
}

/// The navigator's stated invariant: the highlight inside the visible
/// window, the window inside the list. [`Navigator::new`] establishes it
/// and every transition re-ensures it, so it holds in every reachable
/// state.
pub open spec fn nav_invariant(v: NavigatorView) -> bool {
    &&& 0 <= v.cursor < v.rows
    &&& 0 <= v.offset <= v.len - v.rows
    &&& 1 <= v.rows <= v.len
}

} // verus!
