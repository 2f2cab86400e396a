//! The single-select prompt: a question over an immutable list of choices,
//! driven by a [`Navigator`].
//!
//! The prompt's run loop belongs to the caller: it renders the intro once,
//! then alternates [`Select::render_frame`] with feeding one key to
//! [`Navigator::handle_key`] until that commits an index or aborts, and
//! closes with [`Select::render_finish`].

use crate::canvas::clear_block;
use crate::choice::Choice;
use crate::editor::repeat_seq;
use crate::escapes::{
    clear_line_escape, clear_line_seq, hide_escape, hide_seq, show_escape, show_seq, up_escape,
    up_seq,
};
use crate::navigator::{nav_invariant, Navigator, NavigatorView};
use crate::theme::Theme;
use vstd::prelude::*;
use vstd::string::StringExecFns;

verus! {

/// One rendered row of the visible window: down to a fresh line, erase it,
/// and the themed choice line, highlighted exactly on the cursor's row.
pub open spec fn row_seq<C: Choice>(
    th: Theme,
    choices: Seq<C>,
    offset: int,
    cursor: int,
    i: int,
) -> Seq<char> {
    "\n\r"@ + clear_line_seq() + th.choice_seq(choices[offset + i].text_spec(), cursor == i)
}

/// The first `k` rendered rows of the visible window.
pub open spec fn frame_rows_seq<C: Choice>(
    th: Theme,
    choices: Seq<C>,
    offset: int,
    cursor: int,
    k: int,
) -> Seq<char>
    decreases k,
{
    if k <= 0 {
        Seq::empty()
    } else {
        frame_rows_seq(th, choices, offset, cursor, k - 1) + row_seq(
            th,
            choices,
            offset,
            cursor,
            k - 1,
        )
    }
}

/// Collects the configuration of a single-select prompt.
pub struct SelectBuilder<C> {
    /// The question.
    pub msg: String,
    /// The immutable list of choices.
    pub choices: Vec<C>,
    /// How many choices are visible at once.
    pub page_size: usize,
    /// The theme, if one is supplied.
    pub theme: Option<Theme>,
}

impl<C> SelectBuilder<C> {
    /// A builder over `choices` with the stock page size of eight.
    pub fn new(msg: &str, choices: Vec<C>) -> (r: SelectBuilder<C>)
        ensures
            r.msg@ == msg@,
            r.choices == choices,
            r.page_size == 8usize,
            r.theme is None,
    {
        SelectBuilder { msg: msg.to_owned(), choices, page_size: 8, theme: None }
    }

    /// Sets how many choices are visible at once.
    pub fn page_size(self, size: usize) -> (r: SelectBuilder<C>)
        ensures
            r.msg == self.msg,
            r.choices == self.choices,
            r.page_size == size,
            r.theme == self.theme,
    {
        SelectBuilder { page_size: size, ..self }
    }

    /// Produces the prompt.
    pub fn build(self) -> (r: Select<C>)
        ensures
            r.msg == self.msg,
            r.choices == self.choices,
            r.page_size == self.page_size,
            r.theme == self.theme,
    {
        Select {
            msg: self.msg,
            choices: self.choices,
            page_size: self.page_size,
            theme: self.theme,
        }
    }
}

/// A single-select prompt: the user commits exactly one choice.
pub struct Select<C> {
    /// The question.
    pub msg: String,
    /// The immutable list of choices.
    pub choices: Vec<C>,
    /// How many choices are visible at once.
    pub page_size: usize,
    /// The theme, if one is supplied.
    pub theme: Option<Theme>,
}

impl<C> Select<C> {
    /// Starts configuring a single-select prompt.
    pub fn new(msg: &str, choices: Vec<C>) -> (r: SelectBuilder<C>)
        ensures
            r.msg@ == msg@,
            r.choices == choices,
            r.page_size == 8usize,
            r.theme is None,
    {
        SelectBuilder::new(msg, choices)
    }

    /// A fresh navigator over this prompt's choices.
    pub fn navigator(&self) -> (r: Navigator)
        requires
            self.choices@.len() >= 1,
            self.page_size >= 1,
        ensures
            r@.len == self.choices@.len(),
            r@.rows == (if self.page_size < self.choices@.len() {
                self.page_size as int
            } else {
                self.choices@.len() as int
            }),
            r@.cursor == 0,
            r@.offset == 0,
            nav_invariant(r@),
    {
        Navigator::new(self.choices.len(), self.page_size)
    }
}

impl<C: Choice> Select<C> {
    /// The opening block: the question line, a line feed, a hidden cursor,
    /// and one fresh line for each further row of the window.
    pub open spec fn intro_seq(self, th: Theme, rows: int) -> Seq<char> {
        th.question_seq(self.msg@, None) + "\n"@ + hide_seq() + repeat_seq(
            "\n"@,
            (rows - 1) as nat,
        )
    }

    /// One full repaint of the window: the cursor moves up over the window,
    /// then every visible row is redrawn in order, the cursor's row
    /// highlighted.
    pub open spec fn frame_seq(self, th: Theme, nav: NavigatorView) -> Seq<char> {
        up_seq(nav.rows as u16) + frame_rows_seq(th, self.choices@, nav.offset, nav.cursor, nav.rows)
    }

    /// The closing block: every window row and the question line are erased
    /// from the bottom up, the cursor is shown again on a fresh line, and
    /// the answered line names the committed choice.
    pub open spec fn finish_seq(self, th: Theme, rows: int, idx: int) -> Seq<char> {
        clear_block((rows + 1) as nat) + "\n\r"@ + show_seq() + th.results_seq(
            self.msg@,
            self.choices@[idx].text_spec(),
        )
    }

    /// Renders the opening block.
    pub fn render_intro(&self, theme: &Theme, rows: usize) -> (r: String)
        requires
            rows >= 1,
        ensures
            r@ == self.intro_seq(*theme, rows as int),
    {
        let q = theme.print_question(self.msg.as_str(), None);
        let mut s = q.0;
        s.append("\n");
        let h = hide_escape();
        s.append(h.as_str());
        let n = rows - 1;
        let mut i: usize = 0;
        while i < n
            invariant
                i <= n,
                s@ == theme.question_seq(self.msg@, None) + "\n"@ + hide_seq() + repeat_seq(
                    "\n"@,
                    i as nat,
                ),
            decreases n - i,
        {
            s.append("\n");
            i = i + 1;
        }
        s
    }

    /// Renders one full repaint of the window.
    pub fn render_frame(&self, theme: &Theme, nav: &Navigator) -> (r: String)
        requires
            nav_invariant(nav@),
            nav@.len == self.choices@.len(),
            nav@.rows <= u16::MAX,
        ensures
            r@ == self.frame_seq(*theme, nav@),
    {
        let rows = nav.rows();
        let offset = nav.offset();
        let cursor = nav.cursor();
        let len = self.choices.len();
        let mut s = up_escape(rows as u16);
        let mut i: usize = 0;
        while i < rows
            invariant
                i <= rows,
                rows == nav@.rows,
                offset == nav@.offset,
                cursor == nav@.cursor,
                len == self.choices@.len(),
                nav_invariant(nav@),
                nav@.len == self.choices@.len(),
                s@ == up_seq(nav@.rows as u16) + frame_rows_seq(
                    *theme,
                    self.choices@,
                    nav@.offset,
                    nav@.cursor,
                    i as int,
                ),
            decreases rows - i,
        {
            s.append("\n\r");
            let e = clear_line_escape();
            s.append(e.as_str());
            let line = theme.print_choice(self.choices[offset + i].text(), cursor == i);
            s.append(line.as_str());
            i = i + 1;
        }
        s
    }

    /// Renders the closing block for the committed choice.
    pub fn render_finish(&self, theme: &Theme, rows: usize, idx: usize) -> (r: String)
        requires
            idx < self.choices@.len(),
            rows + 1 <= u16::MAX,
        ensures
            r@ == self.finish_seq(*theme, rows as int, idx as int),
    {
        let mut s = String::new();
        let total = rows + 1;
        let mut i: usize = 0;
        while i < total
            invariant
                i <= total,
                s@ == clear_block(i as nat),
            decreases total - i,
        {
            let e = clear_line_escape();
            s.append(e.as_str());
            let u = up_escape(1);
            s.append(u.as_str());
            i = i + 1;
        }
        s.append("\n\r");
        let sh = show_escape();
        s.append(sh.as_str());
        let line = theme.print_results(self.msg.as_str(), self.choices[idx].text());
        s.append(line.as_str());
        s
    }
}

} // verus!
