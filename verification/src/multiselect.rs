//! The multi-select prompt: the navigator's movement plus a selection set
//! with cardinality bounds.
//!
//! Space toggles the choice under the cursor. Toggling on is refused when
//! the selection is full (`max > 0` and `len(selected) == max`); toggling
//! off is always permitted. Enter commits only when at least `min` choices
//! are selected, and the committed indices come out in ascending original
//! order, whatever order they were selected in.

use crate::canvas::clear_block;
use crate::choice::Choice;
use crate::editor::repeat_seq;
use crate::escapes::{
    clear_line_escape, clear_line_seq, hide_escape, hide_seq, show_escape, show_seq, up_escape,
    up_seq,
};
use crate::events::KeyEvent;
use crate::navigator::{nav_down, nav_invariant, nav_up, Navigator, NavigatorView};
use crate::theme::Theme;
use crate::util::dec_seq;
use crate::validation::{validate_all, Validation, ValidationError};
use vstd::prelude::*;
use vstd::seq_lib::*;
use vstd::string::StringExecFns;

verus! {

/// Strictly increasing: the sequence lists each selected index once, in
/// ascending original order.
pub open spec fn ascending(s: Seq<usize>) -> bool {
    forall|a: int, b: int| 0 <= a < b < s.len() ==> s[a] < s[b]
}

/// The mathematical state of a [`MultiSelectState`].
pub ghost struct MultiSelectView {
    /// The navigator over the choices.
    pub nav: NavigatorView,
    /// The selected indices, ascending.
    pub selected: Seq<usize>,
    /// The fewest selections Enter accepts.
    pub min: int,
    /// The most selections Space allows; zero means unbounded.
    pub max: int,
}

/// What one key did to a multi-select prompt.
#[derive(Debug, PartialEq)]
pub enum MultiSelectStep {
    /// The cursor or the selection may have changed; the prompt keeps
    /// running.
    Continue,
    /// Enter with enough selections: commit these indices, ascending.
    Commit(Vec<usize>),
    /// Enter with too few selections: show this message and keep running.
    Reject(String),
    /// Ctrl-C: abandon the prompt.
    Abort,
}

/// The interactive state of a multi-select prompt: a navigator plus the
/// selection and its bounds.
pub struct MultiSelectState {
    nav: Navigator,
    selected: Vec<usize>,
    min: usize,
    max: usize,
}

impl View for MultiSelectState {
    type V = MultiSelectView;

    closed spec fn view(&self) -> MultiSelectView {
        MultiSelectView {
            nav: self.nav@,
            selected: self.selected@,
            min: self.min as int,
            max: self.max as int,
        }
    }
}

/// The multi-select invariant: the selection is ascending, every selected
/// index points into the list, and — whenever `max > 0` — the selection
/// never outgrows `max`. Establishment and every transition re-ensure it.
pub open spec fn ms_invariant(v: MultiSelectView) -> bool {
    &&& ascending(v.selected)
    &&& forall|i: int| 0 <= i < v.selected.len() ==> (v.selected[i] as int) < v.nav.len
    &&& v.max > 0 ==> v.selected.len() <= v.max
}

/// How a Space press relates the state before and after: the navigator and
/// bounds are untouched; the choice under the cursor leaves the selection
/// if it was in it, joins it if there is room, and is refused otherwise —
/// and the selection stays ascending.
pub open spec fn toggle_rel(b: MultiSelectView, a: MultiSelectView) -> bool {
    &&& a.nav == b.nav
    &&& a.min == b.min
    &&& a.max == b.max
    &&& ({
        let idx = (b.nav.offset + b.nav.cursor) as usize;
        if b.selected.contains(idx) {
            &&& (forall|x: usize| a.selected.contains(x) <==> (b.selected.contains(x) && x != idx))
            &&& a.selected.len() == b.selected.len() - 1
        } else if b.max == 0 || b.selected.len() < b.max {
            &&& (forall|x: usize| a.selected.contains(x) <==> (b.selected.contains(x) || x == idx))
            &&& a.selected.len() == b.selected.len() + 1
        } else {
            a.selected == b.selected
        }
    })
    &&& ascending(a.selected)
}

impl MultiSelectState {
    #[verifier::type_invariant]
    spec fn wf(self) -> bool {
        ms_invariant(self@)
    }

    /// A fresh state over `len` choices paged by `page_size`, with nothing
    /// selected.
    pub fn new(len: usize, page_size: usize, min: usize, max: usize) -> (r: MultiSelectState)
        requires
            len >= 1,
            page_size >= 1,
        ensures
            r@.nav == (NavigatorView {
                len: len as int,
                rows: if page_size < len {
                    page_size as int
                } else {
                    len as int
                },
                cursor: 0,
                offset: 0,
            }),
            r@.selected == Seq::<usize>::empty(),
            r@.min == min,
            r@.max == max,
            nav_invariant(r@.nav),
            ms_invariant(r@),
    {
        let r = MultiSelectState { nav: Navigator::new(len, page_size), selected: Vec::new(), min, max };
        proof {
            assert(r@.selected =~= Seq::<usize>::empty());
        }
        r
    }

    /// The navigator's state.
    pub fn nav(&self) -> (r: &Navigator)
        ensures
            r@ == self@.nav,
    {
        &self.nav
    }

    /// How many choices are selected.
    pub fn selected_count(&self) -> (r: usize)
        ensures
            r == self@.selected.len(),
    {
        self.selected.len()
    }

    /// Whether the choice at absolute index `idx` is selected.
    pub fn is_selected(&self, idx: usize) -> (r: bool)
        ensures
            r == self@.selected.contains(idx),
    {
        proof {
            use_type_invariant(&*self);
        }
        let mut i: usize = 0;
        while i < self.selected.len()
            invariant
                i <= self@.selected.len(),
                forall|j: int| 0 <= j < i ==> self@.selected[j] != idx,
            decreases self@.selected.len() - i,
        {
            if self.selected[i] == idx {
                return true;
            }
            i = i + 1;
        }
        false
    }

    /// The selected indices, ascending.
    pub fn selection(&self) -> (r: Vec<usize>)
        ensures
            r@ == self@.selected,
    {
        let mut out: Vec<usize> = Vec::new();
        let mut i: usize = 0;
        while i < self.selected.len()
            invariant
                i <= self@.selected.len(),
                out@ == self@.selected.subrange(0, i as int),
            decreases self@.selected.len() - i,
        {
            out.push(self.selected[i]);
            proof {
                assert(out@ =~= self@.selected.subrange(0, i + 1 as int));
            }
            i = i + 1;
        }
        proof {
            assert(self@.selected.subrange(0, self@.selected.len() as int) =~= self@.selected);
        }
        out
    }

    /// Toggles membership of the choice under the cursor. Toggling off is
    /// always permitted; toggling on is refused exactly when the selection
    /// is full.
    pub fn toggle(&mut self)
        ensures
            toggle_rel(old(self)@, final(self)@),
            ms_invariant(final(self)@),
    {
        proof {
            use_type_invariant(&*self);
        }
        let idx = self.nav.selected_index();
        let mut sel: Vec<usize> = Vec::new();
        core::mem::swap(&mut sel, &mut self.selected);
        let ghost s0 = sel@;
        let mut i: usize = 0;
        while i < sel.len() && sel[i] < idx
            invariant
                sel@ == s0,
                i <= s0.len(),
                forall|j: int| 0 <= j < i ==> s0[j] < idx,
            decreases s0.len() - i,
        {
            i = i + 1;
        }
        if i < sel.len() && sel[i] == idx {
            sel.remove(i);
            proof {
                s0.remove_ensures(i as int);
                assert forall|x: usize| sel@.contains(x) <==> (s0.contains(x) && x != idx) by {
                    lemma_toggle_remove(s0, i as int, x);
                }
            }
        } else if self.max == 0 || sel.len() < self.max {
            proof {
                assert(forall|j: int| i <= j < s0.len() ==> s0[j] > idx || s0[j] == idx) by {
                    assert forall|j: int| i <= j < s0.len() implies s0[j] >= idx by {
                        if j > i {
                            assert(s0[i as int] < s0[j]);
                        }
                    }
                }
                assert(!s0.contains(idx));
            }
            sel.insert(i, idx);
            proof {
                s0.insert_ensures(i as int, idx);
                assert forall|x: usize| sel@.contains(x) <==> (s0.contains(x) || x == idx) by {
                    lemma_toggle_insert(s0, i as int, idx, x);
                }
                assert forall|a: int, b: int| 0 <= a < b < sel@.len() implies sel@[a] < sel@[b] by {
                    lemma_toggle_sorted(s0, i as int, idx, a, b);
                }
            }
        }
        core::mem::swap(&mut sel, &mut self.selected);
        proof {
            use_type_invariant(&*self);
        }
    }

    /// Consumes one key event: arrows move the highlight, Space toggles the
    /// choice under the cursor, Enter commits the selection — ascending —
    /// when it has at least `min` members and is rejected with a message
    /// otherwise, Ctrl-C aborts, and every other key does nothing.
    pub fn handle_key(&mut self, key: KeyEvent) -> (r: MultiSelectStep)
        ensures
            (key == KeyEvent::Up ==> r == MultiSelectStep::Continue && final(self)@
                == (MultiSelectView { nav: nav_up(old(self)@.nav), ..old(self)@ })),
            (key == KeyEvent::Down ==> r == MultiSelectStep::Continue && final(self)@
                == (MultiSelectView { nav: nav_down(old(self)@.nav), ..old(self)@ })),
            (key == KeyEvent::Char(' ') ==> r == MultiSelectStep::Continue && toggle_rel(
                old(self)@,
                final(self)@,
            )),
            (key == KeyEvent::Enter ==> final(self)@ == old(self)@ && (if old(
                self,
            )@.selected.len() >= old(self)@.min {
                r matches MultiSelectStep::Commit(v) && v@ == old(self)@.selected
            } else {
                r matches MultiSelectStep::Reject(m) && m@ == "must select at least "@ + dec_seq(
                    old(self)@.min as nat,
                )
            })),
            (key == KeyEvent::Ctrl('c') ==> r == MultiSelectStep::Abort && final(self)@ == old(
                self,
            )@),
            (!(key == KeyEvent::Up || key == KeyEvent::Down || key == KeyEvent::Char(' ') || key
                == KeyEvent::Enter || key == KeyEvent::Ctrl('c')) ==> r
                == MultiSelectStep::Continue && final(self)@ == old(self)@),
            ms_invariant(final(self)@),
    {
        proof {
            use_type_invariant(&*self);
        }
        match key {
            KeyEvent::Up => {
                self.nav.key_up();
                MultiSelectStep::Continue
            },
            KeyEvent::Down => {
                self.nav.key_down();
                MultiSelectStep::Continue
            },
            KeyEvent::Char(c) => {
                if c == ' ' {
                    self.toggle();
                }
                MultiSelectStep::Continue
            },
            KeyEvent::Enter => {
                if self.selected.len() >= self.min {
                    MultiSelectStep::Commit(self.selection())
                } else {
                    let mut m = String::new();
                    m.append("must select at least ");
                    let digits = crate::util::fmt_usize(self.min);
                    m.append(digits.as_str());
                    MultiSelectStep::Reject(m)
                }
            },
            KeyEvent::Ctrl(c) => {
                if c == 'c' {
                    MultiSelectStep::Abort
                } else {
                    MultiSelectStep::Continue
                }
            },
            _ => MultiSelectStep::Continue,
        }
    }
}

/// One rendered multi-select row: down to a fresh line, erase it, and the
/// themed choice line with its highlight and selection markers.
pub open spec fn ms_row_seq<C: Choice>(
    th: Theme,
    choices: Seq<C>,
    v: MultiSelectView,
    i: int,
) -> Seq<char> {
    "\n\r"@ + clear_line_seq() + th.multiple_choice_seq(
        choices[v.nav.offset + i].text_spec(),
        v.nav.cursor == i,
        v.selected.contains((v.nav.offset + i) as usize),
    )
}

/// The first `k` rendered rows of the visible window.
pub open spec fn ms_frame_rows_seq<C: Choice>(
    th: Theme,
    choices: Seq<C>,
    v: MultiSelectView,
    k: int,
) -> Seq<char>
    decreases k,
{
    if k <= 0 {
        Seq::empty()
    } else {
        ms_frame_rows_seq(th, choices, v, k - 1) + ms_row_seq(th, choices, v, k - 1)
    }
}

/// The committed choices' texts joined by a comma and a space, in the order
/// the selection lists them.
pub open spec fn joined_texts<C: Choice>(choices: Seq<C>, sel: Seq<usize>) -> Seq<char>
    decreases sel.len(),
{
    if sel.len() == 0 {
        Seq::empty()
    } else if sel.len() == 1 {
        choices[sel[0] as int].text_spec()
    } else {
        joined_texts(choices, sel.drop_last()) + ", "@ + choices[sel.last() as int].text_spec()
    }
}

/// Collects the configuration of a multi-select prompt.
pub struct MultiSelectBuilder<C> {
    /// The question.
    pub msg: String,
    /// The immutable list of choices.
    pub choices: Vec<C>,
    /// How many choices are visible at once.
    pub page_size: usize,
    /// The theme, if one is supplied.
    pub theme: Option<Theme>,
    /// Checks run against the committed selection.
    pub validations: Vec<Box<dyn Validation<Vec<usize>>>>,
    /// The fewest selections Enter accepts.
    pub min: usize,
    /// The most selections Space allows; zero means unbounded.
    pub max: usize,
}

impl<C> MultiSelectBuilder<C> {
    /// A builder over `choices` with the stock page size of eight and no
    /// bounds.
    pub fn new(msg: &str, choices: Vec<C>) -> (r: MultiSelectBuilder<C>)
        ensures
            r.msg@ == msg@,
            r.choices == choices,
            r.page_size == 8usize,
            r.theme is None,
            r.validations@.len() == 0,
            r.min == 0usize,
            r.max == 0usize,
    {
        MultiSelectBuilder {
            msg: msg.to_owned(),
            choices,
            page_size: 8,
            theme: None,
            validations: Vec::new(),
            min: 0,
            max: 0,
        }
    }

    /// Sets how many choices are visible at once.
    pub fn page_size(self, size: usize) -> (r: MultiSelectBuilder<C>)
        ensures
            r == (MultiSelectBuilder { page_size: size, ..self }),
    {
        MultiSelectBuilder { page_size: size, ..self }
    }

    /// Requires at least this many selections to commit.
    pub fn min(self, min: usize) -> (r: MultiSelectBuilder<C>)
        ensures
            r == (MultiSelectBuilder { min, ..self }),
    {
        MultiSelectBuilder { min, ..self }
    }

    /// Allows at most this many selections; zero means unbounded.
    pub fn max(self, max: usize) -> (r: MultiSelectBuilder<C>)
        ensures
            r == (MultiSelectBuilder { max, ..self }),
    {
        MultiSelectBuilder { max, ..self }
    }

    /// Appends a check to run against the committed selection.
    pub fn validate<VV: Validation<Vec<usize>> + 'static>(self, v: VV) -> (r: MultiSelectBuilder<
        C,
    >)
        ensures
            r.msg == self.msg,
            r.choices == self.choices,
            r.page_size == self.page_size,
            r.theme == self.theme,
            r.min == self.min,
            r.max == self.max,
            r.validations@.len() == self.validations@.len() + 1,
            forall|j: int|
                0 <= j < self.validations@.len() ==> r.validations@[j] == self.validations@[j],
            forall|value: Vec<usize>| #[trigger] r.validations@.last().ok(&value) <==> v.ok(&value),
            forall|value: Vec<usize>| #[trigger] r.validations@.last().message(&value) == v.message(
                &value,
            ),
    {
        let MultiSelectBuilder { msg, choices, page_size, theme, mut validations, min, max } = self;
        crate::validation::push_check(&mut validations, v);
        MultiSelectBuilder { msg, choices, page_size, theme, validations, min, max }
    }

    /// Produces the prompt.
    pub fn build(self) -> (r: MultiSelect<C>)
        ensures
            r.msg == self.msg,
            r.choices == self.choices,
            r.page_size == self.page_size,
            r.theme == self.theme,
            r.validations == self.validations,
            r.min == self.min,
            r.max == self.max,
    {
        MultiSelect {
            msg: self.msg,
            choices: self.choices,
            page_size: self.page_size,
            theme: self.theme,
            validations: self.validations,
            min: self.min,
            max: self.max,
        }
    }
}

/// A multi-select prompt: the user commits a subset of the choices.
pub struct MultiSelect<C> {
    /// The question.
    pub msg: String,
    /// The immutable list of choices.
    pub choices: Vec<C>,
    /// How many choices are visible at once.
    pub page_size: usize,
    /// The theme, if one is supplied.
    pub theme: Option<Theme>,
    /// Checks run against the committed selection.
    pub validations: Vec<Box<dyn Validation<Vec<usize>>>>,
    /// The fewest selections Enter accepts.
    pub min: usize,
    /// The most selections Space allows; zero means unbounded.
    pub max: usize,
}

impl<C> MultiSelect<C> {
    /// Starts configuring a multi-select prompt.
    pub fn new(msg: &str, choices: Vec<C>) -> (r: MultiSelectBuilder<C>)
        ensures
            r.msg@ == msg@,
            r.choices == choices,
            r.page_size == 8usize,
            r.theme is None,
            r.validations@.len() == 0,
            r.min == 0usize,
            r.max == 0usize,
    {
        MultiSelectBuilder::new(msg, choices)
    }

    /// Runs the configured checks against a committed selection in
    /// registration order and returns the first failure's message.
    pub fn validate(&self, val: &Vec<usize>) -> (r: Result<(), ValidationError>)
        ensures
            r is Ok <==> (forall|i: int|
                0 <= i < self.validations@.len() ==> self.validations@[i].ok(val)),
            r is Err ==> exists|i: int|
                {
                    &&& 0 <= i < self.validations@.len()
                    &&& !self.validations@[i].ok(val)
                    &&& (forall|j: int| 0 <= j < i ==> self.validations@[j].ok(val))
                    &&& r->Err_0.0@ == self.validations@[i].message(val)
                },
    {
        validate_all(&self.validations, val)
    }

    /// A fresh interactive state over this prompt's choices and bounds.
    pub fn state(&self) -> (r: MultiSelectState)
        requires
            self.choices@.len() >= 1,
            self.page_size >= 1,
        ensures
            r@.nav.len == self.choices@.len(),
            r@.nav.rows == (if self.page_size < self.choices@.len() {
                self.page_size as int
            } else {
                self.choices@.len() as int
            }),
            r@.nav.cursor == 0,
            r@.nav.offset == 0,
            r@.selected == Seq::<usize>::empty(),
            r@.min == self.min,
            r@.max == self.max,
            nav_invariant(r@.nav),
            ms_invariant(r@),
    {
        MultiSelectState::new(self.choices.len(), self.page_size, self.min, self.max)
    }
}

impl<C: Choice> MultiSelect<C> {
    /// The opening block: the question line, a line feed, a hidden cursor,
    /// and one fresh line for each further row of the window.
    pub open spec fn intro_seq(self, th: Theme, rows: int) -> Seq<char> {
        th.question_seq(self.msg@, None) + "\n"@ + hide_seq() + repeat_seq(
            "\n"@,
            (rows - 1) as nat,
        )
    }

    /// One full repaint: the cursor moves up over the window, every visible
    /// row is redrawn with its two markers, and below the window either the
    /// pending error line or a blank line is painted before the cursor
    /// returns to the window's last row.
    pub open spec fn frame_seq(
        self,
        th: Theme,
        v: MultiSelectView,
        error: Option<Seq<char>>,
    ) -> Seq<char> {
        up_seq(v.nav.rows as u16) + ms_frame_rows_seq(th, self.choices@, v, v.nav.rows) + (
        match error {
            Some(e) => "\r\n"@ + th.error_seq(e) + up_seq(1),
            None => "\n"@ + up_seq(1),
        })
    }

    /// The closing block: every window row and the question line are erased
    /// from the bottom up, the cursor is shown again on a fresh line, and
    /// the answered line joins the committed choices' texts in ascending
    /// original order.
    pub open spec fn finish_seq(self, th: Theme, rows: int, sel: Seq<usize>) -> Seq<char> {
        clear_block((rows + 1) as nat) + "\n\r"@ + show_seq() + th.results_seq(
            self.msg@,
            joined_texts(self.choices@, sel),
        )
    }

    /// Renders the opening block.
    pub fn render_intro(&self, theme: &Theme, rows: usize) -> (r: String)
        requires
            rows >= 1,
        ensures
            r@ == self.intro_seq(*theme, rows as int),
    {
        let q = theme.print_question(self.msg.as_str(), None);
        let mut s = q.0;
        s.append("\n");
        let h = hide_escape();
        s.append(h.as_str());
        let n = rows - 1;
        let mut i: usize = 0;
        while i < n
            invariant
                i <= n,
                s@ == theme.question_seq(self.msg@, None) + "\n"@ + hide_seq() + repeat_seq(
                    "\n"@,
                    i as nat,
                ),
            decreases n - i,
        {
            s.append("\n");
            i = i + 1;
        }
        s
    }

    /// Renders one full repaint of the window and the error slot below it.
    pub fn render_frame(&self, theme: &Theme, state: &MultiSelectState, error: Option<&str>) -> (r:
        String)
        requires
            nav_invariant(state@.nav),
            state@.nav.len == self.choices@.len(),
            state@.nav.rows <= u16::MAX,
        ensures
            r@ == self.frame_seq(
                *theme,
                state@,
                match error {
                    Some(e) => Some(e@),
                    None => None,
                },
            ),
    {
        let nav = state.nav();
        let rows = nav.rows();
        let offset = nav.offset();
        let cursor = nav.cursor();
        let len = self.choices.len();
        let mut s = up_escape(rows as u16);
        let mut i: usize = 0;
        while i < rows
            invariant
                i <= rows,
                rows == state@.nav.rows,
                offset == state@.nav.offset,
                cursor == state@.nav.cursor,
                len == self.choices@.len(),
                nav_invariant(state@.nav),
                state@.nav.len == self.choices@.len(),
                s@ == up_seq(state@.nav.rows as u16) + ms_frame_rows_seq(
                    *theme,
                    self.choices@,
                    state@,
                    i as int,
                ),
            decreases rows - i,
        {
            s.append("\n\r");
            let e = clear_line_escape();
            s.append(e.as_str());
            let selected = state.is_selected(offset + i);
            let line = theme.print_multiple_choice(
                self.choices[offset + i].text(),
                cursor == i,
                selected,
            );
            s.append(line.as_str());
            i = i + 1;
        }
        match error {
            Some(e) => {
                s.append("\r\n");
                let line = theme.print_error(e);
                s.append(line.as_str());
                let u = up_escape(1);
                s.append(u.as_str());
            },
            None => {
                s.append("\n");
                let u = up_escape(1);
                s.append(u.as_str());
            },
        }
        s
    }

    /// Renders the closing block for a committed selection.
    pub fn render_finish(&self, theme: &Theme, rows: usize, sel: &Vec<usize>) -> (r: String)
        requires
            rows + 1 <= u16::MAX,
            forall|i: int| 0 <= i < sel@.len() ==> (sel@[i] as int) < self.choices@.len(),
        ensures
            r@ == self.finish_seq(*theme, rows as int, sel@),
    {
        let mut s = String::new();
        let total = rows + 1;
        let mut i: usize = 0;
        while i < total
            invariant
                i <= total,
                s@ == clear_block(i as nat),
            decreases total - i,
        {
            let e = clear_line_escape();
            s.append(e.as_str());
            let u = up_escape(1);
            s.append(u.as_str());
            i = i + 1;
        }
        s.append("\n\r");
        let sh = show_escape();
        s.append(sh.as_str());
        let mut joined = String::new();
        let n = sel.len();
        i = 0;
        while i < n
            invariant
                i <= n,
                n == sel@.len(),
                forall|j: int| 0 <= j < sel@.len() ==> (sel@[j] as int) < self.choices@.len(),
                joined@ == joined_texts(self.choices@, sel@.subrange(0, i as int)),
            decreases n - i,
        {
            if i > 0 {
                joined.append(", ");
            }
            joined.append(self.choices[sel[i]].text());
            proof {
                let pref = sel@.subrange(0, i as int);
                let next = sel@.subrange(0, i + 1 as int);
                assert(next.drop_last() =~= pref);
                assert(next.last() == sel@[i as int]);
            }
            i = i + 1;
        }
        proof {
            assert(sel@.subrange(0, sel@.len() as int) =~= sel@);
        }
        let line = theme.print_results(self.msg.as_str(), joined.as_str());
        s.append(line.as_str());
        s
    }
}

proof fn lemma_toggle_remove(s: Seq<usize>, i: int, x: usize)
    requires
        ascending(s),
        0 <= i < s.len(),
    ensures
        s.remove(i).contains(x) <==> (s.contains(x) && x != s[i]),
{
    s.remove_ensures(i);
    let r = s.remove(i);
    if r.contains(x) {
        let j = choose|j: int| 0 <= j < r.len() && r[j] == x;
        if j < i {
            assert(s[j] == x);
        } else {
            assert(s[j + 1] == x);
            assert(s[i] < s[j + 1]);
        }
        assert(s.contains(x));
        assert(x != s[i]);
    }
    if s.contains(x) && x != s[i] {
        let j = choose|j: int| 0 <= j < s.len() && s[j] == x;
        if j < i {
            assert(r[j] == x);
            assert(r.contains(x));
        } else {
            assert(j > i);
            assert(r[j - 1] == x);
            assert(r.contains(x));
        }
    }
}

proof fn lemma_toggle_insert(s: Seq<usize>, i: int, v: usize, x: usize)
    requires
        0 <= i <= s.len(),
    ensures
        s.insert(i, v).contains(x) <==> (s.contains(x) || x == v),
{
    s.insert_ensures(i, v);
    let r = s.insert(i, v);
    if r.contains(x) {
        let j = choose|j: int| 0 <= j < r.len() && r[j] == x;
        if j < i {
            assert(s[j] == x);
            assert(s.contains(x));
        } else if j == i {
            assert(x == v);
        } else {
            assert(s[j - 1] == x);
            assert(s.contains(x));
        }
    }
    if x == v {
        assert(r[i] == v);
        assert(r.contains(x));
    } else if s.contains(x) {
        let j = choose|j: int| 0 <= j < s.len() && s[j] == x;
        if j < i {
            assert(r[j] == x);
            assert(r.contains(x));
        } else {
            assert(r[j + 1] == x);
            assert(r.contains(x));
        }
    }
}

proof fn lemma_toggle_sorted(s: Seq<usize>, i: int, v: usize, a: int, b: int)
    requires
        ascending(s),
        0 <= i <= s.len(),
        forall|j: int| 0 <= j < i ==> s[j] < v,
        forall|j: int| i <= j < s.len() ==> s[j] > v,
        0 <= a < b < s.insert(i, v).len(),
    ensures
        s.insert(i, v)[a] < s.insert(i, v)[b],
{
    s.insert_ensures(i, v);
    let r = s.insert(i, v);
    if a < i && b < i {
        assert(r[a] == s[a] && r[b] == s[b]);
    } else if a < i && b == i {
        assert(r[a] == s[a] && r[b] == v);
    } else if a < i && b > i {
        assert(r[a] == s[a] && r[b] == s[b - 1]);
        assert(s[b - 1] > v);
    } else if a == i {
        assert(r[a] == v && r[b] == s[b - 1]);
        assert(s[b - 1] > v);
    } else {
        assert(a > i && b > i);
        assert(r[a] == s[a - 1] && r[b] == s[b - 1]);
        assert(s[a - 1] < s[b - 1]);
    }
}

} // verus!
