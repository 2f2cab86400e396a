//! The yes/no prompt.
//!
//! A single key decides: `y` and `n` commit immediately, Enter commits the
//! configured default, Ctrl-C aborts, and everything else is ignored.

use crate::events::KeyEvent;
use crate::theme::Theme;
use vstd::prelude::*;

verus! {

/// What one key did to a yes/no prompt.
#[derive(Debug, PartialEq, Eq, Structural, Clone, Copy)]
pub enum ConfirmStep {
    /// The key decided nothing; the prompt keeps running.
    Continue,
    /// The prompt ends with this answer.
    Commit(bool),
    /// Ctrl-C: abandon the prompt.
    Abort,
}

/// Collects the configuration of a yes/no prompt.
pub struct ConfirmBuilder {
    /// The question.
    pub msg: String,
    /// The theme, if one is supplied.
    pub theme: Option<Theme>,
    /// The answer Enter commits.
    pub default: bool,
}

impl ConfirmBuilder {
    /// A builder whose default answer is yes.
    pub fn new(msg: &str) -> (r: ConfirmBuilder)
        ensures
            r.msg@ == msg@,
            r.theme is None,
            r.default == true,
    {
        ConfirmBuilder { msg: msg.to_owned(), theme: None, default: true }
    }

    /// Sets the answer Enter commits.
    pub fn default(self, default: bool) -> (r: ConfirmBuilder)
        ensures
            r.msg == self.msg,
            r.theme == self.theme,
            r.default == default,
    {
        ConfirmBuilder { default, ..self }
    }

    /// Produces the prompt.
    pub fn build(self) -> (r: Confirm)
        ensures
            r.msg == self.msg,
            r.theme == self.theme,
            r.default == self.default,
    {
        Confirm { msg: self.msg, theme: self.theme, default: self.default }
    }
}

/// A yes/no prompt.
pub struct Confirm {
    /// The question.
    pub msg: String,
    /// The theme, if one is supplied.
    pub theme: Option<Theme>,
    /// The answer Enter commits.
    pub default: bool,
}

impl Confirm {
    /// Starts configuring a yes/no prompt.
    pub fn new(msg: &str) -> (r: ConfirmBuilder)
        ensures
            r.msg@ == msg@,
            r.theme is None,
            r.default == true,
    {
        ConfirmBuilder::new(msg)
    }

    /// The default-value hint shown after the question: the capital letter
    /// marks the answer Enter commits.
    pub fn hint(&self) -> (r: &str)
        ensures
            r@ == if self.default {
                "Yn"@
            } else {
                "yN"@
            },
    {
        if self.default {
            "Yn"
        } else {
            "yN"
        }
    }

    /// The word the answered line shows for a committed answer.
    pub fn answer_text(&self, choice: bool) -> (r: &str)
        ensures
            r@ == if choice {
                "yes"@
            } else {
                "no"@
            },
    {
        if choice {
            "yes"
        } else {
            "no"
        }
    }

    /// Consumes one key event: `y` commits yes, `n` commits no, Enter
    /// commits the default, Ctrl-C aborts, and every other key does
    /// nothing.
    pub fn handle_key(&self, key: KeyEvent) -> (r: ConfirmStep)
        ensures
            (key == KeyEvent::Enter ==> r == ConfirmStep::Commit(self.default)),
            (key == KeyEvent::Char('y') ==> r == ConfirmStep::Commit(true)),
            (key == KeyEvent::Char('n') ==> r == ConfirmStep::Commit(false)),
            (key == KeyEvent::Ctrl('c') ==> r == ConfirmStep::Abort),
            (!(key == KeyEvent::Enter || key == KeyEvent::Char('y') || key == KeyEvent::Char('n')
                || key == KeyEvent::Ctrl('c')) ==> r == ConfirmStep::Continue),
    {
        match key {
            KeyEvent::Enter => ConfirmStep::Commit(self.default),
            KeyEvent::Char(c) => {
                if c == 'y' {
                    ConfirmStep::Commit(true)
                } else if c == 'n' {
                    ConfirmStep::Commit(false)
                } else {
                    ConfirmStep::Continue
                }
            },
            KeyEvent::Ctrl(c) => {
                if c == 'c' {
                    ConfirmStep::Abort
                } else {
                    ConfirmStep::Continue
                }
            },
            _ => ConfirmStep::Continue,
        }
    }
}

} // verus!
