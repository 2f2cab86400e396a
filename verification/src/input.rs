//! The text-input prompt: a free line of text, an optional default, and a
//! validation pipeline that gates the commit.
//!
//! The caller reads a line, hands it to [`Input::commit`], and either takes
//! the accepted value or shows the rejection message — positioned by
//! [`Input::render_prompt`] — and loops.

use crate::error::Error;
use crate::escapes::{
    left_escape, left_seq, right_escape, right_seq, stripped_of, up_escape, up_seq, visible_width,
};
use crate::theme::Theme;
use crate::validation::{push_check, validate_all, MinLen, Validation};
use vstd::prelude::*;
use vstd::string::StringExecFns;

verus! {

/// How one Enter press ends: with a committed value, or with a message to
/// show while the prompt keeps running.
#[derive(Debug, PartialEq)]
pub enum CommitOutcome {
    /// The prompt ends with this value.
    Accepted(String),
    /// The first failing check's message; the buffer is preserved and the
    /// prompt keeps running.
    Rejected(String),
}

/// Collects the configuration of a text-input prompt.
pub struct InputBuilder {
    /// The question.
    pub msg: String,
    /// Substituted verbatim when the user commits an empty line.
    pub default: Option<String>,
    /// The theme, if one is supplied.
    pub theme: Option<Theme>,
    /// Checks run, in order, against a committed line.
    pub validations: Vec<Box<dyn Validation<String>>>,
}

impl InputBuilder {
    /// A builder with no default and no checks.
    pub fn new(msg: &str) -> (r: InputBuilder)
        ensures
            r.msg@ == msg@,
            r.default is None,
            r.theme is None,
            r.validations@.len() == 0,
    {
        InputBuilder { msg: msg.to_owned(), default: None, theme: None, validations: Vec::new() }
    }

    /// Appends a check to run against a committed line.
    pub fn validate<V: Validation<String> + 'static>(self, v: V) -> (r: InputBuilder)
        ensures
            r.msg == self.msg,
            r.default == self.default,
            r.theme == self.theme,
            r.validations@.len() == self.validations@.len() + 1,
            forall|j: int|
                0 <= j < self.validations@.len() ==> r.validations@[j] == self.validations@[j],
            forall|value: String| #[trigger] r.validations@.last().ok(&value) <==> v.ok(&value),
            forall|value: String| #[trigger] r.validations@.last().message(&value) == v.message(
                &value,
            ),
    {
        let InputBuilder { msg, default, theme, mut validations } = self;
        push_check(&mut validations, v);
        InputBuilder { msg, default, theme, validations }
    }

    /// Appends the check that a committed line is not empty.
    pub fn required(self) -> (r: InputBuilder)
        ensures
            r.msg == self.msg,
            r.default == self.default,
            r.theme == self.theme,
            r.validations@.len() == self.validations@.len() + 1,
            forall|j: int|
                0 <= j < self.validations@.len() ==> r.validations@[j] == self.validations@[j],
            forall|value: String| #[trigger] r.validations@.last().ok(&value) <==> value@.len()
                >= 1,
    {
        self.validate(MinLen(1))
    }

    /// Sets the theme.
    pub fn theme(self, theme: Theme) -> (r: InputBuilder)
        ensures
            r.msg == self.msg,
            r.default == self.default,
            r.theme == Some(theme),
            r.validations == self.validations,
    {
        InputBuilder { theme: Some(theme), ..self }
    }

    /// Sets the value an empty commit substitutes verbatim.
    pub fn default(self, name: &str) -> (r: InputBuilder)
        ensures
            r.msg == self.msg,
            r.default is Some && r.default.unwrap()@ == name@,
            r.theme == self.theme,
            r.validations == self.validations,
    {
        InputBuilder { default: Some(name.to_owned()), ..self }
    }

    /// Produces the prompt.
    pub fn build(self) -> (r: Input)
        ensures
            r.msg == self.msg,
            r.default == self.default,
            r.theme == self.theme,
            r.validations == self.validations,
    {
        Input {
            msg: self.msg,
            default: self.default,
            theme: self.theme,
            validations: self.validations,
        }
    }
}

/// A text-input prompt.
pub struct Input {
    /// The question.
    pub msg: String,
    /// Substituted verbatim when the user commits an empty line.
    pub default: Option<String>,
    /// The theme, if one is supplied.
    pub theme: Option<Theme>,
    /// Checks run, in order, against a committed line.
    pub validations: Vec<Box<dyn Validation<String>>>,
}

impl Input {
    /// Starts configuring a text-input prompt.
    pub fn new(msg: &str) -> (r: InputBuilder)
        ensures
            r.msg@ == msg@,
            r.default is None,
            r.theme is None,
            r.validations@.len() == 0,
    {
        InputBuilder::new(msg)
    }

    /// Decides one Enter press. An empty line with a default set commits
    /// the default verbatim, bypassing the checks; otherwise the line is
    /// accepted exactly when every check passes, and rejected with the
    /// first failing check's message.
    pub fn commit(&self, input: &String) -> (r: CommitOutcome)
        ensures
            (input@.len() == 0 && self.default is Some ==> (r matches CommitOutcome::Accepted(v)
                && v@ == self.default.unwrap()@)),
            (!(input@.len() == 0 && self.default is Some) ==> (if (forall|i: int|
                0 <= i < self.validations@.len() ==> self.validations@[i].ok(input)) {
                r matches CommitOutcome::Accepted(v) && v@ == input@
            } else {
                r matches CommitOutcome::Rejected(m) && exists|i: int|
                    {
                        &&& 0 <= i < self.validations@.len()
                        &&& !self.validations@[i].ok(input)
                        &&& (forall|j: int| 0 <= j < i ==> self.validations@[j].ok(input))
                        &&& m@ == self.validations@[i].message(input)
                    }
            })),
    {
        if input.as_str().unicode_len() == 0 {
            match &self.default {
                Some(d) => {
                    return CommitOutcome::Accepted(d.clone());
                },
                None => {},
            }
        }
        match validate_all(&self.validations, input) {
            Ok(()) => CommitOutcome::Accepted(input.clone()),
            Err(e) => CommitOutcome::Rejected(e.0),
        }
    }

    /// The question line with the cursor parked after it, ready for typing:
    /// the question, a fresh line (holding the pending error, if any), and
    /// a cursor move back up and across to just past the question's visible
    /// width. Fails only when a move amount cannot be represented in the
    /// terminal's coordinate space.
    pub fn render_prompt(&self, theme: &Theme, error: Option<&str>) -> (r: Result<String, Error>)
        ensures
            ({
                let q = theme.question_seq(
                    self.msg@,
                    match self.default {
                        Some(d) => Some(d@),
                        None => None,
                    },
                );
                let w = stripped_of(q).len();
                match error {
                    None => if w <= u16::MAX {
                        r matches Ok(s) && s@ == q + "\n"@ + up_seq(1) + right_seq(w as u16)
                    } else {
                        r == Err::<String, Error>(Error::Format)
                    },
                    Some(e) => {
                        let ew = stripped_of(e@).len();
                        if ew < w && w - ew >= 2 && w - ew - 2 <= u16::MAX {
                            r matches Ok(s) && s@ == q + "\r\n"@ + theme.error_seq(e@) + up_seq(1)
                                + right_seq((w - ew - 2) as u16)
                        } else if ew >= w && ew - w + 2 <= u16::MAX {
                            r matches Ok(s) && s@ == q + "\r\n"@ + theme.error_seq(e@) + up_seq(1)
                                + left_seq((ew - w + 2) as u16)
                        } else {
                            r == Err::<String, Error>(Error::Format)
                        }
                    },
                }
            }),
    {
        let q = theme.print_question(
            self.msg.as_str(),
            match &self.default {
                Some(d) => Some(d.as_str()),
                None => None,
            },
        );
        let mut s = q.0;
        let w = q.1;
        match error {
            None => {
                if w > u16::MAX as usize {
                    return Err(Error::Format);
                }
                s.append("\n");
                let u = up_escape(1);
                s.append(u.as_str());
                let m = right_escape(w as u16);
                s.append(m.as_str());
                Ok(s)
            },
            Some(e) => {
                let ew = visible_width(e);
                s.append("\r\n");
                let line = theme.print_error(e);
                s.append(line.as_str());
                let u = up_escape(1);
                s.append(u.as_str());
                if ew < w && w - ew >= 2 {
                    if w - ew - 2 > u16::MAX as usize {
                        return Err(Error::Format);
                    }
                    let m = right_escape((w - ew - 2) as u16);
                    s.append(m.as_str());
                    Ok(s)
                } else if ew >= w {
                    let d = ew - w;
                    if d > u16::MAX as usize - 2 {
                        return Err(Error::Format);
                    }
                    let m = left_escape((d + 2) as u16);
                    s.append(m.as_str());
                    Ok(s)
                } else {
                    Err(Error::Format)
                }
            },
        }
    }
}

} // verus!
