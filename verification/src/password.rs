//! The password prompt: a line of input whose characters are never echoed.
//!
//! Reading the hidden line is terminal work the caller performs; this
//! module only holds the prompt's configuration.

use crate::theme::Theme;
use vstd::prelude::*;

verus! {

/// Collects the configuration of a password prompt.
pub struct PasswordBuilder {
    /// The question.
    pub msg: String,
    /// The theme, if one is supplied.
    pub theme: Option<Theme>,
}

impl PasswordBuilder {
    /// A builder for a password prompt.
    pub fn new(msg: &str) -> (r: PasswordBuilder)
        ensures
            r.msg@ == msg@,
            r.theme is None,
    {
        PasswordBuilder { msg: msg.to_owned(), theme: None }
    }

    /// Sets the theme.
    pub fn theme(self, theme: Theme) -> (r: PasswordBuilder)
        ensures
            r.msg == self.msg,
            r.theme == Some(theme),
    {
        PasswordBuilder { theme: Some(theme), ..self }
    }

    /// Produces the prompt.
    pub fn build(self) -> (r: Password)
        ensures
            r.msg == self.msg,
            r.theme == self.theme,
    {
        Password { msg: self.msg, theme: self.theme }
    }
}

/// A password prompt: the committed value is the hidden line the user
/// typed.
pub struct Password {
    /// The question.
    pub msg: String,
    /// The theme, if one is supplied.
    pub theme: Option<Theme>,
}

impl Password {
    /// Starts configuring a password prompt.
    pub fn new(msg: &str) -> (r: PasswordBuilder)
        ensures
            r.msg@ == msg@,
            r.theme is None,
    {
        PasswordBuilder::new(msg)
    }
}

} // verus!
