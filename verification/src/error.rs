//! The fatal error paths of a prompt.
//!
//! Validation failures are not errors: they are rendered to the user and the
//! prompt keeps running. Everything here unwinds the whole prompt.

use crate::util::dec_seq;
use vstd::prelude::*;
use vstd::string::StringExecFns;

verus! {

/// `std::io::Error` carried through from a failed terminal read or write;
/// the library never inspects it.
#[verifier::external_type_specification]
#[verifier::external_body]
pub struct ExIoError(std::io::Error);

/// Why a prompt ended without a committed value.
#[derive(Debug)]
pub enum Error {
    /// A read from or write to the terminal failed; fatal, never retried.
    IoError(std::io::Error),
    /// The input stream ended before the user committed a value.
    NoMoreInput,
    /// The user pressed Ctrl-C; the expected cancellation path.
    UserAborted,
    /// An internally computed index fell outside the choice list.
    InvalidChoice(usize),
    /// A rendered line could not be represented: formatting the output or
    /// fitting it into the terminal's coordinate space failed.
    Format,
}

impl Error {
    /// The text of an error's description line.
    pub open spec fn message_seq(self) -> Seq<char> {
        match self {
            Error::IoError(_) => "Io error"@,
            Error::NoMoreInput => "No more input"@,
            Error::UserAborted => "User aborted"@,
            Error::InvalidChoice(idx) => "Invalid choice at inedx: "@ + dec_seq(idx as nat),
            Error::Format => "Formatting error"@,
        }
    }

    /// Describes the error in one line.
    pub fn message(&self) -> (r: String)
        ensures
            r@ == self.message_seq(),
    {
        match self {
            Error::IoError(_) => {
                let mut s = String::new();
                s.append("Io error");
                s
            },
            Error::NoMoreInput => {
                let mut s = String::new();
                s.append("No more input");
                s
            },
            Error::UserAborted => {
                let mut s = String::new();
                s.append("User aborted");
                s
            },
            Error::InvalidChoice(idx) => {
                let mut s = String::new();
                s.append("Invalid choice at inedx: ");
                let digits = crate::util::fmt_usize(*idx);
                s.append(digits.as_str());
                s
            },
            Error::Format => {
                let mut s = String::new();
                s.append("Formatting error");
                s
            },
        }
    }
}

} // verus!
