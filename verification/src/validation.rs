//! The validation pipeline: an ordered list of independent checks over a
//! value, short-circuiting on the first failure.
//!
//! Every check states, as a predicate, exactly which values it passes and
//! which message it reports otherwise; the pipeline returns the first
//! failing check's message, and succeeds if and only if every check passes.

use crate::util::dec_seq;
use vstd::prelude::*;
use vstd::string::{StrSliceExecFns, StringExecFns};

verus! {

/// The display message of a failed check.
pub struct ValidationError(pub String);

/// One check over a value of type `V`.
///
/// A check is pure: whether it passes, and what it reports, are functions of
/// the value alone, so it can run on every keystroke-triggered commit
/// attempt without residual state.
pub trait Validation<V> {
    /// Whether `value` passes this check.
    spec fn ok(&self, value: &V) -> bool;

    /// The message reported when `value` does not pass.
    spec fn message(&self, value: &V) -> Seq<char>;

    /// Runs the check: succeeds exactly on the values `ok` admits, and
    /// reports `message` otherwise.
    fn validate(&self, value: &V) -> (r: Result<(), ValidationError>)
        ensures
            r is Ok <==> self.ok(value),
            r is Err ==> r->Err_0.0@ == self.message(value),
    ;
}

/// Runs `checks` in registration order and returns the first failure's
/// message; an empty or all-passing chain yields success.
pub fn validate_all<V>(checks: &Vec<Box<dyn Validation<V>>>, value: &V) -> (r: Result<
    (),
    ValidationError,
>)
    ensures
        r is Ok <==> (forall|i: int| 0 <= i < checks@.len() ==> checks@[i].ok(value)),
        r is Err ==> exists|i: int|
            {
                &&& 0 <= i < checks@.len()
                &&& !checks@[i].ok(value)
                &&& (forall|j: int| 0 <= j < i ==> checks@[j].ok(value))
                &&& r->Err_0.0@ == checks@[i].message(value)
            },
{
    let mut i: usize = 0;
    while i < checks.len()
        invariant
            i <= checks@.len(),
            forall|j: int| 0 <= j < i ==> checks@[j].ok(value),
        decreases checks@.len() - i,
    {
        let r = checks[i].validate(value);
        match r {
            Ok(()) => {},
            Err(e) => {
                return Err(e);
            },
        }
        i = i + 1;
    }
    Ok(())
}

/// Relies on std's `Vec::push` and `Box::new`: appends the check, boxed as
/// a trait object, to the end of the pipeline. The trait object answers
/// `validate` exactly as `check` itself does; the verifier's standard
/// specifications do not cover pushing trait-object elements, so this one
/// call is taken on their documentation.
#[verifier::external_body]
pub(crate) fn push_check<V, VV: Validation<V> + 'static>(
    checks: &mut Vec<Box<dyn Validation<V>>>,
    check: VV,
)
    ensures
        final(checks)@.len() == old(checks)@.len() + 1,
        forall|j: int| 0 <= j < old(checks)@.len() ==> final(checks)@[j] == old(checks)@[j],
        forall|value: V| #[trigger] final(checks)@.last().ok(&value) <==> check.ok(&value),
        forall|value: V| #[trigger] final(checks)@.last().message(&value) == check.message(&value),
{
    checks.push(Box::new(check));
}

/// Requires a value to be there at all: a non-empty string, a non-empty
/// list.
pub struct Required;

impl Validation<String> for Required {
    open spec fn ok(&self, value: &String) -> bool {
        value@.len() > 0
    }

    open spec fn message(&self, value: &String) -> Seq<char> {
        "required"@
    }

    fn validate(&self, value: &String) -> (r: Result<(), ValidationError>)
        ensures
            r is Ok <==> self.ok(value),
            r is Err ==> r->Err_0.0@ == self.message(value),
    {
        if value.as_str().unicode_len() == 0 {
            Err(ValidationError("required".to_owned()))
        } else {
            Ok(())
        }
    }
}

impl<T> Validation<Vec<T>> for Required {
    open spec fn ok(&self, value: &Vec<T>) -> bool {
        value@.len() > 0
    }

    open spec fn message(&self, value: &Vec<T>) -> Seq<char> {
        "should be at least one"@
    }

    fn validate(&self, value: &Vec<T>) -> (r: Result<(), ValidationError>)
        ensures
            r is Ok <==> self.ok(value),
            r is Err ==> r->Err_0.0@ == self.message(value),
    {
        if value.len() == 0 {
            Err(ValidationError("should be at least one".to_owned()))
        } else {
            Ok(())
        }
    }
}

/// A lower bound on a value's length.
pub struct MinLen(pub usize);

impl Validation<String> for MinLen {
    open spec fn ok(&self, value: &String) -> bool {
        value@.len() >= self.0
    }

    open spec fn message(&self, value: &String) -> Seq<char> {
        "Should at least "@ + dec_seq(self.0 as nat) + " charecters long"@
    }

    fn validate(&self, value: &String) -> (r: Result<(), ValidationError>)
        ensures
            r is Ok <==> self.ok(value),
            r is Err ==> r->Err_0.0@ == self.message(value),
    {
        if value.as_str().unicode_len() >= self.0 {
            Ok(())
        } else {
            let mut m = String::new();
            m.append("Should at least ");
            let digits = crate::util::fmt_usize(self.0);
            m.append(digits.as_str());
            m.append(" charecters long");
            Err(ValidationError(m))
        }
    }
}

impl<T> Validation<Vec<T>> for MinLen {
    open spec fn ok(&self, value: &Vec<T>) -> bool {
        value@.len() >= self.0
    }

    open spec fn message(&self, value: &Vec<T>) -> Seq<char> {
        "Should at least "@ + dec_seq(self.0 as nat)
    }

    fn validate(&self, value: &Vec<T>) -> (r: Result<(), ValidationError>)
        ensures
            r is Ok <==> self.ok(value),
            r is Err ==> r->Err_0.0@ == self.message(value),
    {
        if value.len() >= self.0 {
            Ok(())
        } else {
            let mut m = String::new();
            m.append("Should at least ");
            let digits = crate::util::fmt_usize(self.0);
            m.append(digits.as_str());
            Err(ValidationError(m))
        }
    }
}

/// A bound on a value's length. For lists it is an upper bound; for
/// strings it passes when the string is at least as long as the bound.
pub struct MaxLen(pub usize);

impl Validation<String> for MaxLen {
    open spec fn ok(&self, value: &String) -> bool {
        value@.len() >= self.0
    }

    open spec fn message(&self, value: &String) -> Seq<char> {
        "at least length"@
    }

    fn validate(&self, value: &String) -> (r: Result<(), ValidationError>)
        ensures
            r is Ok <==> self.ok(value),
            r is Err ==> r->Err_0.0@ == self.message(value),
    {
        if value.as_str().unicode_len() >= self.0 {
            Ok(())
        } else {
            Err(ValidationError("at least length".to_owned()))
        }
    }
}

impl<T> Validation<Vec<T>> for MaxLen {
    open spec fn ok(&self, value: &Vec<T>) -> bool {
        value@.len() <= self.0
    }

    open spec fn message(&self, value: &Vec<T>) -> Seq<char> {
        "at least length"@
    }

    fn validate(&self, value: &Vec<T>) -> (r: Result<(), ValidationError>)
        ensures
            r is Ok <==> self.ok(value),
            r is Err ==> r->Err_0.0@ == self.message(value),
    {
        if value.len() <= self.0 {
            Ok(())
        } else {
            Err(ValidationError("at least length".to_owned()))
        }
    }
}

} // verus!
