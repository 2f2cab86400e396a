//! An option the user can choose.
//!
//! (Since the name "Option" is reserved for the well-known type representing
//! nullability, this one is called "Choice".)

use vstd::prelude::*;

verus! {

/// An option the user can choose: user-visible text paired with an internal
/// value.
pub trait Choice {
    /// Internal value representing this choice.
    type Value;

    /// The user-visible text, mathematically.
    spec fn text_spec(&self) -> Seq<char>;

    /// The internal value, mathematically.
    spec fn value_spec(&self) -> Self::Value;

    /// Get the user-visible text.
    fn text(&self) -> (r: &str)
        ensures
            r@ == self.text_spec(),
    ;

    /// Get a reference to the value of this choice.
    fn value(&self) -> (r: &Self::Value)
        ensures
            *r == self.value_spec(),
    ;
}

impl Choice for String {
    type Value = String;

    open spec fn text_spec(&self) -> Seq<char> {
        self@
    }

    open spec fn value_spec(&self) -> String {
        *self
    }

    fn text(&self) -> (r: &str)
        ensures
            r@ == self.text_spec(),
    {
        self.as_str()
    }

    fn value(&self) -> (r: &String)
        ensures
            *r == self.value_spec(),
    {
        self
    }
}

impl<'a> Choice for &'a str {
    type Value = &'a str;

    open spec fn text_spec(&self) -> Seq<char> {
        (*self)@
    }

    open spec fn value_spec(&self) -> &'a str {
        *self
    }

    fn text(&self) -> (r: &str)
        ensures
            r@ == self.text_spec(),
    {
        *self
    }

    fn value(&self) -> (r: &&'a str)
        ensures
            *r == self.value_spec(),
    {
        self
    }
}

impl<V> Choice for (String, V) {
    type Value = V;

    open spec fn text_spec(&self) -> Seq<char> {
        self.0@
    }

    open spec fn value_spec(&self) -> V {
        self.1
    }

    fn text(&self) -> (r: &str)
        ensures
            r@ == self.text_spec(),
    {
        self.0.as_str()
    }

    fn value(&self) -> (r: &V)
        ensures
            *r == self.value_spec(),
    {
        &self.1
    }
}

} // verus!
