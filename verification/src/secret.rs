//! A wrapper that keeps secret text out of casual printing.

use vstd::prelude::*;

verus! {

/// A secret string. The value is only reachable through
/// [`Secret::expose_secret`], the designated output point; the type has
/// no `Debug` or display impl that could leak it.
pub struct Secret {
    value: String,
}

impl View for Secret {
    type V = Seq<char>;

    closed spec fn view(&self) -> Seq<char> {
        self.value@
    }
}

impl Secret {
    pub fn new(value: String) -> (s: Secret)
        ensures
            s@ == value@,
    {
        Secret { value }
    }

    /// The single designated point where the raw value leaves the wrapper.
    pub fn expose_secret(&self) -> (v: &str)
        ensures
            v@ == self@,
    {
        self.value.as_str()
    }
}

} // verus!
