use vstd::prelude::*;

use crate::ddd::value::{Val, ValView, vview};

verus! {

/// An opaque, immutable wrapper around an arbitrary structured value: the
/// body of a message.
#[derive(Debug, PartialEq)]
pub struct Payload {
    inner: Val,
}

impl View for Payload {
    type V = ValView;

    closed spec fn view(&self) -> ValView {
        vview(self.inner)
    }
}

impl Payload {
    /// Wraps the given structured value.
    pub fn new(payload: Val) -> (r: Payload)
        ensures
            r@ == payload@,
    {
        Payload { inner: payload }
    }

    /// Read-only access to the wrapped value.
    pub fn value(&self) -> (r: &Val)
        ensures
            r@ == self@,
    {
        &self.inner
    }

    /// A copy of this payload; the copy wraps the same value.
    pub fn dup(&self) -> (r: Payload)
        ensures
            r@ == self@,
    {
        Payload { inner: self.inner.dup() }
    }
}

impl Clone for Payload {
    /// The copy wraps the same value.
    fn clone(&self) -> (r: Payload)
        ensures
            r@ == self@,
    {
        self.dup()
    }
}

} // verus!
