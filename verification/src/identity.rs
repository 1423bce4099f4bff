//! The identity of a caller.

use vstd::prelude::*;

verus! {

/// The identity under which a request is served.
#[derive(Debug)]
pub struct ClientId(String);

impl View for ClientId {
    type V = Seq<char>;

    /// The identity's text.
    closed spec fn view(&self) -> Seq<char> {
        self.0@
    }
}

impl ClientId {
    /// The identity with the given text.
    pub fn new(text: String) -> (id: ClientId)
        ensures
            id@ == text@,
    {
        ClientId(text)
    }

    /// A copy of the identity's text.
    pub fn inner(&self) -> (text: String)
        ensures
            text@ == self@,
    {
        self.0.clone()
    }
}

} // verus!
