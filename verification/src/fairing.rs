//! What a stage says of itself: its name and the phases it takes part in.

use vstd::prelude::*;

verus! {

/// The phases of an exchange that a stage takes part in.
#[derive(Clone, Copy, Debug, PartialEq, Eq, Structural)]
pub struct Kind {
    pub request: bool,
    pub response: bool,
}

impl Kind {
    /// The request phase alone.
    pub fn request() -> (r: Kind)
        ensures
            r == (Kind { request: true, response: false }),
    {
        Kind { request: true, response: false }
    }

    /// The response phase alone.
    pub fn response() -> (r: Kind)
        ensures
            r == (Kind { request: false, response: true }),
    {
        Kind { request: false, response: true }
    }

    /// The phases of either.
    pub fn or(self, other: Kind) -> (r: Kind)
        ensures
            r.request == (self.request || other.request),
            r.response == (self.response || other.response),
    {
        Kind { request: self.request || other.request, response: self.response || other.response }
    }

    /// Whether every phase of `other` is one of these.
    pub fn is(self, other: Kind) -> (r: bool)
        ensures
            r == ((other.request ==> self.request) && (other.response ==> self.response)),
    {
        (!other.request || self.request) && (!other.response || self.response)
    }
}

/// The name of a stage and the phases it takes part in.
#[derive(Clone, Copy, Debug)]
pub struct Info {
    pub name: &'static str,
    pub kind: Kind,
}

} // verus!
