//! Request methods, and the four verbs that a transport speaks.

use vstd::prelude::*;

verus! {

/// An HTTP request method, as a caller names it.
#[derive(Clone, Debug, PartialEq, Eq)]
pub enum Method {
    Options,
    Get,
    Post,
    Put,
    Delete,
    Head,
    Trace,
    Connect,
    Patch,
    /// Any method without a variant of its own.
    Extension(String),
}

/// A verb that a transport puts on the wire.
#[derive(Clone, Copy, Debug, PartialEq, Eq, Structural)]
pub enum Verb {
    Get,
    Put,
    Post,
    Delete,
}

impl Method {
    /// The verb sent for this method: `PUT`, `POST` and `DELETE` stand for
    /// themselves, and every other method is sent as `GET`.
    pub open spec fn spec_verb(self) -> Verb {
        match self {
            Method::Put => Verb::Put,
            Method::Post => Verb::Post,
            Method::Delete => Verb::Delete,
            _ => Verb::Get,
        }
    }

    pub fn verb(&self) -> (v: Verb)
        ensures
            v == self.spec_verb(),
    {
        match self {
            Method::Put => Verb::Put,
            Method::Post => Verb::Post,
            Method::Delete => Verb::Delete,
            _ => Verb::Get,
        }
    }
}

impl Verb {
    /// The verb as it is spelled in a request line.
    pub open spec fn spec_name(self) -> Seq<char> {
        match self {
            Verb::Get => "GET"@,
            Verb::Put => "PUT"@,
            Verb::Post => "POST"@,
            Verb::Delete => "DELETE"@,
        }
    }

    pub fn name(&self) -> (s: &'static str)
        ensures
            s@ == self.spec_name(),
    {
        match self {
            Verb::Get => "GET",
            Verb::Put => "PUT",
            Verb::Post => "POST",
            Verb::Delete => "DELETE",
        }
    }
}

} // verus!
