//! The failures the client reports to its caller.

use vstd::prelude::*;

verus! {

/// Every failure is returned to the immediate caller as a typed value;
/// nothing is retried or swallowed at this layer.
#[derive(Debug, PartialEq)]
pub enum Error {
    /// Network, HTTP or JSON-parsing failure at the transport boundary.
    Transport(String),
    /// The remote server rejected authentication, or authentication
    /// could not be completed.
    Auth(String),
    /// The response envelope carried a remote-side error; the server's
    /// message is surfaced verbatim.
    Remote(String),
    /// An authenticated-only operation was invoked before a successful
    /// login. Detected locally, before any request is built.
    Unauthenticated,
    /// The response could not be coerced into the expected shape.
    Decode(String),
}

impl Error {
    /// The human-readable text carried by the error.
    pub open spec fn message_spec(&self) -> Seq<char> {
        match self {
            Error::Transport(s) => s@,
            Error::Auth(s) => s@,
            Error::Remote(s) => s@,
            Error::Unauthenticated => "not authenticated"@,
            Error::Decode(s) => s@,
        }
    }

    pub fn message(&self) -> (m: &str)
        ensures
            m@ == self.message_spec(),
    {
        match self {
            Error::Transport(s) => s.as_str(),
            Error::Auth(s) => s.as_str(),
            Error::Remote(s) => s.as_str(),
            Error::Unauthenticated => "not authenticated",
            Error::Decode(s) => s.as_str(),
        }
    }
}

} // verus!
