//! The library's error type.
use vstd::prelude::*;

verus! {

/// What a request to the service can fail with.
#[derive(Debug, Clone)]
pub enum Error {
    /// The connection or the call failed, or the service rejected the call.
    Transport(String),
    /// A reply did not have the shape its call promises.
    Decode(String),
    /// The operation itself failed.
    CommandError(String),
    /// The operation named an object that does not exist.
    NotFound(String),
}

/// The text of an error, as shown to a user.
pub open spec fn error_text(e: Error) -> Seq<char> {
    match e {
        Error::Transport(s) => "D-Bus error: "@ + s@,
        Error::Decode(s) => "D-Bus variant error: "@ + s@,
        Error::CommandError(s) => "Command error: "@ + s@,
        Error::NotFound(s) => "Not found: "@ + s@,
    }
}

/// `head` followed by `tail`.
pub fn joined(head: &str, tail: &str) -> (r: String)
    ensures
        r@ == head@ + tail@,
{
    let mut r = String::from_str(head);
    r.append(tail);
    r
}

impl Error {
    /// The text of the error, as shown to a user.
    pub fn message(&self) -> (r: String)
        ensures
            r@ == error_text(*self),
    {
        match self {
            Error::Transport(s) => joined("D-Bus error: ", s.as_str()),
            Error::Decode(s) => joined("D-Bus variant error: ", s.as_str()),
            Error::CommandError(s) => joined("Command error: ", s.as_str()),
            Error::NotFound(s) => joined("Not found: ", s.as_str()),
        }
    }
}

} // verus!
