//! The errors that the canvas and the frame report.

use vstd::prelude::*;

verus! {

/// Why an operation was refused. Each variant carries the message for the
/// embedder.
#[derive(Debug, PartialEq, Eq)]
pub enum Error {
    /// An argument is out of range or malformed.
    Validation(String),
    /// The operation is reserved but has no implementation.
    NotImplemented(String),
    /// The operation is not allowed in the state the frame is in.
    State(String),
}

impl Error {
    /// The text of the message.
    pub open spec fn text(&self) -> Seq<char> {
        match self {
            Error::Validation(message) => message@,
            Error::NotImplemented(message) => message@,
            Error::State(message) => message@,
        }
    }

    /// The message for the embedder.
    pub fn message(&self) -> (message: &str)
        ensures
            message@ == self.text(),
    {
        match self {
            Error::Validation(message) => message.as_str(),
            Error::NotImplemented(message) => message.as_str(),
            Error::State(message) => message.as_str(),
        }
    }
}

} // verus!
