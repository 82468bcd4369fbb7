//! The errors that the room reports.

use vstd::prelude::*;

verus! {

/// What went wrong, with the message that describes it.
#[derive(Debug)]
pub enum ChatErrorKind {
    /// A client that is not in the registry was to be removed.
    RemoveClientError(&'static str),
}

impl ChatErrorKind {
    /// The message carried by this kind, as a sequence of characters.
    pub open spec fn message(&self) -> Seq<char> {
        match self {
            ChatErrorKind::RemoveClientError(msg) => msg@,
        }
    }

    /// Returns the message carried by this kind.
    pub fn get_message(&self) -> (msg: &'static str)
        ensures
            msg@ == self.message(),
    {
        match self {
            ChatErrorKind::RemoveClientError(msg) => msg,
        }
    }
}

/// An error of the chat room. It wraps the kind of failure.
#[derive(Debug)]
pub struct ChatError {
    kind: ChatErrorKind,
}

impl ChatError {
    /// The kind of failure that this error wraps.
    pub closed spec fn kind(&self) -> ChatErrorKind {
        self.kind
    }

    /// Wraps `kind` in an error.
    pub fn new(kind: ChatErrorKind) -> (err: Self)
        ensures
            err.kind() == kind,
    {
        Self { kind }
    }

    /// A short description of the error: the message of its kind.
    pub fn description(&self) -> (msg: &'static str)
        ensures
            msg@ == self.kind().message(),
    {
        self.kind.get_message()
    }

    /// The error as displayed text: the message of its kind.
    pub fn to_string(&self) -> (text: String)
        ensures
            text@ == self.kind().message(),
    {
        String::from_str(self.kind.get_message())
    }
}

} // verus!
