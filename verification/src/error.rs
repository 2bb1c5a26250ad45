//! The failures that a dispatched request can end in.

use vstd::prelude::*;

verus! {

/// Why a request did not produce a value.
#[derive(Debug, Clone, PartialEq, Eq)]
pub enum Error {
    /// The connection failed, timed out or was abandoned: no response arrived.
    Transport,
    /// A successful response arrived, but its body does not have the expected
    /// shape. Only the length of the body is kept.
    Serialization { body_len: usize },
    /// The server answered 404.
    NotFound,
    /// The server answered with another status outside 200..=299. The message
    /// is the one the server gave, or empty.
    Api { status: u16, message: String },
}

/// What an [`Error`] says, as a mathematical value.
pub enum ErrorView {
    Transport,
    Serialization { body_len: nat },
    NotFound,
    Api { status: u16, message: Seq<char> },
}

impl View for Error {
    type V = ErrorView;

    open spec fn view(&self) -> ErrorView {
        match *self {
            Error::Transport => ErrorView::Transport,
            Error::Serialization { body_len } => ErrorView::Serialization { body_len: body_len as nat },
            Error::NotFound => ErrorView::NotFound,
            Error::Api { status, message } => ErrorView::Api { status, message: message@ },
        }
    }
}

impl Error {
    /// Whether this error reports an absent resource.
    pub fn is_not_found(&self) -> (r: bool)
        ensures
            r == (self@ is NotFound),
    {
        match self {
            Error::NotFound => true,
            _ => false,
        }
    }

    /// The status that the server answered with, for the errors that come
    /// from a response with a status outside 200..=299.
    pub fn status(&self) -> (r: Option<u16>)
        ensures
            r == match self@ {
                ErrorView::NotFound => Some(404u16),
                ErrorView::Api { status, .. } => Some(status),
                _ => None,
            },
    {
        match self {
            Error::NotFound => Some(404),
            Error::Api { status, .. } => Some(*status),
            _ => None,
        }
    }
}

} // verus!
