//! What can go wrong, and why.

use vstd::prelude::*;

verus! {

/// Why a JSON document does not fit a record.
#[derive(Clone, Copy, Debug, PartialEq, Eq)]
pub enum DecodeError {
    /// The document is not an object.
    NotAnObject,
    /// The object has no member of this name.
    Missing(&'static str),
    /// The member of this name holds a value of the wrong kind, or a number
    /// out of the field's range.
    Mistyped(&'static str),
}

/// The cause of a failed request.
#[derive(Debug)]
pub enum Failure {
    /// The round trip itself failed; the transport's account of it.
    Transport(String),
    /// The device answered with a status outside 200 to 299.
    Status(u16),
    /// The body is not JSON text; the parser's complaint.
    Syntax(String),
    /// The body is JSON, but not the record that was asked for.
    Schema(DecodeError),
}

/// The errors of this library.
#[derive(Debug)]
pub enum Error {
    /// The URL is valid, but nothing can be resolved against it; it is
    /// carried in its normal form.
    InvalidBase(String),
    /// The text is no URL.
    InvalidUrl(url::ParseError),
    /// A request failed: in transit, by its status, or in decoding.
    Request(Failure),
}

/// A [`Failure`] with its text as a sequence of characters.
pub enum FailureView {
    Transport(Seq<char>),
    Status(u16),
    Syntax(Seq<char>),
    Schema(DecodeError),
}

/// An [`Error`] with its text as a sequence of characters.
pub enum ErrorView {
    InvalidBase(Seq<char>),
    InvalidUrl(url::ParseError),
    Request(FailureView),
}

impl View for Failure {
    type V = FailureView;

    open spec fn view(&self) -> FailureView {
        match *self {
            Failure::Transport(account) => FailureView::Transport(account@),
            Failure::Status(status) => FailureView::Status(status),
            Failure::Syntax(complaint) => FailureView::Syntax(complaint@),
            Failure::Schema(error) => FailureView::Schema(error),
        }
    }
}

impl View for Error {
    type V = ErrorView;

    open spec fn view(&self) -> ErrorView {
        match *self {
            Error::InvalidBase(url) => ErrorView::InvalidBase(url@),
            Error::InvalidUrl(error) => ErrorView::InvalidUrl(error),
            Error::Request(failure) => ErrorView::Request(failure@),
        }
    }
}

impl Error {
    /// The text that describes each kind of error.
    pub open spec fn message_of(self) -> &'static str {
        match self {
            Error::InvalidBase(_) => "invalid API URL: cannot be a valid base",
            Error::InvalidUrl(_) => "invalid API URL",
            Error::Request(_) => "request error",
        }
    }

    /// A short description of the error, the same for every error of a kind.
    pub fn message(&self) -> (text: &'static str)
        ensures
            text == self.message_of(),
    {
        match self {
            Error::InvalidBase(_) => "invalid API URL: cannot be a valid base",
            Error::InvalidUrl(_) => "invalid API URL",
            Error::Request(_) => "request error",
        }
    }
}

} // verus!
