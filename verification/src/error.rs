//! The failure taxonomy: construction, transport and decode failures are
//! distinct, inspectable outcomes, and none is ever downgraded to a
//! default value.

use vstd::prelude::*;

verus! {

/// Model of a decode failure.
pub enum DecodeErrorView {
    Malformed(Seq<char>),
    MissingField(Seq<char>),
    WrongType(Seq<char>),
}

/// A failure of the application-level decoding step. Carries the path of
/// the offending field inside the payload (`"price"`, `"teaser[2].width"`),
/// or, for a body that is not JSON at all, the parser's message.
#[derive(Debug, PartialEq, Eq)]
pub enum DecodeError {
    /// The body is not well-formed JSON.
    Malformed(String),
    /// A required field is absent from the payload.
    MissingField(String),
    /// A field holds a value of an unexpected type.
    WrongType(String),
}

impl View for DecodeError {
    type V = DecodeErrorView;

    open spec fn view(&self) -> DecodeErrorView {
        match self {
            DecodeError::Malformed(s) => DecodeErrorView::Malformed(s@),
            DecodeError::MissingField(s) => DecodeErrorView::MissingField(s@),
            DecodeError::WrongType(s) => DecodeErrorView::WrongType(s@),
        }
    }
}

/// Model of a fetch-operation failure.
pub enum ErrorView {
    Construction(Seq<char>),
    Transport(Seq<char>),
    Decode(DecodeErrorView),
}

/// A failure of a fetch operation, by layer.
#[derive(Debug, PartialEq, Eq)]
pub enum Error {
    /// Failed before any network activity: a malformed authorization
    /// header value or proxy URL.
    Construction(String),
    /// A network-level failure, as the transport reported it.
    Transport(String),
    /// An application-level decode failure.
    Decode(DecodeError),
}

impl View for Error {
    type V = ErrorView;

    open spec fn view(&self) -> ErrorView {
        match self {
            Error::Construction(s) => ErrorView::Construction(s@),
            Error::Transport(s) => ErrorView::Transport(s@),
            Error::Decode(e) => ErrorView::Decode(e@),
        }
    }
}

} // verus!
