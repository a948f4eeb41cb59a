//! The errors that the library reports.

pub use crate::types::redraw::DecodeError;
use crate::value::{Value, ValueView};
use vstd::prelude::*;

verus! {

/// Failure to turn bytes into a message, or a message into bytes.
#[derive(Clone, Copy, Debug, PartialEq, Eq, Structural)]
pub enum CodecError {
    /// The bytes are no msgpack value, or the value has not the shape of a
    /// message: not an array, not of the arity of its type, or with a field
    /// of the wrong type.
    Malformed,
    /// The message's type tag is none of request, response, notification.
    UnknownType(u64),
    /// The stream failed or ended.
    Io,
    /// The wire cannot carry the message: a string, a byte string or a
    /// collection in it is longer than the format can say, or its arrays and
    /// maps nest deeper than the library goes.
    TooLarge,
}

/// A breach of the pairing of calls and answers.
#[derive(Clone, Copy, Debug, PartialEq, Eq, Structural)]
pub enum CorrelationError {
    /// The next request id is still in use by a call that waits for its
    /// answer.
    IdCollision(u32),
}

/// Failure to take in a response.
#[derive(Clone, Copy, Debug, PartialEq, Eq, Structural)]
pub enum HandleError {
    /// No call with the response's id waits for an answer.
    UnknownId(u32),
}

/// What the caller of a method gets in place of a result.
#[derive(Clone, Debug, PartialEq, Eq)]
pub enum CallError {
    /// The peer answered with this error value.
    Remote(Value),
    /// The request could not be written: the transport failed, or the wire
    /// cannot carry the request.
    Io,
    /// The connection closed before the answer came.
    ConnectionClosed,
    /// The call could not be told apart from one still under way.
    Correlation(CorrelationError),
}

/// Mathematical model of a [`CallError`].
pub enum CallErrorView {
    Remote(ValueView),
    Io,
    ConnectionClosed,
    Correlation(CorrelationError),
}

impl DeepView for CallError {
    type V = CallErrorView;

    open spec fn deep_view(&self) -> CallErrorView {
        match self {
            CallError::Remote(v) => CallErrorView::Remote(v@),
            CallError::Io => CallErrorView::Io,
            CallError::ConnectionClosed => CallErrorView::ConnectionClosed,
            CallError::Correlation(e) => CallErrorView::Correlation(*e),
        }
    }
}

impl View for CallError {
    type V = CallErrorView;

    open spec fn view(&self) -> CallErrorView {
        self.deep_view()
    }
}

} // verus!
