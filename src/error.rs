//! What can go wrong in a command's round trip.
use vstd::prelude::*;
use crate::json::Json;

verus! {

/// The shape a reply's `value` was expected to have.
#[derive(Clone, Copy, Debug, PartialEq, Eq, Structural)]
pub enum Shape {
    /// A JSON string.
    Text,
}

/// A failed command.
#[derive(Debug)]
pub enum WebDriverError {
    /// The exchange did not complete: the endpoint could not be reached, the
    /// request timed out or the connection was reset. Holds the transport's
    /// own description.
    Transport(String),
    /// The driver answered, but not with a usable reply: the body is not
    /// JSON, or the status is not a success and the body holds no error
    /// object.
    MalformedResponse { status: u16 },
    /// The driver reported an error object: its code (such as
    /// `no such alert`) and its message, as the driver gave them.
    Protocol { status: u16, error: String, message: Option<String> },
    /// The reply's `value` does not have the shape the operation needs; holds
    /// what was found there (`None` where there was no `value`).
    Decode { expected: Shape, found: Option<Json> },
}

/// The result of a command.
pub type WebDriverResult<T> = Result<T, WebDriverError>;

} // verus!
