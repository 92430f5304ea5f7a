//! The error payload that every handler returns when a request fails.

use vstd::prelude::*;

verus! {

/// A human-readable error message, sent back to the caller as the body of a
/// failed response.
#[derive(Debug, Clone)]
pub struct ServerError {
    pub error_message: String,
}

impl ServerError {
    /// Wraps a message in a `ServerError`.
    pub fn with_message(message: &str) -> (result: ServerError)
        ensures
            result.error_message@ == message@,
    {
        ServerError { error_message: message.to_owned() }
    }
}

} // verus!
