use vstd::prelude::*;

verus! {

/// The JSON-RPC code for a malformed request.
pub const INVALID_REQUEST: i32 = -32600;

/// The JSON-RPC code for a method the endpoint does not serve.
pub const METHOD_NOT_FOUND: i32 = -32601;

/// The JSON-RPC code for parameters the method cannot accept.
pub const INVALID_PARAMS: i32 = -32602;

/// The JSON-RPC code for a failure inside the handler.
pub const INTERNAL_ERROR: i32 = -32603;

/// The one error type of every handling operation, whatever the role.
///
/// It carries a protocol error code and a message, which is all that is
/// needed to render it as an error response to the peer.
#[derive(Debug, Clone, PartialEq, Eq)]
pub struct Error {
    pub code: i32,
    pub message: String,
}

impl Error {
    /// An error with the given code and message.
    pub fn new(code: i32, message: String) -> (r: Self)
        ensures
            r.code == code,
            r.message == message,
    {
        Error { code, message }
    }

    /// A failure inside a handler.
    pub fn internal_error(message: String) -> (r: Self)
        ensures
            r.code == INTERNAL_ERROR,
            r.message == message,
    {
        Error::new(INTERNAL_ERROR, message)
    }

    /// A request for a method that this endpoint does not serve.
    pub fn method_not_found(message: String) -> (r: Self)
        ensures
            r.code == METHOD_NOT_FOUND,
            r.message == message,
    {
        Error::new(METHOD_NOT_FOUND, message)
    }

    /// A request whose parameters this endpoint cannot accept.
    pub fn invalid_params(message: String) -> (r: Self)
        ensures
            r.code == INVALID_PARAMS,
            r.message == message,
    {
        Error::new(INVALID_PARAMS, message)
    }
}

} // verus!
