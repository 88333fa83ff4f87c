//! The JSON-RPC envelopes the balancer exchanges with clients and agents.
use vstd::prelude::*;

verus! {

/// An error answered to a request: a status-like code and a description.
pub struct JsonRpcError {
    pub code: i32,
    pub description: String,
}

/// An error that belongs to the request `request_id`.
pub struct ErrorEnvelope<E> {
    pub request_id: String,
    pub error: E,
}

/// A response to the request `request_id`.
pub struct ResponseEnvelope<R> {
    pub request_id: String,
    pub response: R,
}

/// A request with the id its responses will carry.
pub struct RequestEnvelope<R> {
    pub id: String,
    pub request: R,
}

impl JsonRpcError {
    /// The error has this code and this description.
    pub open spec fn is(&self, code: i32, description: Seq<char>) -> bool {
        self.code == code && self.description@ == description
    }

    pub fn new(code: i32, description: &str) -> (res: JsonRpcError)
        ensures
            res.is(code, description@),
    {
        JsonRpcError { code, description: description.to_owned() }
    }
}

} // verus!
