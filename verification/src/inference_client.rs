//! What the balancer sends to inference clients: streamed results of token
//! generation and embedding, and errors.
use vstd::prelude::*;

use crate::jsonrpc::ErrorEnvelope;
use crate::jsonrpc::JsonRpcError;
use crate::jsonrpc::ResponseEnvelope;

verus! {

/// One item of a token generation stream.
pub enum GeneratedTokenResult {
    /// The generation finished.
    Done,
    /// A generated piece of text.
    Token(String),
    /// The generation stopped with this error.
    Error(String),
}

/// One item of an embedding stream. The embedding vector is carried as the
/// JSON text the agent sent; the balancer forwards it without reading it.
pub enum EmbeddingResult {
    /// All embeddings of the batch were sent.
    Done,
    /// The embedding of one document.
    Embedding(String),
    /// Embedding failed with this error.
    Error(String),
}

/// A response streamed to an inference client.
pub enum Response {
    Embedding(EmbeddingResult),
    GeneratedToken(GeneratedTokenResult),
    Timeout,
    TooManyBufferedRequests,
}

/// A message sent to an inference client.
pub enum Message {
    Error(ErrorEnvelope<JsonRpcError>),
    Response(ResponseEnvelope<Response>),
}

impl Message {
    /// The message telling the client that request `request_id` failed.
    pub fn error(request_id: String, error: JsonRpcError) -> (res: Message)
        ensures
            res == Message::Error(ErrorEnvelope { request_id, error }),
    {
        Message::Error(ErrorEnvelope { request_id, error })
    }

    /// The message carrying a result of request `request_id` to the client.
    pub fn response(request_id: String, response: Response) -> (res: Message)
        ensures
            res == Message::Response(ResponseEnvelope { request_id, response }),
    {
        Message::Response(ResponseEnvelope { request_id, response })
    }
}

impl GeneratedTokenResult {
    pub open spec fn spec_is_done(&self) -> bool {
        self is Done
    }

    /// The stream ends with this item.
    pub fn is_done(&self) -> (res: bool)
        ensures
            res == self.spec_is_done(),
    {
        match self {
            GeneratedTokenResult::Done => true,
            _ => false,
        }
    }
}

impl EmbeddingResult {
    pub open spec fn spec_is_done(&self) -> bool {
        self is Done
    }

    /// The stream ends with this item.
    pub fn is_done(&self) -> (res: bool)
        ensures
            res == self.spec_is_done(),
    {
        match self {
            EmbeddingResult::Done => true,
            _ => false,
        }
    }
}

impl From<EmbeddingResult> for Response {
    fn from(result: EmbeddingResult) -> (res: Response) {
        Response::Embedding(result)
    }
}

impl vstd::std_specs::convert::FromSpecImpl<EmbeddingResult> for Response {
    open spec fn obeys_from_spec() -> bool {
        true
    }

    open spec fn from_spec(result: EmbeddingResult) -> Response {
        Response::Embedding(result)
    }
}

impl From<GeneratedTokenResult> for Response {
    fn from(result: GeneratedTokenResult) -> (res: Response) {
        Response::GeneratedToken(result)
    }
}

impl vstd::std_specs::convert::FromSpecImpl<GeneratedTokenResult> for Response {
    open spec fn obeys_from_spec() -> bool {
        true
    }

    open spec fn from_spec(result: GeneratedTokenResult) -> Response {
        Response::GeneratedToken(result)
    }
}

} // verus!
