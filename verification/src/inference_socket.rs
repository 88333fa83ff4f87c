//! The JSON-RPC messages inference clients send over the inference socket,
//! and what the balancer does with each.
use vstd::prelude::*;

use crate::inference_flow::InferenceRequestKind;
use crate::jsonrpc::JsonRpcError;
use crate::jsonrpc::RequestEnvelope;

verus! {

/// One message of a conversation.
pub struct ConversationMessage {
    pub role: String,
    pub content: String,
}

/// Continue a conversation: the agent applies its chat template.
pub struct ContinueFromConversationHistoryParams {
    pub conversation_history: Vec<ConversationMessage>,
    pub max_tokens: i32,
}

/// Continue a prompt given verbatim.
pub struct ContinueFromRawPromptParams {
    pub max_tokens: i32,
    pub raw_prompt: String,
}

/// Generate tokens for a prompt.
pub struct GenerateTokensParams {
    pub max_tokens: i32,
    pub prompt: String,
}

/// A request a client can make.
pub enum Request {
    ContinueFromConversationHistory(ContinueFromConversationHistoryParams),
    ContinueFromRawPrompt(ContinueFromRawPromptParams),
}

/// A message a client sends.
pub enum Message {
    Error(JsonRpcError),
    Request(RequestEnvelope<Request>),
}

/// A notification a client sends.
pub enum Notification {
    GenerateTokens(GenerateTokensParams),
}

/// What the socket does with a client message.
#[derive(PartialEq, Eq, Structural, Debug, Clone, Copy)]
pub enum InferenceMessageAction {
    /// Log the client's error and keep reading.
    LogError,
    /// Serve the request of this kind, then keep reading.
    Serve(InferenceRequestKind),
    /// Validate the conversation's parameters first; serve it only when they
    /// are valid (see `action_after_validation`).
    ValidateThenServe,
}

/// What the socket does with a client message; the socket keeps reading
/// after every message it serves or logs. A conversation is validated before
/// any request is made for it.
pub fn inference_message_action(message: &Message) -> (res: InferenceMessageAction)
    ensures
        match message {
            Message::Error(_) => res == InferenceMessageAction::LogError,
            Message::Request(envelope) => match envelope.request {
                Request::ContinueFromConversationHistory(_) => res
                    == InferenceMessageAction::ValidateThenServe,
                Request::ContinueFromRawPrompt(_) => res == InferenceMessageAction::Serve(
                    InferenceRequestKind::RawPrompt,
                ),
            },
        },
{
    match message {
        Message::Error(_) => InferenceMessageAction::LogError,
        Message::Request(envelope) => match &envelope.request {
            Request::ContinueFromConversationHistory(_) => InferenceMessageAction::ValidateThenServe,
            Request::ContinueFromRawPrompt(_) => InferenceMessageAction::Serve(
                InferenceRequestKind::RawPrompt,
            ),
        },
    }
}

/// What follows the validation of a conversation's parameters: the
/// conversation is served when they are valid; otherwise the validation's
/// error ends the handling of the message, and no request is made.
pub fn action_after_validation<E>(validation: Result<(), E>) -> (res: Result<InferenceMessageAction, E>)
    ensures
        match validation {
            Ok(()) => res matches Ok(action) && action == InferenceMessageAction::Serve(
                InferenceRequestKind::ConversationHistory,
            ),
            Err(e) => res matches Err(f) && f == e,
        },
{
    match validation {
        Ok(()) => Ok(InferenceMessageAction::Serve(InferenceRequestKind::ConversationHistory)),
        Err(e) => Err(e),
    }
}

} // verus!
