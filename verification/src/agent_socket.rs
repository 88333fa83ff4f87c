//! The JSON-RPC messages agents send over the agent socket, and what the
//! balancer does with each.
use vstd::prelude::*;

use crate::chat_template::ChatTemplateModel;
use crate::inference_client::EmbeddingResult;
use crate::inference_client::GeneratedTokenResult;
use crate::jsonrpc::ErrorEnvelope;
use crate::jsonrpc::JsonRpcError;
use crate::jsonrpc::ResponseEnvelope;

verus! {

/// What an agent reports about its slots and its model.
pub struct SlotAggregatedStatusSnapshot {
    pub desired_slots_total: i32,
    pub download_current: usize,
    pub download_filename: Option<String>,
    pub download_total: usize,
    /// Descriptions of the problems the agent has.
    pub issues: Vec<String>,
    pub model_path: Option<String>,
    pub slots_processing: i32,
    pub slots_total: i32,
    /// The code of the agent's state application status.
    pub state_application_status: i32,
    pub uses_chat_template_override: bool,
    pub version: i32,
}

/// An agent introduces itself.
pub struct RegisterAgentParams {
    pub name: Option<String>,
    pub slot_aggregated_status_snapshot: SlotAggregatedStatusSnapshot,
}

/// An agent reports a new status.
pub struct UpdateAgentStatusParams {
    pub slot_aggregated_status_snapshot: SlotAggregatedStatusSnapshot,
}

/// A notification an agent sends.
pub enum Notification {
    DeregisterAgent,
    RegisterAgent(RegisterAgentParams),
    UpdateAgentStatus(UpdateAgentStatusParams),
}

/// Metadata of the model an agent serves, as key/value pairs.
pub struct ModelMetadata {
    pub metadata: Vec<(String, String)>,
}

/// A generated token together with the slot that generated it.
pub struct GeneratedTokenEnvelope {
    pub slot: u32,
    pub generated_token_result: GeneratedTokenResult,
}

/// A response an agent sends to a request of the balancer.
pub enum AgentResponse {
    ChatTemplateOverride(Option<ChatTemplateModel>),
    Embedding(EmbeddingResult),
    GeneratedToken(GeneratedTokenEnvelope),
    ModelMetadata(Option<ModelMetadata>),
}

/// A message an agent sends.
pub enum Message {
    Error(ErrorEnvelope<JsonRpcError>),
    Notification(Notification),
    Response(ResponseEnvelope<AgentResponse>),
}

/// Which waiting requests a response of an agent belongs to.
#[derive(PartialEq, Eq, Structural, Debug, Clone, Copy)]
pub enum SenderCollectionKind {
    ChatTemplateOverride,
    Embedding,
    GeneratedTokens,
    ModelMetadata,
}

/// What the socket does with an agent message.
#[derive(PartialEq, Eq, Structural, Debug, Clone, Copy)]
pub enum AgentMessageAction {
    /// Log the agent's error.
    LogError,
    /// Close the agent's connection.
    Deregister,
    /// Register the agent in the pool with its status.
    Register,
    /// Update the registered agent's status.
    UpdateStatus,
    /// Hand the response to the request waiting for it in this collection.
    ForwardResponse(SenderCollectionKind),
}

/// Whether the socket goes on reading messages.
#[derive(PartialEq, Eq, Structural, Debug, Clone, Copy)]
pub enum ContinuationDecision {
    Continue,
    Stop,
}

/// What the socket does with an agent message.
pub fn agent_message_action(message: &Message) -> (res: AgentMessageAction)
    ensures
        match message {
            Message::Error(_) => res == AgentMessageAction::LogError,
            Message::Notification(Notification::DeregisterAgent) => res
                == AgentMessageAction::Deregister,
            Message::Notification(Notification::RegisterAgent(_)) => res
                == AgentMessageAction::Register,
            Message::Notification(Notification::UpdateAgentStatus(_)) => res
                == AgentMessageAction::UpdateStatus,
            Message::Response(envelope) => match envelope.response {
                AgentResponse::ChatTemplateOverride(_) => res == AgentMessageAction::ForwardResponse(
                    SenderCollectionKind::ChatTemplateOverride,
                ),
                AgentResponse::Embedding(_) => res == AgentMessageAction::ForwardResponse(
                    SenderCollectionKind::Embedding,
                ),
                AgentResponse::GeneratedToken(_) => res == AgentMessageAction::ForwardResponse(
                    SenderCollectionKind::GeneratedTokens,
                ),
                AgentResponse::ModelMetadata(_) => res == AgentMessageAction::ForwardResponse(
                    SenderCollectionKind::ModelMetadata,
                ),
            },
        },
{
    match message {
        Message::Error(_) => AgentMessageAction::LogError,
        Message::Notification(Notification::DeregisterAgent) => AgentMessageAction::Deregister,
        Message::Notification(Notification::RegisterAgent(_)) => AgentMessageAction::Register,
        Message::Notification(Notification::UpdateAgentStatus(_)) => AgentMessageAction::UpdateStatus,
        Message::Response(envelope) => match &envelope.response {
            AgentResponse::ChatTemplateOverride(_) => AgentMessageAction::ForwardResponse(
                SenderCollectionKind::ChatTemplateOverride,
            ),
            AgentResponse::Embedding(_) => AgentMessageAction::ForwardResponse(
                SenderCollectionKind::Embedding,
            ),
            AgentResponse::GeneratedToken(_) => AgentMessageAction::ForwardResponse(
                SenderCollectionKind::GeneratedTokens,
            ),
            AgentResponse::ModelMetadata(_) => AgentMessageAction::ForwardResponse(
                SenderCollectionKind::ModelMetadata,
            ),
        },
    }
}

/// The socket stops reading only after the agent deregisters (when the
/// deregistration is handled without error, see `deregistration_outcome`).
pub fn continuation_after(action: AgentMessageAction) -> (res: ContinuationDecision)
    ensures
        res == (if action == AgentMessageAction::Deregister {
            ContinuationDecision::Stop
        } else {
            ContinuationDecision::Continue
        }),
{
    match action {
        AgentMessageAction::Deregister => ContinuationDecision::Stop,
        _ => ContinuationDecision::Continue,
    }
}

/// Why handling a deregistration failed.
#[derive(PartialEq, Eq, Structural, Debug, Clone, Copy)]
pub enum DeregisterError {
    /// The close signal reached no one: nothing listens to the connection's
    /// close.
    CloseSignalUndelivered,
}

/// How the handling of a deregistration ends, once the close signal was
/// broadcast: the socket stops reading when the signal was delivered, and
/// the handling fails when no one received it.
pub fn deregistration_outcome(close_signal_delivered: bool) -> (res: Result<
    ContinuationDecision,
    DeregisterError,
>)
    ensures
        close_signal_delivered ==> (res matches Ok(d) && d == ContinuationDecision::Stop),
        !close_signal_delivered ==> (res matches Err(e) && e
            == DeregisterError::CloseSignalUndelivered),
{
    if close_signal_delivered {
        Ok(ContinuationDecision::Stop)
    } else {
        Err(DeregisterError::CloseSignalUndelivered)
    }
}

} // verus!
