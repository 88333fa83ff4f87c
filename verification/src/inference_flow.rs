//! The decisions an inference request goes through: waiting for an agent
//! with a free slot, starting the work on it, and relaying its results to the
//! client until the stream ends. The waiting, sending and timing happen
//! outside; each function here maps what happened to what to do next.
use vstd::prelude::*;

use crate::jsonrpc::JsonRpcError;

verus! {

/// How waiting for an agent with a free slot ended.
#[derive(PartialEq, Eq, Structural, Debug, Clone, Copy)]
pub enum AgentWaitOutcome {
    /// The client closed the connection first.
    ConnectionClosed,
    /// An agent was found.
    Found,
    /// Too many requests were already waiting.
    BufferOverflow,
    /// No slot became free in time.
    Timeout,
    /// Waiting failed.
    Failed,
}

/// What to do after waiting for an agent.
pub enum WaitDecision {
    /// Start the request on the agent that was found.
    Proceed,
    /// End quietly.
    Stop,
    /// Send this error to the client, then end.
    Refuse(JsonRpcError),
}

/// Which kind of request is being served.
#[derive(PartialEq, Eq, Structural, Debug, Clone, Copy)]
pub enum InferenceRequestKind {
    /// A request relayed through the generic agent streaming path.
    AgentStream,
    /// Continue a conversation history.
    ConversationHistory,
    /// Continue a raw prompt.
    RawPrompt,
}

/// What happened while relaying results of a request.
#[derive(PartialEq, Eq, Structural, Debug, Clone, Copy)]
pub enum StreamEvent {
    /// The agent's connection closed.
    AgentDisconnected,
    /// The client's connection closed.
    ClientDisconnected,
    /// No result came in time.
    TimedOut,
    /// The agent sent a result; `is_done` when it is the last one.
    Item { is_done: bool },
    /// A result could not be sent to the client.
    ItemNotDelivered,
    /// The agent's result channel closed.
    ChannelClosed,
}

/// What to do after a stream event, in this order: send `respond_error` to
/// the client, send the result to the client (`forward_item`), tell the agent
/// to stop working on the request (`stop_agent`), and end (`finished`).
pub struct StreamStep {
    pub respond_error: Option<JsonRpcError>,
    pub forward_item: bool,
    pub stop_agent: bool,
    pub finished: bool,
}

/// The error sent for a wait outcome, as (code, description).
pub open spec fn wait_refusal(outcome: AgentWaitOutcome) -> Option<(i32, Seq<char>)> {
    match outcome {
        AgentWaitOutcome::BufferOverflow => Some((503, "Buffered requests overflow"@)),
        AgentWaitOutcome::Timeout => Some((504, "Waiting for available slot timed out"@)),
        AgentWaitOutcome::Failed => Some((500, "Internal server error"@)),
        _ => None,
    }
}

/// The description of the timeout error of a stream.
pub open spec fn stream_timeout_description(kind: InferenceRequestKind) -> Seq<char> {
    match kind {
        InferenceRequestKind::AgentStream => "Downstream response timed out"@,
        _ => "Token generation timed out"@,
    }
}

/// The description of the error sent when the agent refuses to start.
pub open spec fn start_failure_description(kind: InferenceRequestKind) -> Seq<char> {
    match kind {
        InferenceRequestKind::AgentStream => "Failed to generate response"@,
        InferenceRequestKind::ConversationHistory => "Failed to continue conversation"@,
        InferenceRequestKind::RawPrompt => "Failed to generate tokens"@,
    }
}

/// The step after a stream event, as (error to send, forward, stop agent,
/// finished), with the error as (code, description).
pub open spec fn stream_step(kind: InferenceRequestKind, event: StreamEvent) -> (
    Option<(i32, Seq<char>)>,
    bool,
    bool,
    bool,
) {
    match event {
        StreamEvent::AgentDisconnected => (
            Some((502, "Agent controller connection closed"@)),
            false,
            false,
            true,
        ),
        StreamEvent::ClientDisconnected => (None, false, true, true),
        StreamEvent::TimedOut => (Some((504, stream_timeout_description(kind))), false, true, true),
        StreamEvent::Item { is_done } => (None, true, false, is_done),
        StreamEvent::ItemNotDelivered => (None, false, true, false),
        StreamEvent::ChannelClosed => (None, false, false, true),
    }
}

/// A relay ends on every event but a result that is not the last one and a
/// result that could not be delivered; every result that arrives is
/// forwarded, and the agent is told to stop exactly when the client is gone
/// or waiting timed out or a result could not be delivered.
pub proof fn law_relay_ends_unless_more_results(kind: InferenceRequestKind, event: StreamEvent)
    ensures
        !stream_step(kind, event).3 <==> (event == StreamEvent::Item { is_done: false }
            || event == StreamEvent::ItemNotDelivered),
        stream_step(kind, event).1 <==> event is Item,
        stream_step(kind, event).2 <==> (event == StreamEvent::ClientDisconnected || event
            == StreamEvent::TimedOut || event == StreamEvent::ItemNotDelivered),
{
}

/// The view of an optional error as (code, description).
pub open spec fn error_view(e: Option<JsonRpcError>) -> Option<(i32, Seq<char>)> {
    match e {
        Some(err) => Some((err.code, err.description@)),
        None => None,
    }
}

impl StreamStep {
    pub open spec fn view_tuple(&self) -> (Option<(i32, Seq<char>)>, bool, bool, bool) {
        (error_view(self.respond_error), self.forward_item, self.stop_agent, self.finished)
    }
}

/// What to do once waiting for an agent has ended.
pub fn wait_decision(outcome: AgentWaitOutcome) -> (res: WaitDecision)
    ensures
        outcome == AgentWaitOutcome::Found ==> res is Proceed,
        outcome == AgentWaitOutcome::ConnectionClosed ==> res is Stop,
        wait_refusal(outcome) matches Some((code, description)) ==> (res matches WaitDecision::Refuse(
            e,
        ) && e.is(code, description)),
{
    match outcome {
        AgentWaitOutcome::ConnectionClosed => WaitDecision::Stop,
        AgentWaitOutcome::Found => WaitDecision::Proceed,
        AgentWaitOutcome::BufferOverflow => WaitDecision::Refuse(
            JsonRpcError::new(503, "Buffered requests overflow"),
        ),
        AgentWaitOutcome::Timeout => WaitDecision::Refuse(
            JsonRpcError::new(504, "Waiting for available slot timed out"),
        ),
        AgentWaitOutcome::Failed => WaitDecision::Refuse(
            JsonRpcError::new(500, "Internal server error"),
        ),
    }
}

/// The error sent when the agent could not start working on the request.
pub fn start_failure_error(kind: InferenceRequestKind) -> (res: JsonRpcError)
    ensures
        res.is(500, start_failure_description(kind)),
{
    match kind {
        InferenceRequestKind::AgentStream => JsonRpcError::new(500, "Failed to generate response"),
        InferenceRequestKind::ConversationHistory => JsonRpcError::new(
            500,
            "Failed to continue conversation",
        ),
        InferenceRequestKind::RawPrompt => JsonRpcError::new(500, "Failed to generate tokens"),
    }
}

/// What to do after an event while relaying the results of a request.
pub fn stream_event_step(kind: InferenceRequestKind, event: StreamEvent) -> (res: StreamStep)
    ensures
        res.view_tuple() == stream_step(kind, event),
{
    match event {
        StreamEvent::AgentDisconnected => StreamStep {
            respond_error: Some(JsonRpcError::new(502, "Agent controller connection closed")),
            forward_item: false,
            stop_agent: false,
            finished: true,
        },
        StreamEvent::ClientDisconnected => StreamStep {
            respond_error: None,
            forward_item: false,
            stop_agent: true,
            finished: true,
        },
        StreamEvent::TimedOut => {
            let description = match kind {
                InferenceRequestKind::AgentStream => "Downstream response timed out",
                _ => "Token generation timed out",
            };
            StreamStep {
                respond_error: Some(JsonRpcError::new(504, description)),
                forward_item: false,
                stop_agent: true,
                finished: true,
            }
        },
        StreamEvent::Item { is_done } => StreamStep {
            respond_error: None,
            forward_item: true,
            stop_agent: false,
            finished: is_done,
        },
        StreamEvent::ItemNotDelivered => StreamStep {
            respond_error: None,
            forward_item: false,
            stop_agent: true,
            finished: false,
        },
        StreamEvent::ChannelClosed => StreamStep {
            respond_error: None,
            forward_item: false,
            stop_agent: false,
            finished: true,
        },
    }
}

/// The error sent when serving request `request_id` failed with `reason`:
/// "Request {request_id} failed: {reason}".
pub fn request_failed_error(request_id: &str, reason: &str) -> (res: JsonRpcError)
    ensures
        res.is(500, "Request "@ + request_id@ + " failed: "@ + reason@),
{
    let mut description = String::new();
    description.append("Request ");
    description.append(request_id);
    description.append(" failed: ");
    description.append(reason);
    assert(description@ =~= "Request "@ + request_id@ + " failed: "@ + reason@);
    JsonRpcError { code: 500, description }
}

/// One line of a streamed response body: the serialised message and a line
/// break.
pub fn stream_line(chunk: String) -> (res: String)
    ensures
        res@ == chunk@ + "\n"@,
{
    let mut line = chunk;
    line.append("\n");
    line
}

/// Approximate number of characters in one token, used to size embedding
/// batches.
pub const CHARACTERS_PER_TOKEN_APPROXIMATELY: usize = 3;

/// The inference parameters an embedding batch request depends on.
pub struct EmbeddingSettings {
    pub enable_embeddings: bool,
    pub batch_n_tokens: usize,
}

/// Why an embedding batch request is refused.
#[derive(PartialEq, Eq, Structural, Debug, Clone, Copy)]
pub enum EmbeddingRefusal {
    /// "Balancer applicable state is not yet set": answer 503.
    StateNotSet,
    /// "Embedding generation is not enabled in the inference parameters": answer 501.
    EmbeddingsDisabled,
}

/// Whether an embedding batch request is served and, if so, the input size
/// (in characters) of each batch sent to one agent.
pub fn embedding_batch_input_size(settings: Option<EmbeddingSettings>) -> (res: Result<
    usize,
    EmbeddingRefusal,
>)
    requires
        settings matches Some(s) ==> s.batch_n_tokens * CHARACTERS_PER_TOKEN_APPROXIMATELY
            <= usize::MAX,
    ensures
        match settings {
            None => res == Err::<usize, EmbeddingRefusal>(EmbeddingRefusal::StateNotSet),
            Some(s) => if !s.enable_embeddings {
                res == Err::<usize, EmbeddingRefusal>(EmbeddingRefusal::EmbeddingsDisabled)
            } else {
                res == Ok::<usize, EmbeddingRefusal>(
                    (s.batch_n_tokens * CHARACTERS_PER_TOKEN_APPROXIMATELY) as usize,
                )
            },
        },
{
    match settings {
        None => Err(EmbeddingRefusal::StateNotSet),
        Some(s) => {
            if !s.enable_embeddings {
                return Err(EmbeddingRefusal::EmbeddingsDisabled);
            }
            Ok(s.batch_n_tokens * CHARACTERS_PER_TOKEN_APPROXIMATELY)
        },
    }
}

} // verus!
