//! The life of an agent's websocket connection: the version is sent first,
//! then frames are read until the connection ends, and the agent is removed
//! exactly once, when it ends.
use vstd::prelude::*;

verus! {

/// Where a connection stands.
#[derive(PartialEq, Eq, Structural, Debug, Clone, Copy)]
pub enum AgentConnectionPhase {
    /// The balancer's version is being sent.
    Starting,
    /// Frames are being read.
    Open,
    /// The connection ended and its agent was removed.
    Finished,
}

/// What happened on a connection.
#[derive(PartialEq, Eq, Structural, Debug, Clone, Copy)]
pub enum AgentConnectionEvent {
    /// The balancer's version reached the agent.
    VersionSent,
    /// The balancer's version could not be sent.
    VersionFailed,
    /// A binary frame arrived; only text frames are supported.
    Binary,
    /// The agent closed the connection.
    Close,
    /// The agent pinged.
    Ping,
    /// The agent answered a ping.
    Pong,
    /// A text frame arrived.
    Text,
    /// Reading the next frame failed.
    ReceiveError,
    /// No more frames will come.
    StreamEnded,
    /// It is time to ping the agent.
    PingTick,
    /// A ping or a pong could not be sent.
    SendFailed,
    /// Handling the agent's message decided to stop reading: the agent
    /// deregistered.
    StopRequested,
}

/// What the connection does next.
#[derive(PartialEq, Eq, Structural, Debug, Clone, Copy)]
pub enum AgentConnectionAction {
    /// Nothing.
    Ignore,
    /// Answer the agent's ping.
    SendPong,
    /// Handle the text frame as a message of the agent.
    HandleText,
    /// Ping the agent.
    SendPing,
    /// End the connection: close the session when `close_session`, and
    /// remove the agent.
    Finish { close_session: bool },
}

/// The next phase and the action after `event` in phase `phase`. Events that
/// cannot happen in a phase (frames before the version was sent, anything
/// after the end) change nothing.
pub open spec fn spec_agent_connection_step(
    phase: AgentConnectionPhase,
    event: AgentConnectionEvent,
) -> (AgentConnectionPhase, AgentConnectionAction) {
    match phase {
        AgentConnectionPhase::Finished => (phase, AgentConnectionAction::Ignore),
        AgentConnectionPhase::Starting => match event {
            AgentConnectionEvent::VersionSent => (
                AgentConnectionPhase::Open,
                AgentConnectionAction::Ignore,
            ),
            AgentConnectionEvent::VersionFailed => (
                AgentConnectionPhase::Finished,
                AgentConnectionAction::Finish { close_session: false },
            ),
            _ => (phase, AgentConnectionAction::Ignore),
        },
        AgentConnectionPhase::Open => match event {
            AgentConnectionEvent::Ping => (phase, AgentConnectionAction::SendPong),
            AgentConnectionEvent::Text => (phase, AgentConnectionAction::HandleText),
            AgentConnectionEvent::PingTick => (phase, AgentConnectionAction::SendPing),
            AgentConnectionEvent::Close
            | AgentConnectionEvent::ReceiveError
            | AgentConnectionEvent::StreamEnded
            | AgentConnectionEvent::SendFailed
            | AgentConnectionEvent::StopRequested => (
                AgentConnectionPhase::Finished,
                AgentConnectionAction::Finish { close_session: true },
            ),
            _ => (phase, AgentConnectionAction::Ignore),
        },
    }
}

/// The next phase and the action after `event` in phase `phase`.
pub fn agent_connection_step(phase: AgentConnectionPhase, event: AgentConnectionEvent) -> (res: (
    AgentConnectionPhase,
    AgentConnectionAction,
))
    ensures
        res == spec_agent_connection_step(phase, event),
{
    match phase {
        AgentConnectionPhase::Finished => (phase, AgentConnectionAction::Ignore),
        AgentConnectionPhase::Starting => match event {
            AgentConnectionEvent::VersionSent => (
                AgentConnectionPhase::Open,
                AgentConnectionAction::Ignore,
            ),
            AgentConnectionEvent::VersionFailed => (
                AgentConnectionPhase::Finished,
                AgentConnectionAction::Finish { close_session: false },
            ),
            _ => (phase, AgentConnectionAction::Ignore),
        },
        AgentConnectionPhase::Open => match event {
            AgentConnectionEvent::Ping => (phase, AgentConnectionAction::SendPong),
            AgentConnectionEvent::Text => (phase, AgentConnectionAction::HandleText),
            AgentConnectionEvent::PingTick => (phase, AgentConnectionAction::SendPing),
            AgentConnectionEvent::Close
            | AgentConnectionEvent::ReceiveError
            | AgentConnectionEvent::StreamEnded
            | AgentConnectionEvent::SendFailed
            | AgentConnectionEvent::StopRequested => (
                AgentConnectionPhase::Finished,
                AgentConnectionAction::Finish { close_session: true },
            ),
            _ => (phase, AgentConnectionAction::Ignore),
        },
    }
}

/// The phase and the actions after a run of events from `phase`.
pub open spec fn run_agent_connection(
    phase: AgentConnectionPhase,
    events: Seq<AgentConnectionEvent>,
) -> (AgentConnectionPhase, Seq<AgentConnectionAction>)
    decreases events.len(),
{
    if events.len() == 0 {
        (phase, Seq::empty())
    } else {
        let (next, action) = spec_agent_connection_step(phase, events[0]);
        let (last, actions) = run_agent_connection(next, events.drop_first());
        (last, seq![action].add(actions))
    }
}

/// The number of `Finish` actions in `actions`.
pub open spec fn finish_count(actions: Seq<AgentConnectionAction>) -> nat
    decreases actions.len(),
{
    if actions.len() == 0 {
        0
    } else {
        (if actions[0] is Finish {
            1nat
        } else {
            0nat
        }) + finish_count(actions.drop_first())
    }
}

/// A connection ends, and its agent is removed, exactly when it is finished:
/// over any run of events from a phase that is not finished, the run ends
/// finished exactly when one `Finish` was asked for, and never more than
/// one; from a finished connection nothing more is asked for.
pub proof fn law_agent_removed_at_most_once(
    phase: AgentConnectionPhase,
    events: Seq<AgentConnectionEvent>,
)
    ensures
        phase == AgentConnectionPhase::Finished ==> finish_count(
            run_agent_connection(phase, events).1,
        ) == 0 && run_agent_connection(phase, events).0 == AgentConnectionPhase::Finished,
        phase != AgentConnectionPhase::Finished ==> finish_count(
            run_agent_connection(phase, events).1,
        ) == (if run_agent_connection(phase, events).0 == AgentConnectionPhase::Finished {
            1nat
        } else {
            0nat
        }),
        run_agent_connection(phase, events).1.len() == events.len(),
    decreases events.len(),
{
    if events.len() > 0 {
        let (next, action) = spec_agent_connection_step(phase, events[0]);
        law_agent_removed_at_most_once(next, events.drop_first());
        let rest = run_agent_connection(next, events.drop_first()).1;
        let all = seq![action].add(rest);
        assert(all[0] == action);
        assert(all.drop_first() =~= rest);
        assert(finish_count(all) == (if action is Finish {
            1nat
        } else {
            0nat
        }) + finish_count(rest));
        assert(run_agent_connection(phase, events) == (
            run_agent_connection(next, events.drop_first()).0,
            all,
        ));
        if phase != AgentConnectionPhase::Finished {
            assert(action is Finish <==> next == AgentConnectionPhase::Finished);
        }
    }
}

/// A text frame, a ping, a pong or a binary frame never ends an open
/// connection: errors in handling a message are logged and reading goes on.
pub proof fn law_messages_keep_connection_open(event: AgentConnectionEvent)
    requires
        event == AgentConnectionEvent::Text || event == AgentConnectionEvent::Ping
            || event == AgentConnectionEvent::Pong || event == AgentConnectionEvent::Binary
            || event == AgentConnectionEvent::PingTick,
    ensures
        spec_agent_connection_step(AgentConnectionPhase::Open, event).0
            == AgentConnectionPhase::Open,
{
}

/// How the text of an agent's frame was read.
pub enum AgentTextMessage {
    /// The agent introduces itself under this name.
    RegisterAgent { name: String },
    /// The text is no valid message: its JSON syntax is wrong, or its data
    /// has the wrong shape.
    Malformed,
    /// Reading failed for another reason, such as text that ends before the
    /// message does.
    Unreadable,
}

/// What is done with the text of an agent's frame.
#[derive(PartialEq, Eq, Structural, Debug, Clone, Copy)]
pub enum AgentTextAction {
    /// Register the agent under its name.
    Register,
    /// Answer with a JSON-RPC "bad request" error.
    ReplyBadRequest,
    /// Answer with a JSON-RPC "server error".
    ReplyServerError,
}

/// What is done with the text of an agent's frame: a registration is
/// registered; a malformed message is answered as a bad request, any other
/// failure as a server error.
pub fn agent_text_action(message: &AgentTextMessage) -> (res: AgentTextAction)
    ensures
        res == match message {
            AgentTextMessage::RegisterAgent { .. } => AgentTextAction::Register,
            AgentTextMessage::Malformed => AgentTextAction::ReplyBadRequest,
            AgentTextMessage::Unreadable => AgentTextAction::ReplyServerError,
        },
{
    match message {
        AgentTextMessage::RegisterAgent { .. } => AgentTextAction::Register,
        AgentTextMessage::Malformed => AgentTextAction::ReplyBadRequest,
        AgentTextMessage::Unreadable => AgentTextAction::ReplyServerError,
    }
}

} // verus!
