use paddler::agent_connection::agent_connection_step;
use paddler::agent_connection::agent_text_action;
use paddler::agent_connection::AgentConnectionAction;
use paddler::agent_connection::AgentConnectionEvent;
use paddler::agent_connection::AgentConnectionPhase;
use paddler::agent_connection::AgentTextAction;
use paddler::agent_connection::AgentTextMessage;

#[test]
fn version_failure_finishes_without_closing() {
    assert_eq!(
        agent_connection_step(AgentConnectionPhase::Starting, AgentConnectionEvent::VersionFailed),
        (AgentConnectionPhase::Finished, AgentConnectionAction::Finish { close_session: false })
    );
    assert_eq!(
        agent_connection_step(AgentConnectionPhase::Starting, AgentConnectionEvent::VersionSent),
        (AgentConnectionPhase::Open, AgentConnectionAction::Ignore)
    );
}

#[test]
fn open_connection_frames() {
    let open = AgentConnectionPhase::Open;
    assert_eq!(agent_connection_step(open, AgentConnectionEvent::Ping), (open, AgentConnectionAction::SendPong));
    assert_eq!(agent_connection_step(open, AgentConnectionEvent::Pong), (open, AgentConnectionAction::Ignore));
    assert_eq!(agent_connection_step(open, AgentConnectionEvent::Binary), (open, AgentConnectionAction::Ignore));
    assert_eq!(agent_connection_step(open, AgentConnectionEvent::Text), (open, AgentConnectionAction::HandleText));
    assert_eq!(agent_connection_step(open, AgentConnectionEvent::PingTick), (open, AgentConnectionAction::SendPing));
    for event in [
        AgentConnectionEvent::Close,
        AgentConnectionEvent::ReceiveError,
        AgentConnectionEvent::StreamEnded,
        AgentConnectionEvent::SendFailed,
        AgentConnectionEvent::StopRequested,
    ] {
        assert_eq!(
            agent_connection_step(open, event),
            (AgentConnectionPhase::Finished, AgentConnectionAction::Finish { close_session: true })
        );
    }
}

#[test]
fn law_agent_removed_at_most_once() {
    let events = [
        AgentConnectionEvent::VersionSent,
        AgentConnectionEvent::Text,
        AgentConnectionEvent::Close,
        AgentConnectionEvent::StreamEnded,
        AgentConnectionEvent::ReceiveError,
    ];
    let mut phase = AgentConnectionPhase::Starting;
    let mut finishes = 0;
    for event in events {
        let (next, action) = agent_connection_step(phase, event);
        if matches!(action, AgentConnectionAction::Finish { .. }) {
            finishes += 1;
        }
        phase = next;
    }
    assert_eq!(phase, AgentConnectionPhase::Finished);
    assert_eq!(finishes, 1);
}

#[test]
fn agent_text_actions() {
    assert_eq!(
        agent_text_action(&AgentTextMessage::RegisterAgent { name: "agent-1".to_string() }),
        AgentTextAction::Register
    );
    assert_eq!(agent_text_action(&AgentTextMessage::Malformed), AgentTextAction::ReplyBadRequest);
    assert_eq!(agent_text_action(&AgentTextMessage::Unreadable), AgentTextAction::ReplyServerError);
}
