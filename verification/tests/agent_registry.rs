use paddler::agent_registry::agent_from_registration;
use paddler::agent_registry::AgentRegistry;
use paddler::agent_registry::AgentRegistryError;
use paddler::agent_registry::AgentUpdateResult;
use paddler::agent_response_senders::AgentResponseSenders;
use paddler::agent_response_senders::ReceiveResponsesController;
use paddler::agent_socket::deregistration_outcome;
use paddler::agent_socket::AgentResponse;
use paddler::agent_socket::ContinuationDecision;
use paddler::agent_socket::DeregisterError;
use paddler::agent_socket::GeneratedTokenEnvelope;
use paddler::agent_socket::ModelMetadata;
use paddler::agent_socket::RegisterAgentParams;
use paddler::agent_socket::SlotAggregatedStatusSnapshot;
use paddler::inference_client::EmbeddingResult;
use paddler::inference_client::GeneratedTokenResult;
use paddler::inference_flow::stream_line;
use paddler::jsonrpc::ResponseEnvelope;
use paddler::model_metadata_sender_collection::ReceiveModelMetadataController;
use paddler::model_metadata_sender_collection::SenderError;
use paddler::reconciliation_service::ConversionStep;
use paddler::reconciliation_service::ReconciliationService;

fn snapshot(version: i32, slots_processing: i32) -> SlotAggregatedStatusSnapshot {
    SlotAggregatedStatusSnapshot {
        desired_slots_total: 4,
        download_current: 10,
        download_filename: Some("model.gguf".to_string()),
        download_total: 100,
        issues: vec!["slow disk".to_string()],
        model_path: Some("/models/model.gguf".to_string()),
        slots_processing,
        slots_total: 4,
        state_application_status: 2,
        uses_chat_template_override: true,
        version,
    }
}

#[test]
fn registration_copies_the_snapshot() {
    let record = agent_from_registration(
        "agent-1".to_string(),
        RegisterAgentParams { name: Some("gpu box".to_string()), slot_aggregated_status_snapshot: snapshot(3, 1) },
    );
    assert_eq!(record.id, "agent-1");
    assert_eq!(record.name, Some("gpu box".to_string()));
    assert_eq!(record.desired_slots_total, 4);
    assert_eq!(record.download_current, 10);
    assert_eq!(record.download_filename, Some("model.gguf".to_string()));
    assert_eq!(record.download_total, 100);
    assert_eq!(record.issues, vec!["slow disk".to_string()]);
    assert_eq!(record.model_path, Some("/models/model.gguf".to_string()));
    assert_eq!(record.newest_update_version, 3);
    assert_eq!(record.slots_processing, 1);
    assert_eq!(record.slots_total, 4);
    assert_eq!(record.state_application_status_code, 2);
    assert!(record.uses_chat_template_override);
}

#[test]
fn law_stale_snapshot_changes_nothing() {
    let mut registry = AgentRegistry::new();
    let record = agent_from_registration(
        "a".to_string(),
        RegisterAgentParams { name: None, slot_aggregated_status_snapshot: snapshot(5, 0) },
    );
    assert_eq!(registry.register(record), Ok(()));
    assert_eq!(registry.apply_snapshot("a", snapshot(5, 3)), Some(AgentUpdateResult::NoMeaningfulChanges));
    assert_eq!(registry.agents[0].slots_processing, 0);
    assert_eq!(registry.apply_snapshot("a", snapshot(4, 3)), Some(AgentUpdateResult::NoMeaningfulChanges));
    assert_eq!(registry.apply_snapshot("a", snapshot(6, 3)), Some(AgentUpdateResult::Updated));
    assert_eq!(registry.agents[0].slots_processing, 3);
    assert_eq!(registry.agents[0].newest_update_version, 6);
    assert_eq!(registry.apply_snapshot("a", snapshot(6, 3)), Some(AgentUpdateResult::NoMeaningfulChanges));
    assert_eq!(registry.apply_snapshot("b", snapshot(9, 3)), None);
}

#[test]
fn law_register_then_remove_agent_restores() {
    let mut registry = AgentRegistry::new();
    let first = agent_from_registration(
        "a".to_string(),
        RegisterAgentParams { name: None, slot_aggregated_status_snapshot: snapshot(1, 0) },
    );
    let again = agent_from_registration(
        "a".to_string(),
        RegisterAgentParams { name: None, slot_aggregated_status_snapshot: snapshot(2, 0) },
    );
    assert_eq!(registry.register(first), Ok(()));
    assert_eq!(registry.register(again), Err(AgentRegistryError::AlreadyRegistered));
    assert_eq!(registry.agents.len(), 1);
    assert_eq!(registry.agents[0].newest_update_version, 1);
    assert!(registry.remove("a"));
    assert!(registry.agents.is_empty());
    assert!(!registry.remove("a"));
}

#[test]
fn responses_go_to_the_registry_of_their_kind() {
    let mut senders = AgentResponseSenders::new();
    let mut tokens = ReceiveResponsesController::from_request_id("t1".to_string(), &mut senders.generate_tokens)
        .unwrap_or_else(|_| panic!("expected a controller"));
    let mut embeddings = ReceiveResponsesController::from_request_id("e1".to_string(), &mut senders.embedding)
        .unwrap_or_else(|_| panic!("expected a controller"));
    let mut metadata = ReceiveModelMetadataController::from_request_id("m1".to_string(), &mut senders.model_metadata)
        .unwrap_or_else(|_| panic!("expected a controller"));

    let token = ResponseEnvelope {
        request_id: "t1".to_string(),
        response: AgentResponse::GeneratedToken(GeneratedTokenEnvelope {
            slot: 2,
            generated_token_result: GeneratedTokenResult::Token("Hel".to_string()),
        }),
    };
    assert_eq!(senders.forward_response(token), Ok(()));
    match tokens.response_rx.try_recv().unwrap() {
        AgentResponse::GeneratedToken(envelope) => {
            assert_eq!(envelope.slot, 2);
            assert!(matches!(envelope.generated_token_result, GeneratedTokenResult::Token(ref t) if t == "Hel"));
        }
        _ => panic!("expected a generated token"),
    }

    let embedding = ResponseEnvelope {
        request_id: "e1".to_string(),
        response: AgentResponse::Embedding(EmbeddingResult::Done),
    };
    assert_eq!(senders.forward_response(embedding), Ok(()));
    assert!(matches!(embeddings.response_rx.try_recv().unwrap(), AgentResponse::Embedding(EmbeddingResult::Done)));

    let meta = ResponseEnvelope {
        request_id: "m1".to_string(),
        response: AgentResponse::ModelMetadata(Some(ModelMetadata { metadata: vec![] })),
    };
    assert_eq!(senders.forward_response(meta), Ok(()));
    assert!(metadata.model_metadata_rx.try_recv().unwrap().is_some());

    // a token for a request that waits for embeddings finds no sender
    let misplaced = ResponseEnvelope {
        request_id: "e1".to_string(),
        response: AgentResponse::GeneratedToken(GeneratedTokenEnvelope {
            slot: 0,
            generated_token_result: GeneratedTokenResult::Done,
        }),
    };
    assert_eq!(senders.forward_response(misplaced), Err(SenderError::NoSender));

    drop(tokens);
    let late = ResponseEnvelope {
        request_id: "t1".to_string(),
        response: AgentResponse::GeneratedToken(GeneratedTokenEnvelope {
            slot: 2,
            generated_token_result: GeneratedTokenResult::Done,
        }),
    };
    assert_eq!(senders.forward_response(late), Err(SenderError::ChannelClosed));
    assert_eq!(senders.generate_tokens.deregister_sender("t1".to_string()), Ok(()));
}

#[test]
fn deregistration_needs_a_listener() {
    assert_eq!(deregistration_outcome(true), Ok(ContinuationDecision::Stop));
    assert_eq!(deregistration_outcome(false), Err(DeregisterError::CloseSignalUndelivered));
}

#[test]
fn reconciliation_applies_only_after_success() {
    let mut service = ReconciliationService::new();
    assert_eq!(service.on_conversion::<u32, String>(Err("db".to_string())), ConversionStep::Failed("db".to_string()));
    assert!(!service.is_converted_to_applicable_state);
    assert_eq!(service.on_conversion::<u32, String>(Ok(Some(7))), ConversionStep::ApplyToAgents(7));
    assert!(!service.is_converted_to_applicable_state);
    assert_eq!(service.on_agents_updated::<u32, String>(7, Err("agents".to_string())), Err("agents".to_string()));
    assert!(!service.is_converted_to_applicable_state);
    assert_eq!(service.on_agents_updated::<u32, String>(7, Ok(())), Ok(7));
    assert!(service.is_converted_to_applicable_state);
    let mut other = ReconciliationService::new();
    assert_eq!(other.on_conversion::<u32, String>(Ok(None)), ConversionStep::NothingToApply);
    assert!(other.is_converted_to_applicable_state);
}

#[test]
fn stream_lines_end_with_a_line_break() {
    assert_eq!(stream_line("{\"a\":1}".to_string()), "{\"a\":1}\n");
}
