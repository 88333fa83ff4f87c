use paddler::agent_socket::continuation_after;
use paddler::agent_socket::agent_message_action;
use paddler::agent_socket::AgentMessageAction;
use paddler::agent_socket::AgentResponse;
use paddler::agent_socket::ContinuationDecision;
use paddler::agent_socket::Message as AgentMessage;
use paddler::agent_socket::ModelMetadata;
use paddler::agent_socket::Notification as AgentNotification;
use paddler::agent_socket::SenderCollectionKind;
use paddler::chat_template::chat_template_lookup;
use paddler::chat_template::ChatTemplateLookup;
use paddler::chat_template::ChatTemplateModel;
use paddler::inference_client::EmbeddingResult;
use paddler::inference_client::GeneratedTokenResult;
use paddler::inference_client::Message as ClientMessage;
use paddler::inference_client::Response;
use paddler::inference_flow::embedding_batch_input_size;
use paddler::inference_flow::request_failed_error;
use paddler::inference_flow::start_failure_error;
use paddler::inference_flow::stream_event_step;
use paddler::inference_flow::wait_decision;
use paddler::inference_flow::AgentWaitOutcome;
use paddler::inference_flow::EmbeddingRefusal;
use paddler::inference_flow::EmbeddingSettings;
use paddler::inference_flow::InferenceRequestKind;
use paddler::inference_flow::StreamEvent;
use paddler::inference_flow::WaitDecision;
use paddler::inference_service::InferenceService;
use paddler::inference_service::InferenceServiceConfiguration;
use paddler::inference_socket::action_after_validation;
use paddler::inference_socket::inference_message_action;
use paddler::inference_socket::ContinueFromConversationHistoryParams;
use paddler::inference_socket::ConversationMessage;
use paddler::inference_socket::ContinueFromRawPromptParams;
use paddler::inference_socket::InferenceMessageAction;
use paddler::inference_socket::Message as InferenceMessage;
use paddler::inference_socket::Request as InferenceRequest;
use paddler::jsonrpc::JsonRpcError;
use paddler::management_service::ManagementService;
use paddler::management_service::ManagementServiceConfiguration;
use paddler::jsonrpc::RequestEnvelope;
use paddler::jsonrpc::ResponseEnvelope;
use paddler::metrics::agents_metrics;
use paddler::metrics::management_metrics;
use paddler::model_metadata_sender_collection::ModelMetadataSenderCollection;
use paddler::model_metadata_sender_collection::ReceiveModelMetadataController;
use paddler::model_metadata_sender_collection::SenderError;
use paddler::reconciliation_service::ReconciliationAction;
use paddler::reconciliation_service::ReconciliationEvent;
use paddler::reconciliation_service::ReconciliationService;

fn refusal(d: WaitDecision) -> (i32, String) {
    match d {
        WaitDecision::Refuse(e) => (e.code, e.description),
        _ => panic!("expected a refusal"),
    }
}

#[test]
fn wait_outcomes() {
    assert!(matches!(wait_decision(AgentWaitOutcome::Found), WaitDecision::Proceed));
    assert!(matches!(wait_decision(AgentWaitOutcome::ConnectionClosed), WaitDecision::Stop));
    assert_eq!(refusal(wait_decision(AgentWaitOutcome::BufferOverflow)), (503, "Buffered requests overflow".to_string()));
    assert_eq!(refusal(wait_decision(AgentWaitOutcome::Timeout)), (504, "Waiting for available slot timed out".to_string()));
    assert_eq!(refusal(wait_decision(AgentWaitOutcome::Failed)), (500, "Internal server error".to_string()));
}

#[test]
fn stream_steps() {
    let step = stream_event_step(InferenceRequestKind::AgentStream, StreamEvent::AgentDisconnected);
    let e = step.respond_error.unwrap();
    assert_eq!((e.code, e.description.as_str()), (502, "Agent controller connection closed"));
    assert!(step.finished && !step.stop_agent && !step.forward_item);

    let step = stream_event_step(InferenceRequestKind::AgentStream, StreamEvent::TimedOut);
    assert_eq!(step.respond_error.unwrap().description, "Downstream response timed out");
    assert!(step.stop_agent && step.finished);

    let step = stream_event_step(InferenceRequestKind::RawPrompt, StreamEvent::TimedOut);
    let e = step.respond_error.unwrap();
    assert_eq!((e.code, e.description.as_str()), (504, "Token generation timed out"));

    let step = stream_event_step(InferenceRequestKind::RawPrompt, StreamEvent::ClientDisconnected);
    assert!(step.respond_error.is_none() && step.stop_agent && step.finished);

    let step = stream_event_step(InferenceRequestKind::RawPrompt, StreamEvent::Item { is_done: false });
    assert!(step.forward_item && !step.finished);
    let step = stream_event_step(InferenceRequestKind::RawPrompt, StreamEvent::Item { is_done: true });
    assert!(step.forward_item && step.finished);

    let step = stream_event_step(InferenceRequestKind::RawPrompt, StreamEvent::ItemNotDelivered);
    assert!(step.stop_agent && !step.finished);
    let step = stream_event_step(InferenceRequestKind::ConversationHistory, StreamEvent::ChannelClosed);
    assert!(step.finished && !step.stop_agent);
}

#[test]
fn start_and_request_failures() {
    assert_eq!(start_failure_error(InferenceRequestKind::AgentStream).description, "Failed to generate response");
    assert_eq!(start_failure_error(InferenceRequestKind::ConversationHistory).description, "Failed to continue conversation");
    let e = start_failure_error(InferenceRequestKind::RawPrompt);
    assert_eq!((e.code, e.description.as_str()), (500, "Failed to generate tokens"));
    let e = request_failed_error("abc", "boom");
    assert_eq!((e.code, e.description.as_str()), (500, "Request abc failed: boom"));
}

#[test]
fn results_end_streams() {
    assert!(GeneratedTokenResult::Done.is_done());
    assert!(!GeneratedTokenResult::Token("hi".to_string()).is_done());
    assert!(EmbeddingResult::Done.is_done());
    assert!(!EmbeddingResult::Error("x".to_string()).is_done());
    assert!(matches!(Response::from(EmbeddingResult::Done), Response::Embedding(EmbeddingResult::Done)));
    assert!(matches!(Response::from(GeneratedTokenResult::Done), Response::GeneratedToken(GeneratedTokenResult::Done)));
}

#[test]
fn embedding_batches() {
    assert_eq!(embedding_batch_input_size(None), Err(EmbeddingRefusal::StateNotSet));
    assert_eq!(
        embedding_batch_input_size(Some(EmbeddingSettings { enable_embeddings: false, batch_n_tokens: 512 })),
        Err(EmbeddingRefusal::EmbeddingsDisabled)
    );
    assert_eq!(
        embedding_batch_input_size(Some(EmbeddingSettings { enable_embeddings: true, batch_n_tokens: 512 })),
        Ok(1536)
    );
}

#[test]
fn metrics_text() {
    assert_eq!(
        management_metrics("paddler_", 3, 10, 0),
        "# HELP paddler_slots_processing Number of processing slots\n\
         # TYPE paddler_slots_processing gauge\n\
         paddler_slots_processing 3\n\
         \n\
         # HELP paddler_slots_total Number of total slots\n\
         # TYPE paddler_slots_total gauge\n\
         paddler_slots_total 10\n\
         \n\
         # HELP paddler_requests_buffered Number of buffered requests\n\
         # TYPE paddler_requests_buffered gauge\n\
         paddler_requests_buffered 0\n"
    );
    assert_eq!(
        agents_metrics(12, 4, 1234567),
        "# HELP paddler_slots_idle Number of idle slots\n\
         # TYPE paddler_slots_idle gauge\n\
         paddler_slots_idle 12\n\
         \n\
         # HELP paddler_slots_processing Number of processing slots\n\
         # TYPE paddler_slots_processing gauge\n\
         paddler_slots_processing 4\n\
         \n\
         # HELP paddler_requests_buffered Number of buffered requests\n\
         # TYPE paddler_requests_buffered gauge\n\
         paddler_requests_buffered 1234567\n"
    );
}

#[test]
fn law_reconciliation_retries_until_converted() {
    let mut r = ReconciliationService::new();
    assert_eq!(r.on_event(ReconciliationEvent::Tick), ReconciliationAction::Convert);
    r.on_conversion_result(false);
    assert_eq!(r.on_event(ReconciliationEvent::Tick), ReconciliationAction::Convert);
    r.on_conversion_result(true);
    assert_eq!(r.on_event(ReconciliationEvent::Tick), ReconciliationAction::Wait);
    assert_eq!(r.on_event(ReconciliationEvent::DesiredStateChanged), ReconciliationAction::Convert);
    assert!(!r.is_converted_to_applicable_state);
    assert_eq!(r.on_event(ReconciliationEvent::Shutdown), ReconciliationAction::Stop);
}

#[test]
fn inference_socket_messages() {
    let error = InferenceMessage::Error(JsonRpcError { code: 1, description: "x".to_string() });
    assert_eq!(inference_message_action(&error), InferenceMessageAction::LogError);
    let request = InferenceMessage::Request(RequestEnvelope {
        id: "1".to_string(),
        request: InferenceRequest::ContinueFromRawPrompt(ContinueFromRawPromptParams {
            max_tokens: 500,
            raw_prompt: "Hello, world!".to_string(),
        }),
    });
    assert_eq!(inference_message_action(&request), InferenceMessageAction::Serve(InferenceRequestKind::RawPrompt));
    let conversation = InferenceMessage::Request(RequestEnvelope {
        id: "2".to_string(),
        request: InferenceRequest::ContinueFromConversationHistory(ContinueFromConversationHistoryParams {
            conversation_history: vec![ConversationMessage { role: "user".to_string(), content: "Hi".to_string() }],
            max_tokens: 100,
        }),
    });
    assert_eq!(inference_message_action(&conversation), InferenceMessageAction::ValidateThenServe);
}

#[test]
fn conversation_served_only_after_validation() {
    assert_eq!(
        action_after_validation::<String>(Ok(())),
        Ok(InferenceMessageAction::Serve(InferenceRequestKind::ConversationHistory))
    );
    assert_eq!(
        action_after_validation::<String>(Err("invalid tool schema".to_string())),
        Err("invalid tool schema".to_string())
    );
}

#[test]
fn agent_socket_messages() {
    let deregister = AgentMessage::Notification(AgentNotification::DeregisterAgent);
    let action = agent_message_action(&deregister);
    assert_eq!(action, AgentMessageAction::Deregister);
    assert_eq!(continuation_after(action), ContinuationDecision::Stop);
    let metadata = AgentMessage::Response(ResponseEnvelope {
        request_id: "r".to_string(),
        response: AgentResponse::ModelMetadata(Some(ModelMetadata { metadata: vec![] })),
    });
    let action = agent_message_action(&metadata);
    assert_eq!(action, AgentMessageAction::ForwardResponse(SenderCollectionKind::ModelMetadata));
    assert_eq!(continuation_after(action), ContinuationDecision::Continue);
}

#[test]
fn law_sender_registration_round_trip() {
    let mut senders = ModelMetadataSenderCollection::new();
    let (tx, mut rx) = tokio::sync::mpsc::unbounded_channel();
    assert_eq!(senders.register_sender("r1".to_string(), tx.clone()), Ok(()));
    assert_eq!(senders.register_sender("r1".to_string(), tx), Err(SenderError::AlreadyExists));
    assert_eq!(senders.forward_model_metadata("r1".to_string(), None), Ok(()));
    assert!(rx.try_recv().unwrap().is_none());
    assert_eq!(senders.forward_model_metadata("r2".to_string(), None), Err(SenderError::NoSender));
    assert_eq!(senders.deregister_sender("r1".to_string()), Ok(()));
    assert_eq!(senders.deregister_sender("r1".to_string()), Err(SenderError::NoSender));
    assert_eq!(senders.forward_model_metadata("r1".to_string(), None), Err(SenderError::NoSender));
    let (tx, rx) = tokio::sync::mpsc::unbounded_channel();
    senders.register_sender("r3".to_string(), tx).unwrap();
    drop(rx);
    assert_eq!(senders.forward_model_metadata("r3".to_string(), None), Err(SenderError::ChannelClosed));
}

#[test]
fn law_duplicate_registration_keeps_first_channel() {
    let mut senders = ModelMetadataSenderCollection::new();
    let (first_tx, mut first_rx) = tokio::sync::mpsc::unbounded_channel();
    let (second_tx, mut second_rx) = tokio::sync::mpsc::unbounded_channel();
    assert_eq!(senders.register_sender("r1".to_string(), first_tx), Ok(()));
    assert_eq!(senders.register_sender("r1".to_string(), second_tx), Err(SenderError::AlreadyExists));
    let metadata = ModelMetadata { metadata: vec![("name".to_string(), "qwen".to_string())] };
    assert_eq!(senders.forward_model_metadata("r1".to_string(), Some(metadata)), Ok(()));
    let received = first_rx.try_recv().unwrap().unwrap();
    assert_eq!(received.metadata, vec![("name".to_string(), "qwen".to_string())]);
    assert!(second_rx.try_recv().is_err());
}

#[test]
fn law_deregistration_keeps_other_senders() {
    let mut senders = ModelMetadataSenderCollection::new();
    let (tx1, mut rx1) = tokio::sync::mpsc::unbounded_channel();
    let (tx2, _rx2) = tokio::sync::mpsc::unbounded_channel();
    senders.register_sender("r1".to_string(), tx1).unwrap();
    senders.register_sender("r2".to_string(), tx2).unwrap();
    assert_eq!(senders.deregister_sender("r2".to_string()), Ok(()));
    assert_eq!(senders.forward_model_metadata("r1".to_string(), None), Ok(()));
    assert!(rx1.try_recv().unwrap().is_none());
    assert_eq!(senders.forward_model_metadata("r2".to_string(), None), Err(SenderError::NoSender));
}

#[test]
fn receive_controller_from_request_id() {
    let mut senders = ModelMetadataSenderCollection::new();
    let mut controller = match ReceiveModelMetadataController::from_request_id("r1".to_string(), &mut senders) {
        Ok(controller) => controller,
        Err(_) => panic!("expected a controller"),
    };
    assert_eq!(controller.request_id, "r1");
    let metadata = ModelMetadata { metadata: vec![("k".to_string(), "v".to_string())] };
    assert_eq!(senders.forward_model_metadata("r1".to_string(), Some(metadata)), Ok(()));
    let received = controller.model_metadata_rx.try_recv().unwrap().unwrap();
    assert_eq!(received.metadata, vec![("k".to_string(), "v".to_string())]);
    let second = ReceiveModelMetadataController::from_request_id("r1".to_string(), &mut senders);
    assert!(matches!(second, Err(SenderError::AlreadyExists)));
    assert_eq!(senders.forward_model_metadata("r1".to_string(), None), Ok(()));
    assert!(controller.model_metadata_rx.try_recv().unwrap().is_none());
}

#[test]
fn chat_template_answers() {
    assert!(matches!(chat_template_lookup(None), ChatTemplateLookup::NotFound));
    let found = chat_template_lookup(Some(ChatTemplateModel { id: "t".to_string(), content: "{{x}}".to_string() }));
    match found {
        ChatTemplateLookup::Found(body) => assert_eq!(body.chat_template.content, "{{x}}"),
        _ => panic!("expected the template"),
    }
}

#[test]
fn inference_service_origins() {
    let service = InferenceService {
        configuration: InferenceServiceConfiguration {
            addr: "0.0.0.0:8061".to_string(),
            cors_allowed_hosts: vec!["http://a".to_string()],
            inference_item_timeout_millis: 1000,
        },
        web_admin_panel_addr: Some("127.0.0.1:8062".to_string()),
    };
    assert_eq!(service.cors_allowed_hosts(), vec!["http://a".to_string(), "http://127.0.0.1:8062".to_string()]);
    assert_eq!(service.name(), "balancer::inference_service");
}

#[test]
fn management_service_cors_origins() {
    let mut service = ManagementService {
        configuration: ManagementServiceConfiguration {
            addr: "0.0.0.0:8060".to_string(),
            cors_allowed_hosts: vec!["http://ops".to_string(), "http://b".to_string()],
            fleet_management_enable: true,
            metrics_endpoint_enable: false,
        },
        statsd_prefix: "paddler_".to_string(),
        web_admin_panel_addr: None,
    };
    assert_eq!(service.cors_allowed_hosts(), vec!["http://ops".to_string(), "http://b".to_string()]);
    service.web_admin_panel_addr = Some("localhost:8095".to_string());
    assert_eq!(
        service.cors_allowed_hosts(),
        vec!["http://ops".to_string(), "http://b".to_string(), "http://localhost:8095".to_string()]
    );
    assert_eq!(service.name(), "balancer::management_service");
}

#[test]
fn client_messages() {
    match ClientMessage::error("r1".to_string(), JsonRpcError { code: 504, description: "late".to_string() }) {
        ClientMessage::Error(envelope) => {
            assert_eq!(envelope.request_id, "r1");
            assert_eq!(envelope.error.code, 504);
        }
        _ => panic!("expected an error"),
    }
    match ClientMessage::response("r2".to_string(), Response::Timeout) {
        ClientMessage::Response(envelope) => {
            assert_eq!(envelope.request_id, "r2");
            assert!(matches!(envelope.response, Response::Timeout));
        }
        _ => panic!("expected a response"),
    }
}
