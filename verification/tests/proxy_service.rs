use paddler::proxy_service::ModelCheck;
use paddler::proxy_service::PeerSelection;
use paddler::proxy_service::ProxyError;
use paddler::proxy_service::ProxyService;
use paddler::proxy_service::RequestBufferGuard;
use paddler::proxy_service::PEER_QUARANTINE_MILLIS;
use paddler::request_context::SelectPeerError;
use paddler::requested_model::model_from_sources;
use paddler::requested_model::requested_model_from_body;
use paddler::upstream_peer::StatusUpdate;
use paddler::upstream_peer_pool::UpstreamPeerPool;

fn status(slots_idle: usize, slots_processing: usize, model: Option<&str>) -> StatusUpdate {
    StatusUpdate {
        agent_name: None,
        error: None,
        external_llamacpp_addr: "127.0.0.1:8080".to_string(),
        model: model.map(|m| m.to_string()),
        slots_idle,
        slots_processing,
    }
}

fn service(pool: UpstreamPeerPool, check_model: bool, max_buffered: usize) -> ProxyService {
    ProxyService::new(true, check_model, false, pool, 10000, max_buffered)
}

#[test]
fn path_classification() {
    let s = service(UpstreamPeerPool::new(), false, 1);
    assert_eq!(s.path_uses_slots("/slots"), Err(ProxyError::SlotsEndpointDisabled));
    assert_eq!(s.path_uses_slots("/chat/completions"), Ok(true));
    assert_eq!(s.path_uses_slots("/completion"), Ok(true));
    assert_eq!(s.path_uses_slots("/v1/completions"), Ok(true));
    assert_eq!(s.path_uses_slots("/v1/chat/completions"), Ok(true));
    assert_eq!(s.path_uses_slots("/health"), Ok(false));
    let enabled = ProxyService::new(false, false, true, UpstreamPeerPool::new(), 1, 1);
    assert_eq!(enabled.path_uses_slots("/slots"), Ok(false));
}

#[test]
fn select_peer_step_and_buffer() {
    let mut pool = UpstreamPeerPool::new();
    pool.register_status_update("a", status(0, 2, None), 0);
    let mut s = service(pool, false, 1);
    let mut ctx = s.new_ctx();
    let guard = match s.select_peer_step(&mut ctx, 0) {
        PeerSelection::Buffered(g) => g,
        _ => panic!("expected the request to wait"),
    };
    assert_eq!(s.upstream_peer_pool.request_buffer_length, 1);
    let mut other = s.new_ctx();
    assert!(matches!(s.select_peer_step(&mut other, 0), PeerSelection::TooManyRequests));
    s.release_buffer_guard(guard);
    assert_eq!(s.upstream_peer_pool.request_buffer_length, 0);
    s.upstream_peer_pool.register_status_update("a", status(1, 1, None), 5);
    match s.select_peer_step(&mut ctx, 5) {
        PeerSelection::Selected(addr) => assert_eq!(addr, "127.0.0.1:8080"),
        _ => panic!("expected a peer"),
    }
    assert_eq!(s.upstream_host_header(&ctx), Some("127.0.0.1:8080".to_string()));
}

#[test]
fn law_buffer_guard_increment_then_release() {
    let mut length: usize = 2;
    let guard = RequestBufferGuard::increment(&mut length, 3).unwrap();
    assert_eq!(length, 3);
    assert!(RequestBufferGuard::increment(&mut length, 3).is_none());
    assert_eq!(length, 3);
    guard.release(&mut length);
    assert_eq!(length, 2);
}

#[test]
fn slot_release_on_error_and_end_of_stream() {
    let mut pool = UpstreamPeerPool::new();
    pool.register_status_update("a", status(2, 0, None), 0);
    let mut s = service(pool, false, 1);
    let mut ctx = s.new_ctx();
    assert!(matches!(s.select_peer_step(&mut ctx, 0), PeerSelection::Selected(_)));
    ctx.take_slot(&mut s.upstream_peer_pool).unwrap();
    assert_eq!(s.upstream_peer_pool.agents[0].slots_idle, 1);
    assert_eq!(s.response_body_filter(&mut ctx, false), Ok(()));
    assert!(ctx.slot_taken);
    assert_eq!(s.response_body_filter(&mut ctx, true), Ok(()));
    assert!(!ctx.slot_taken);
    assert_eq!(s.upstream_peer_pool.agents[0].slots_idle, 2);
    ctx.take_slot(&mut s.upstream_peer_pool).unwrap();
    assert_eq!(s.error_while_proxy(&mut ctx, true, false), Ok(true));
    assert!(!ctx.slot_taken);
    assert_eq!(s.error_while_proxy(&mut ctx, true, true), Ok(false));
    assert_eq!(s.upstream_peer_pool.agents[0].slots_idle, 2);
}

#[test]
fn error_while_proxy_fails_when_release_fails() {
    let mut pool = UpstreamPeerPool::new();
    pool.register_status_update("a", status(2, 0, None), 0);
    let mut s = service(pool, false, 1);
    let mut ctx = s.new_ctx();
    assert!(matches!(s.select_peer_step(&mut ctx, 0), PeerSelection::Selected(_)));
    ctx.slot_taken = true;
    assert_eq!(s.error_while_proxy(&mut ctx, true, false), Err(ProxyError::Internal));
}

#[test]
fn fail_to_connect_quarantines_and_retries() {
    let mut pool = UpstreamPeerPool::new();
    pool.register_status_update("a", status(2, 0, None), 0);
    let mut s = service(pool, false, 1);
    let mut ctx = s.new_ctx();
    assert_eq!(s.fail_to_connect(&mut ctx, 0), Ok(false));
    assert!(matches!(s.select_peer_step(&mut ctx, 0), PeerSelection::Selected(_)));
    assert_eq!(s.fail_to_connect(&mut ctx, 1000), Ok(true));
    assert!(ctx.selected_peer.is_none());
    assert_eq!(s.upstream_peer_pool.agents[0].quarantined_until, Some(1000 + PEER_QUARANTINE_MILLIS));
    assert!(matches!(s.select_peer_step(&mut ctx, 1000), PeerSelection::Buffered(_)));
}

#[test]
fn select_upstream_peer_through_context() {
    let mut pool = UpstreamPeerPool::new();
    let mut ctx = ProxyService::new(false, false, false, UpstreamPeerPool::new(), 1, 1).new_ctx();
    assert_eq!(ctx.select_upstream_peer(&pool, "/completion", false, 0), Err(SelectPeerError::NoPeerAvailable));
    pool.register_status_update("a", status(1, 0, None), 0);
    assert_eq!(ctx.select_upstream_peer(&pool, "/slots", false, 0), Err(SelectPeerError::SlotsEndpointDisabled));
    assert!(ctx.selected_peer.is_some());
    assert_eq!(ctx.select_upstream_peer(&pool, "/completion", false, 0), Ok("127.0.0.1:8080".to_string()));
    assert!(ctx.uses_slots);
    assert_eq!(ctx.select_upstream_peer(&pool, "/v1/completions", false, 0), Ok("127.0.0.1:8080".to_string()));
    assert!(!ctx.uses_slots);
}

#[test]
fn requested_model_json_and_pattern() {
    assert_eq!(requested_model_from_body(r#"{"model": "llama-3", "prompt": "hi"}"#), Some("llama-3".to_string()));
    assert_eq!(requested_model_from_body(r#"{"prompt": "hi"}"#), None);
    assert_eq!(requested_model_from_body(r#"{"model": 7}"#), None);
    assert_eq!(requested_model_from_body(r#"{"model" : 'qwen', broken"#), Some("qwen".to_string()));
    assert_eq!(requested_model_from_body("no model here"), None);
    assert_eq!(model_from_sources(Some(None), Some("x".to_string())), None);
    assert_eq!(model_from_sources(None, Some("x".to_string())), Some("x".to_string()));
}

#[test]
fn model_check() {
    let mut pool = UpstreamPeerPool::new();
    pool.register_status_update("a", status(1, 0, Some("llama-3")), 0);
    let s = service(pool, true, 1);
    let mut ctx = s.new_ctx();
    assert_eq!(s.check_requested_model(&mut ctx, true, Some("application/json"), Some("{}")), ModelCheck::Proceed);
    ctx.uses_slots = true;
    assert_eq!(s.check_requested_model(&mut ctx, true, Some("application/json"), Some(r#"{"model":"llama-3"}"#)), ModelCheck::Proceed);
    assert_eq!(ctx.requested_model, Some("llama-3".to_string()));
    assert_eq!(s.check_requested_model(&mut ctx, true, Some("application/json; charset=utf-8"), Some(r#"{"model":"qwen"}"#)), ModelCheck::ModelNotSupported);
    assert_eq!(s.check_requested_model(&mut ctx, true, Some("text/plain"), Some(r#"{"model":"llama-3"}"#)), ModelCheck::ModelMissing);
    assert_eq!(s.check_requested_model(&mut ctx, false, Some("application/json"), Some(r#"{"model":"llama-3"}"#)), ModelCheck::ModelMissing);
    assert_eq!(ctx.requested_model, None);
}
