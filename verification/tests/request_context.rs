use paddler::request_context::RequestContext;
use paddler::upstream_peer::StatusUpdate;
use paddler::upstream_peer_pool::UpstreamPeerPool;

fn mock_status_update(agent_id: &str, slots_idle: usize, slots_processing: usize) -> StatusUpdate {
    StatusUpdate {
        agent_name: Some(agent_id.to_string()),
        error: None,
        external_llamacpp_addr: "127.0.0.1:8080".to_string(),
        model: None,
        slots_idle,
        slots_processing,
    }
}

fn create_test_context() -> RequestContext {
    RequestContext {
        slot_taken: false,
        selected_peer: None,
        uses_slots: true,
        requested_model: None,
    }
}

fn find_peer(pool: &UpstreamPeerPool, agent_id: &str) -> (usize, usize) {
    let peer = pool.agents.iter().find(|p| p.agent_id == agent_id).unwrap();
    (peer.slots_idle, peer.slots_processing)
}

#[test]
fn test_take_slot_failure_and_retry() {
    let mut pool = UpstreamPeerPool::new();
    let mut ctx = create_test_context();

    pool.register_status_update("test_agent", mock_status_update("test_agent", 0, 0), 0);

    assert!(ctx.take_slot(&mut pool).is_err());

    assert!(!ctx.slot_taken);
    assert!(ctx.selected_peer.is_none());
}

#[test]
fn test_release_slot_success() {
    let mut pool = UpstreamPeerPool::new();
    let mut ctx = create_test_context();

    pool.register_status_update("test_agent", mock_status_update("test_agent", 1, 4), 0);

    let peer_addr = ctx.select_upstream_peer(&pool, "/test", false, 0).unwrap();

    assert_eq!(format!("addr: {}, scheme: HTTP,", peer_addr), "addr: 127.0.0.1:8080, scheme: HTTP,");

    ctx.take_slot(&mut pool).unwrap();

    assert!(ctx.slot_taken);

    ctx.release_slot(&mut pool).unwrap();

    assert!(!ctx.slot_taken);

    assert_eq!(find_peer(&pool, "test_agent"), (1, 4));
}

#[test]
fn test_release_slot_failure() {
    let mut pool = UpstreamPeerPool::new();
    let mut ctx = create_test_context();

    pool.register_status_update("test_agent", mock_status_update("test_agent", 5, 0), 0);

    assert!(ctx.release_slot(&mut pool).is_err());

    assert_eq!(find_peer(&pool, "test_agent"), (5, 0));
}
