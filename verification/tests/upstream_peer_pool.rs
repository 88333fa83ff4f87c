use paddler::upstream_peer::SlotError;
use paddler::upstream_peer::StatusUpdate;
use paddler::upstream_peer_pool::PoolError;
use paddler::upstream_peer_pool::UpstreamPeerPool;

fn status(slots_idle: usize, slots_processing: usize) -> StatusUpdate {
    StatusUpdate {
        agent_name: None,
        error: None,
        external_llamacpp_addr: "10.0.0.1:8080".to_string(),
        model: None,
        slots_idle,
        slots_processing,
    }
}

fn counts(pool: &UpstreamPeerPool) -> Vec<(String, usize, usize)> {
    pool.agents
        .iter()
        .map(|p| (p.agent_id.clone(), p.slots_idle, p.slots_processing))
        .collect()
}

#[test]
fn register_orders_peers_by_preference() {
    let mut pool = UpstreamPeerPool::new();
    pool.register_status_update("a", status(1, 3), 10);
    pool.register_status_update("b", status(4, 0), 10);
    pool.register_status_update("c", status(1, 1), 10);
    assert_eq!(
        counts(&pool),
        vec![("b".to_string(), 4, 0), ("c".to_string(), 1, 1), ("a".to_string(), 1, 3)]
    );
}

#[test]
fn register_updates_existing_peer() {
    let mut pool = UpstreamPeerPool::new();
    pool.register_status_update("a", status(1, 3), 10);
    pool.register_status_update("a", status(2, 2), 20);
    assert_eq!(pool.agents.len(), 1);
    assert_eq!(pool.agents[0].slots_idle, 2);
    assert_eq!(pool.agents[0].last_update, 20);
}

#[test]
fn take_slot_moves_idle_to_processing() {
    let mut pool = UpstreamPeerPool::new();
    pool.register_status_update("a", status(2, 0), 10);
    assert_eq!(pool.take_slot("a"), Ok(()));
    assert_eq!(counts(&pool), vec![("a".to_string(), 1, 1)]);
}

#[test]
fn take_slot_errors() {
    let mut pool = UpstreamPeerPool::new();
    pool.register_status_update("a", status(0, 2), 10);
    assert_eq!(pool.take_slot("missing"), Err(PoolError::NoSuchPeer));
    assert_eq!(pool.take_slot("a"), Err(PoolError::Slot(SlotError::NoIdleSlot)));
    assert_eq!(counts(&pool), vec![("a".to_string(), 0, 2)]);
}

#[test]
fn release_slot_errors_and_newer_report() {
    let mut pool = UpstreamPeerPool::new();
    pool.register_status_update("a", status(3, 0), 10);
    assert_eq!(pool.release_slot("missing", 10), Err(PoolError::NoSuchPeer));
    assert_eq!(pool.release_slot("a", 10), Err(PoolError::Slot(SlotError::NoProcessingSlot)));
    pool.register_status_update("a", status(2, 1), 30);
    // the report of time 30 is newer than the slot taken under the report of time 10
    assert_eq!(pool.release_slot("a", 10), Ok(()));
    assert_eq!(counts(&pool), vec![("a".to_string(), 2, 1)]);
    assert_eq!(pool.release_slot("a", 30), Ok(()));
    assert_eq!(counts(&pool), vec![("a".to_string(), 3, 0)]);
}

#[test]
fn law_take_then_release_restores_pool() {
    let mut pool = UpstreamPeerPool::new();
    pool.register_status_update("a", status(1, 2), 10);
    pool.register_status_update("b", status(1, 1), 10);
    let before = counts(&pool);
    pool.take_slot("b").unwrap();
    pool.restore_integrity();
    pool.release_slot("b", 10).unwrap();
    pool.restore_integrity();
    assert_eq!(counts(&pool), before);
}

#[test]
fn law_best_peer_is_preferred_usable_peer() {
    let mut pool = UpstreamPeerPool::new();
    pool.register_status_update("a", status(1, 0), 10);
    pool.register_status_update("b", status(3, 0), 10);
    let mut broken = status(9, 0);
    broken.error = Some("unreachable".to_string());
    pool.register_status_update("c", broken, 10);
    let best = pool.use_best_peer(10).unwrap();
    assert_eq!(best.agent_id, "b");
}

#[test]
fn no_usable_peer() {
    let mut pool = UpstreamPeerPool::new();
    assert!(pool.use_best_peer(0).is_none());
    pool.register_status_update("a", status(0, 4), 10);
    assert!(pool.use_best_peer(10).is_none());
}

#[test]
fn law_quarantined_peer_not_chosen_until_it_ends() {
    let mut pool = UpstreamPeerPool::new();
    pool.register_status_update("a", status(5, 0), 10);
    pool.register_status_update("b", status(1, 0), 10);
    assert!(pool.quarantine_peer("a", 100));
    assert!(!pool.quarantine_peer("missing", 100));
    assert_eq!(pool.use_best_peer(50).unwrap().agent_id, "b");
    assert_eq!(pool.use_best_peer(100).unwrap().agent_id, "a");
}

#[test]
fn peer_supporting_model() {
    let mut pool = UpstreamPeerPool::new();
    let mut s = status(1, 0);
    s.model = Some("llama-3".to_string());
    pool.register_status_update("a", s, 10);
    assert!(pool.has_peer_supporting_model("llama-3"));
    assert!(!pool.has_peer_supporting_model("qwen"));
    assert_eq!(pool.find_agent("a"), Some(0));
    assert_eq!(pool.find_agent("z"), None);
}

#[test]
fn law_register_then_remove_restores_pool() {
    let mut pool = UpstreamPeerPool::new();
    pool.register_status_update("a", status(2, 1), 10);
    let before = counts(&pool);
    pool.register_status_update("b", status(5, 0), 10);
    assert!(pool.remove_peer("b"));
    assert!(!pool.remove_peer("b"));
    assert_eq!(counts(&pool), before);
}

#[test]
fn total_slots_sums_all_peers() {
    let mut pool = UpstreamPeerPool::new();
    assert_eq!(pool.total_slots(), Some((0, 0)));
    pool.register_status_update("a", status(2, 1), 10);
    pool.register_status_update("b", status(5, 3), 10);
    assert_eq!(pool.total_slots(), Some((7, 4)));
    pool.register_status_update("c", status(usize::MAX - 1, 0), 10);
    assert_eq!(pool.total_slots(), None);
}

#[test]
fn law_pool_total_slots_kept_by_slot_operations() {
    let mut pool = UpstreamPeerPool::new();
    pool.register_status_update("a", status(2, 1), 10);
    pool.register_status_update("b", status(1, 3), 10);
    assert_eq!(pool.total_slots(), Some((3, 4)));
    pool.take_slot("a").unwrap();
    assert_eq!(pool.total_slots(), Some((2, 5)));
    pool.release_slot("b", 10).unwrap();
    assert_eq!(pool.total_slots(), Some((3, 4)));
}
