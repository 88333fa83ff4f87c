//! What the proxy remembers about one request: the peer chosen for it and
//! whether it holds one of that peer's slots.
use vstd::prelude::*;

use crate::text::str_equals;
use crate::upstream_peer::UpstreamPeer;
use crate::upstream_peer_pool::best_peer;
use crate::upstream_peer_pool::is_sorted_by_preference;
use crate::upstream_peer_pool::release_slot_outcome;
use crate::upstream_peer_pool::same_peers;
use crate::upstream_peer_pool::take_slot_outcome;
use crate::upstream_peer_pool::PoolError;
use crate::upstream_peer_pool::UpstreamPeerPool;

verus! {

pub struct RequestContext {
    pub slot_taken: bool,
    pub selected_peer: Option<UpstreamPeer>,
    pub uses_slots: bool,
    /// The model the request names, when the proxy checks it.
    pub requested_model: Option<String>,
}

/// Why a slot operation of a request failed.
#[derive(PartialEq, Eq, Structural, Debug, Clone, Copy)]
pub enum RequestContextError {
    /// "There is no peer available to release a slot into"
    NoPeerToReleaseInto,
    /// "There is no peer available to take a slot from"
    NoPeerToTakeFrom,
    Pool(PoolError),
}

/// Why no peer address could be given for a request.
#[derive(PartialEq, Eq, Structural, Debug, Clone, Copy)]
pub enum SelectPeerError {
    /// "Slots endpoint is disabled"
    SlotsEndpointDisabled,
    /// "No peer available"
    NoPeerAvailable,
}

/// Whether a request to `path` occupies a slot while it is served, when the
/// peer is chosen through the request context; `Err` when the path is the
/// disabled slots endpoint.
pub open spec fn context_path_uses_slots(path: Seq<char>, slots_endpoint_enable: bool) -> Result<
    bool,
    SelectPeerError,
> {
    if path == "/slots"@ {
        if slots_endpoint_enable {
            Ok(false)
        } else {
            Err(SelectPeerError::SlotsEndpointDisabled)
        }
    } else {
        Ok(path == "/chat/completions"@ || path == "/completion"@ || path
            == "/v1/chat/completions"@)
    }
}

/// The completion endpoints `/chat/completions`, `/completion` and
/// `/v1/chat/completions` occupy a slot while they are served; `/slots`
/// occupies none when it is enabled and is refused when it is not; every
/// other path occupies none.
pub proof fn law_completion_requests_use_slots(path: Seq<char>, slots_endpoint_enable: bool)
    ensures
        path == "/chat/completions"@ ==> context_path_uses_slots(path, slots_endpoint_enable)
            == Ok::<bool, SelectPeerError>(true),
        path == "/completion"@ ==> context_path_uses_slots(path, slots_endpoint_enable) == Ok::<
            bool,
            SelectPeerError,
        >(true),
        path == "/v1/chat/completions"@ ==> context_path_uses_slots(path, slots_endpoint_enable)
            == Ok::<bool, SelectPeerError>(true),
        path == "/slots"@ && slots_endpoint_enable ==> context_path_uses_slots(
            path,
            slots_endpoint_enable,
        ) == Ok::<bool, SelectPeerError>(false),
        path == "/slots"@ && !slots_endpoint_enable ==> context_path_uses_slots(
            path,
            slots_endpoint_enable,
        ) == Err::<bool, SelectPeerError>(SelectPeerError::SlotsEndpointDisabled),
        path != "/chat/completions"@ && path != "/completion"@ && path != "/v1/chat/completions"@
            && path != "/slots"@ ==> context_path_uses_slots(path, slots_endpoint_enable) == Ok::<
            bool,
            SelectPeerError,
        >(false),
{
    reveal_strlit("/slots");
    reveal_strlit("/chat/completions");
    reveal_strlit("/completion");
    reveal_strlit("/v1/chat/completions");
    assert("/slots"@.len() == 6);
    assert("/chat/completions"@.len() == 17);
    assert("/completion"@.len() == 11);
    assert("/v1/chat/completions"@.len() == 20);
}

/// The pool holds the same peers in the same order and the same buffer length.
pub open spec fn same_pool(a: UpstreamPeerPool, b: UpstreamPeerPool) -> bool {
    a.agents@ == b.agents@ && a.request_buffer_length == b.request_buffer_length
}

/// The pool after a slot operation succeeded: the peers the operation left,
/// put back in order of preference.
pub open spec fn pool_after(
    old_pool: UpstreamPeerPool,
    new_pool: UpstreamPeerPool,
    peers: Seq<UpstreamPeer>,
) -> bool {
    &&& same_peers(new_pool.agents@, peers)
    &&& is_sorted_by_preference(new_pool.agents@)
    &&& new_pool.request_buffer_length == old_pool.request_buffer_length
}

impl RequestContext {
    /// Gives the slot held on the selected peer back to the pool.
    pub fn release_slot(&mut self, pool: &mut UpstreamPeerPool) -> (res: Result<
        (),
        RequestContextError,
    >)
        requires
            old(pool).wf(),
        ensures
            final(pool).wf(),
            old(self).selected_peer is None ==> res == Err::<(), RequestContextError>(
                RequestContextError::NoPeerToReleaseInto,
            ) && *final(self) == *old(self) && same_pool(*old(pool), *final(pool)),
            old(self).selected_peer matches Some(peer) ==> ({
                let (r, peers) = release_slot_outcome(
                    old(pool).agents@,
                    peer.agent_id@,
                    peer.last_update,
                );
                &&& r matches Err(e) ==> res == Err::<(), RequestContextError>(
                    RequestContextError::Pool(e),
                ) && *final(self) == *old(self) && same_pool(*old(pool), *final(pool))
                &&& r is Ok ==> res is Ok && *final(self) == (RequestContext {
                    slot_taken: false,
                    ..*old(self)
                }) && pool_after(*old(pool), *final(pool), peers)
            }),
    {
        match &self.selected_peer {
            Some(peer) => {
                match pool.release_slot(peer.agent_id.as_str(), peer.last_update) {
                    Err(e) => {
                        return Err(RequestContextError::Pool(e));
                    },
                    Ok(()) => {},
                }
                pool.restore_integrity();
                self.slot_taken = false;
                Ok(())
            },
            None => Err(RequestContextError::NoPeerToReleaseInto),
        }
    }

    /// Takes a slot of the selected peer for this request.
    pub fn take_slot(&mut self, pool: &mut UpstreamPeerPool) -> (res: Result<
        (),
        RequestContextError,
    >)
        requires
            old(pool).wf(),
        ensures
            final(pool).wf(),
            old(self).selected_peer is None ==> res == Err::<(), RequestContextError>(
                RequestContextError::NoPeerToTakeFrom,
            ) && *final(self) == *old(self) && same_pool(*old(pool), *final(pool)),
            old(self).selected_peer matches Some(peer) ==> ({
                let (r, peers) = take_slot_outcome(old(pool).agents@, peer.agent_id@);
                &&& r matches Err(e) ==> res == Err::<(), RequestContextError>(
                    RequestContextError::Pool(e),
                ) && *final(self) == *old(self) && same_pool(*old(pool), *final(pool))
                &&& r is Ok ==> res is Ok && *final(self) == (RequestContext {
                    slot_taken: true,
                    ..*old(self)
                }) && pool_after(*old(pool), *final(pool), peers)
            }),
    {
        match &self.selected_peer {
            Some(peer) => {
                match pool.take_slot(peer.agent_id.as_str()) {
                    Err(e) => {
                        return Err(RequestContextError::Pool(e));
                    },
                    Ok(()) => {},
                }
                pool.restore_integrity();
                self.slot_taken = true;
                Ok(())
            },
            None => Err(RequestContextError::NoPeerToTakeFrom),
        }
    }
    /// Chooses a peer for the request if none is chosen yet, records whether
    /// the request to `path` occupies a slot, and gives the address of the
    /// peer's llama.cpp server.
    pub fn select_upstream_peer(
        &mut self,
        pool: &UpstreamPeerPool,
        path: &str,
        slots_endpoint_enable: bool,
        now: u64,
    ) -> (res: Result<String, SelectPeerError>)
        ensures
            ({
                let selected = if old(self).selected_peer is None {
                    best_peer(pool.agents@, now)
                } else {
                    old(self).selected_peer
                };
                &&& final(self).selected_peer == selected
                &&& final(self).slot_taken == old(self).slot_taken
                &&& final(self).requested_model == old(self).requested_model
                &&& selected is None ==> res == Err::<String, SelectPeerError>(
                    SelectPeerError::NoPeerAvailable,
                ) && final(self).uses_slots == old(self).uses_slots
                &&& selected matches Some(peer) ==> match context_path_uses_slots(
                    path@,
                    slots_endpoint_enable,
                ) {
                    Err(e) => res == Err::<String, SelectPeerError>(e) && final(self).uses_slots
                        == old(self).uses_slots,
                    Ok(uses_slots) => final(self).uses_slots == uses_slots && (res matches Ok(
                        addr,
                    ) && addr@ == peer.external_llamacpp_addr@),
                }
            }),
    {
        if self.selected_peer.is_none() {
            self.selected_peer = pool.use_best_peer(now);
        }
        if self.selected_peer.is_some() {
            self.uses_slots = if str_equals(path, "/slots") {
                if !slots_endpoint_enable {
                    return Err(SelectPeerError::SlotsEndpointDisabled);
                }
                false
            } else if str_equals(path, "/chat/completions") {
                true
            } else if str_equals(path, "/completion") {
                true
            } else if str_equals(path, "/v1/chat/completions") {
                true
            } else {
                false
            };
        }
        match &self.selected_peer {
            Some(peer) => Ok(peer.external_llamacpp_addr.clone()),
            None => Err(SelectPeerError::NoPeerAvailable),
        }
    }
}

} // verus!
