//! The decisions of the reverse proxy in front of the agents: which requests
//! occupy slots, which peer serves a request, how many requests may wait for
//! a slot, and what happens to slots when a request ends or fails.
use vstd::prelude::*;

use crate::request_context::same_pool;
use crate::request_context::RequestContext;
use crate::requested_model::opt_view;
use crate::requested_model::requested_model_from_body;
use crate::requested_model::spec_requested_model;
use crate::text::contains_str;
use crate::text::contains_seq;
use crate::text::str_equals;
use crate::upstream_peer::UpstreamPeer;
use crate::upstream_peer_pool::best_peer;
use crate::upstream_peer_pool::has_agent;
use crate::upstream_peer_pool::index_of_agent;
use crate::upstream_peer_pool::is_sorted_by_preference;
use crate::upstream_peer_pool::release_slot_outcome;
use crate::upstream_peer_pool::same_peers;
use crate::upstream_peer_pool::UpstreamPeerPool;

verus! {

/// How long (in milliseconds) a peer that refused a connection is kept from
/// receiving requests.
pub const PEER_QUARANTINE_MILLIS: u64 = 10000;

/// Whether one more request may wait in a buffer holding `length` requests
/// of at most `max_buffered_requests`, and the buffer length afterwards.
pub open spec fn buffer_after_increment(length: int, max_buffered_requests: int) -> (bool, int) {
    if length >= max_buffered_requests {
        (false, length)
    } else {
        (true, length + 1)
    }
}

/// The buffer never holds more than `max_buffered_requests` requests, and a
/// request that was let in and then leaves restores the buffer's length.
pub proof fn law_buffer_within_limit(length: int, max_buffered_requests: int)
    requires
        0 <= length <= max_buffered_requests,
    ensures
        buffer_after_increment(length, max_buffered_requests).1 <= max_buffered_requests,
        buffer_after_increment(length, max_buffered_requests).0 ==> buffer_after_increment(
            length,
            max_buffered_requests,
        ).1 - 1 == length,
        !buffer_after_increment(length, max_buffered_requests).0 <==> length
            == max_buffered_requests,
{
}

/// One request waiting in the buffer for a slot. It is counted in the
/// buffer length from `increment` until `release`.
pub struct RequestBufferGuard {}

impl RequestBufferGuard {
    /// Counts one more waiting request, unless `max_buffered_requests` are
    /// already waiting.
    pub fn increment(length: &mut usize, max_buffered_requests: usize) -> (res: Option<
        RequestBufferGuard,
    >)
        ensures
            (res is Some, *final(length) as int) == buffer_after_increment(
                *old(length) as int,
                max_buffered_requests as int,
            ),
    {
        if *length >= max_buffered_requests {
            None
        } else {
            *length = *length + 1;
            Some(RequestBufferGuard {})
        }
    }

    /// The request stops waiting: it is no longer counted.
    pub fn release(self, length: &mut usize)
        requires
            *old(length) >= 1,
        ensures
            *final(length) == *old(length) - 1,
    {
        *length = *length - 1;
    }
}

/// Why the proxy refuses or aborts a request.
#[derive(PartialEq, Eq, Structural, Debug, Clone, Copy)]
pub enum ProxyError {
    /// The pool could not be updated.
    Internal,
    /// "Slots endpoint is disabled"
    SlotsEndpointDisabled,
}

/// What the proxy does next while looking for a peer for a request.
pub enum PeerSelection {
    /// Forward the request to this `host:port`.
    Selected(String),
    /// No slot is available: the request waits, counted in the buffer, until
    /// a slot may have become available, then asks again.
    Buffered(RequestBufferGuard),
    /// No slot is available and the buffer is full: answer 429.
    TooManyRequests,
}

/// Whether a request to `path` occupies a slot while it is served; `Err`
/// when the path is the disabled slots endpoint.
pub open spec fn proxy_path_uses_slots(path: Seq<char>, slots_endpoint_enable: bool) -> Result<
    bool,
    ProxyError,
> {
    if path == "/slots"@ {
        if slots_endpoint_enable {
            Ok(false)
        } else {
            Err(ProxyError::SlotsEndpointDisabled)
        }
    } else {
        Ok(path == "/chat/completions"@ || path == "/completion"@ || path == "/v1/completions"@
            || path == "/v1/chat/completions"@)
    }
}

/// The proxy counts slots for `/chat/completions`, `/completion`,
/// `/v1/completions` and `/v1/chat/completions`; `/slots` occupies none when
/// it is enabled and is refused when it is not; every other path occupies
/// none.
pub proof fn law_proxy_completion_requests_use_slots(path: Seq<char>, slots_endpoint_enable: bool)
    ensures
        path == "/chat/completions"@ ==> proxy_path_uses_slots(path, slots_endpoint_enable) == Ok::<
            bool,
            ProxyError,
        >(true),
        path == "/completion"@ ==> proxy_path_uses_slots(path, slots_endpoint_enable) == Ok::<
            bool,
            ProxyError,
        >(true),
        path == "/v1/completions"@ ==> proxy_path_uses_slots(path, slots_endpoint_enable) == Ok::<
            bool,
            ProxyError,
        >(true),
        path == "/v1/chat/completions"@ ==> proxy_path_uses_slots(path, slots_endpoint_enable)
            == Ok::<bool, ProxyError>(true),
        path == "/slots"@ && slots_endpoint_enable ==> proxy_path_uses_slots(
            path,
            slots_endpoint_enable,
        ) == Ok::<bool, ProxyError>(false),
        path == "/slots"@ && !slots_endpoint_enable ==> proxy_path_uses_slots(
            path,
            slots_endpoint_enable,
        ) == Err::<bool, ProxyError>(ProxyError::SlotsEndpointDisabled),
        path != "/chat/completions"@ && path != "/completion"@ && path != "/v1/completions"@ && path
            != "/v1/chat/completions"@ && path != "/slots"@ ==> proxy_path_uses_slots(
            path,
            slots_endpoint_enable,
        ) == Ok::<bool, ProxyError>(false),
{
    reveal_strlit("/slots");
    reveal_strlit("/chat/completions");
    reveal_strlit("/completion");
    reveal_strlit("/v1/completions");
    reveal_strlit("/v1/chat/completions");
    assert("/slots"@.len() == 6);
    assert("/chat/completions"@.len() == 17);
    assert("/completion"@.len() == 11);
    assert("/v1/completions"@.len() == 15);
    assert("/v1/chat/completions"@.len() == 20);
}

/// What the proxy does with a request after looking at the model it names.
#[derive(PartialEq, Eq, Structural, Debug, Clone, Copy)]
pub enum ModelCheck {
    /// Go on looking for a peer.
    Proceed,
    /// The request names no model: answer 400.
    ModelMissing,
    /// No agent serves the model: answer 404.
    ModelNotSupported,
}

/// The model a request names, as far as the proxy reads it: only a POST
/// whose content type mentions `application/json` and that has a body.
pub open spec fn model_named_by_request(
    is_post: bool,
    content_type: Option<Seq<char>>,
    body: Option<Seq<char>>,
) -> Option<Seq<char>> {
    if is_post && (content_type matches Some(ct) && contains_seq(ct, "application/json"@)) {
        match body {
            Some(b) => spec_requested_model(b),
            None => None,
        }
    } else {
        None
    }
}

/// Some agent serves the model `model`.
pub open spec fn pool_serves(pool: UpstreamPeerPool, model: Seq<char>) -> bool {
    exists|i: int|
        0 <= i < pool.agents@.len() && crate::upstream_peer_pool::serves_model(
            #[trigger] pool.agents@[i],
            model,
        )
}

pub struct ProxyService {
    pub buffered_request_timeout_millis: u64,
    pub max_buffered_requests: usize,
    pub rewrite_host_header: bool,
    pub check_model: bool,
    pub slots_endpoint_enable: bool,
    pub upstream_peer_pool: UpstreamPeerPool,
}

impl ProxyService {
    pub open spec fn wf(&self) -> bool {
        self.upstream_peer_pool.wf()
    }

    pub fn new(
        rewrite_host_header: bool,
        check_model: bool,
        slots_endpoint_enable: bool,
        upstream_peer_pool: UpstreamPeerPool,
        buffered_request_timeout_millis: u64,
        max_buffered_requests: usize,
    ) -> (res: ProxyService)
        ensures
            res.rewrite_host_header == rewrite_host_header,
            res.check_model == check_model,
            res.slots_endpoint_enable == slots_endpoint_enable,
            res.upstream_peer_pool == upstream_peer_pool,
            res.buffered_request_timeout_millis == buffered_request_timeout_millis,
            res.max_buffered_requests == max_buffered_requests,
    {
        ProxyService {
            rewrite_host_header,
            check_model,
            slots_endpoint_enable,
            upstream_peer_pool,
            buffered_request_timeout_millis,
            max_buffered_requests,
        }
    }

    /// The context a new request starts with.
    pub fn new_ctx(&self) -> (res: RequestContext)
        ensures
            res.selected_peer is None,
            !res.slot_taken,
            !res.uses_slots,
            res.requested_model matches Some(m) && m@ == Seq::<char>::empty(),
    {
        RequestContext {
            selected_peer: None,
            slot_taken: false,
            uses_slots: false,
            requested_model: Some(String::new()),
        }
    }

    /// Whether a request to `path` occupies a slot while it is served.
    pub fn path_uses_slots(&self, path: &str) -> (res: Result<bool, ProxyError>)
        ensures
            res == proxy_path_uses_slots(path@, self.slots_endpoint_enable),
    {
        if str_equals(path, "/slots") {
            if !self.slots_endpoint_enable {
                return Err(ProxyError::SlotsEndpointDisabled);
            }
            Ok(false)
        } else if str_equals(path, "/chat/completions") {
            Ok(true)
        } else if str_equals(path, "/completion") {
            Ok(true)
        } else if str_equals(path, "/v1/completions") {
            Ok(true)
        } else if str_equals(path, "/v1/chat/completions") {
            Ok(true)
        } else {
            Ok(false)
        }
    }

    /// Proxying failed: the slot the request held is given back. The answer
    /// says whether the connection may be retried (only a reused client
    /// connection whose retry buffer is whole).
    pub fn error_while_proxy(
        &mut self,
        ctx: &mut RequestContext,
        client_reused: bool,
        retry_buffer_truncated: bool,
    ) -> (res: Result<bool, ProxyError>)
        requires
            old(self).wf(),
        ensures
            final(self).wf(),
            !old(ctx).slot_taken ==> res == Ok::<bool, ProxyError>(
                client_reused && !retry_buffer_truncated,
            ) && *final(ctx) == *old(ctx) && same_pool(
                old(self).upstream_peer_pool,
                final(self).upstream_peer_pool,
            ),
            old(ctx).slot_taken ==> match old(ctx).selected_peer {
                None => res == Err::<bool, ProxyError>(ProxyError::Internal) && *final(ctx)
                    == *old(ctx) && same_pool(
                    old(self).upstream_peer_pool,
                    final(self).upstream_peer_pool,
                ),
                Some(peer) => {
                    let (r, peers) = release_slot_outcome(
                        old(self).upstream_peer_pool.agents@,
                        peer.agent_id@,
                        peer.last_update,
                    );
                    &&& r is Err ==> res == Err::<bool, ProxyError>(ProxyError::Internal)
                        && *final(ctx) == *old(ctx) && same_pool(
                        old(self).upstream_peer_pool,
                        final(self).upstream_peer_pool,
                    )
                    &&& r is Ok ==> res == Ok::<bool, ProxyError>(
                        client_reused && !retry_buffer_truncated,
                    ) && !final(ctx).slot_taken && same_peers(
                        final(self).upstream_peer_pool.agents@,
                        peers,
                    ) && is_sorted_by_preference(final(self).upstream_peer_pool.agents@)
                },
            },
    {
        if ctx.slot_taken {
            if ctx.release_slot(&mut self.upstream_peer_pool).is_err() {
                return Err(ProxyError::Internal);
            }
        }
        Ok(client_reused && !retry_buffer_truncated)
    }

    /// The selected peer refused the connection: it is quarantined until
    /// `now + PEER_QUARANTINE_MILLIS`, the request forgets it, and the answer
    /// asks for a retry with another peer.
    pub fn fail_to_connect(&mut self, ctx: &mut RequestContext, now: u64) -> (res: Result<
        bool,
        ProxyError,
    >)
        requires
            old(self).wf(),
        ensures
            final(self).wf(),
            res is Ok,
            final(self).upstream_peer_pool.request_buffer_length == old(
                self,
            ).upstream_peer_pool.request_buffer_length,
            match old(ctx).selected_peer {
                None => res == Ok::<bool, ProxyError>(false) && *final(ctx) == *old(ctx)
                    && same_pool(old(self).upstream_peer_pool, final(self).upstream_peer_pool),
                Some(peer) => if has_agent(old(self).upstream_peer_pool.agents@, peer.agent_id@) {
                    let s = old(self).upstream_peer_pool.agents@;
                    let i = index_of_agent(s, peer.agent_id@);
                    &&& res == Ok::<bool, ProxyError>(true)
                    &&& *final(ctx) == (RequestContext { selected_peer: None, ..*old(ctx) })
                    &&& same_peers(
                        final(self).upstream_peer_pool.agents@,
                        s.update(
                            i,
                            UpstreamPeer {
                                quarantined_until: Some(
                                    if now + PEER_QUARANTINE_MILLIS <= u64::MAX {
                                        (now + PEER_QUARANTINE_MILLIS) as u64
                                    } else {
                                        u64::MAX
                                    },
                                ),
                                ..s[i]
                            },
                        ),
                    )
                    &&& is_sorted_by_preference(final(self).upstream_peer_pool.agents@)
                } else {
                    res == Ok::<bool, ProxyError>(false) && *final(ctx) == *old(ctx) && same_pool(
                        old(self).upstream_peer_pool,
                        final(self).upstream_peer_pool,
                    )
                },
            },
    {
        match &ctx.selected_peer {
            Some(peer) => {
                let until = now.saturating_add(PEER_QUARANTINE_MILLIS);
                if self.upstream_peer_pool.quarantine_peer(peer.agent_id.as_str(), until) {
                    self.upstream_peer_pool.restore_integrity();
                    ctx.selected_peer = None;
                    Ok(true)
                } else {
                    Ok(false)
                }
            },
            None => Ok(false),
        }
    }

    /// A chunk of the response went through: at the end of the stream the
    /// slot the request held is given back.
    pub fn response_body_filter(&mut self, ctx: &mut RequestContext, end_of_stream: bool) -> (res:
        Result<(), ProxyError>)
        requires
            old(self).wf(),
        ensures
            final(self).wf(),
            !(old(ctx).slot_taken && end_of_stream) ==> res is Ok && *final(ctx) == *old(ctx)
                && same_pool(old(self).upstream_peer_pool, final(self).upstream_peer_pool),
            old(ctx).slot_taken && end_of_stream ==> match old(ctx).selected_peer {
                None => res == Err::<(), ProxyError>(ProxyError::Internal) && *final(ctx)
                    == *old(ctx) && same_pool(
                    old(self).upstream_peer_pool,
                    final(self).upstream_peer_pool,
                ),
                Some(peer) => {
                    let (r, peers) = release_slot_outcome(
                        old(self).upstream_peer_pool.agents@,
                        peer.agent_id@,
                        peer.last_update,
                    );
                    &&& r is Err ==> res == Err::<(), ProxyError>(ProxyError::Internal)
                        && *final(ctx) == *old(ctx) && same_pool(
                        old(self).upstream_peer_pool,
                        final(self).upstream_peer_pool,
                    )
                    &&& r is Ok ==> res is Ok && !final(ctx).slot_taken && same_peers(
                        final(self).upstream_peer_pool.agents@,
                        peers,
                    ) && is_sorted_by_preference(final(self).upstream_peer_pool.agents@)
                },
            },
    {
        if ctx.slot_taken && end_of_stream {
            if ctx.release_slot(&mut self.upstream_peer_pool).is_err() {
                return Err(ProxyError::Internal);
            }
        }
        Ok(())
    }

    /// The `Host` header the forwarded request carries, when it is rewritten.
    pub fn upstream_host_header(&self, ctx: &RequestContext) -> (res: Option<String>)
        ensures
            match (self.rewrite_host_header, ctx.selected_peer) {
                (true, Some(peer)) => res matches Some(h) && h@ == peer.external_llamacpp_addr@,
                _ => res is None,
            },
    {
        if self.rewrite_host_header {
            match &ctx.selected_peer {
                Some(peer) => {
                    return Some(peer.external_llamacpp_addr.clone());
                },
                None => {},
            }
        }
        None
    }

    /// One round of looking for a peer for the request: the chosen peer, or
    /// else a place in the buffer, or else a refusal.
    pub fn select_peer_step(&mut self, ctx: &mut RequestContext, now: u64) -> (res: PeerSelection)
        requires
            old(self).wf(),
        ensures
            final(self).wf(),
            final(self).upstream_peer_pool.agents@ == old(self).upstream_peer_pool.agents@,
            ({
                let selected = if old(ctx).selected_peer is None {
                    best_peer(old(self).upstream_peer_pool.agents@, now)
                } else {
                    old(ctx).selected_peer
                };
                let length = old(self).upstream_peer_pool.request_buffer_length;
                &&& *final(ctx) == (RequestContext { selected_peer: selected, ..*old(ctx) })
                &&& selected matches Some(peer) ==> (res matches PeerSelection::Selected(addr)
                    && addr@ == peer.external_llamacpp_addr@)
                    && final(self).upstream_peer_pool.request_buffer_length == length
                &&& selected is None && length >= old(self).max_buffered_requests ==> (
                res is TooManyRequests) && final(self).upstream_peer_pool.request_buffer_length
                    == length
                &&& selected is None && length < old(self).max_buffered_requests ==> (
                res is Buffered) && final(self).upstream_peer_pool.request_buffer_length == length
                    + 1
            }),
    {
        if ctx.selected_peer.is_none() {
            ctx.selected_peer = self.upstream_peer_pool.use_best_peer(now);
        }
        match &ctx.selected_peer {
            Some(peer) => PeerSelection::Selected(peer.external_llamacpp_addr.clone()),
            None => {
                match RequestBufferGuard::increment(
                    &mut self.upstream_peer_pool.request_buffer_length,
                    self.max_buffered_requests,
                ) {
                    Some(guard) => PeerSelection::Buffered(guard),
                    None => PeerSelection::TooManyRequests,
                }
            },
        }
    }

    /// A buffered request stops waiting.
    pub fn release_buffer_guard(&mut self, guard: RequestBufferGuard)
        requires
            old(self).wf(),
            old(self).upstream_peer_pool.request_buffer_length >= 1,
        ensures
            final(self).wf(),
            final(self).upstream_peer_pool.agents@ == old(self).upstream_peer_pool.agents@,
            final(self).upstream_peer_pool.request_buffer_length == old(
                self,
            ).upstream_peer_pool.request_buffer_length - 1,
    {
        guard.release(&mut self.upstream_peer_pool.request_buffer_length);
    }
    /// Records the model the request names and decides whether the request
    /// may go on.
    pub fn model_check_outcome(&self, ctx: &mut RequestContext, requested_model: Option<String>) -> (res:
        ModelCheck)
        ensures
            *final(ctx) == (RequestContext { requested_model, ..*old(ctx) }),
            match requested_model {
                None => res == ModelCheck::ModelMissing,
                Some(m) => if pool_serves(self.upstream_peer_pool, m@) {
                    res == ModelCheck::Proceed
                } else {
                    res == ModelCheck::ModelNotSupported
                },
            },
    {
        let res = match &requested_model {
            None => ModelCheck::ModelMissing,
            Some(m) => {
                if self.upstream_peer_pool.has_peer_supporting_model(m.as_str()) {
                    ModelCheck::Proceed
                } else {
                    ModelCheck::ModelNotSupported
                }
            },
        };
        ctx.requested_model = requested_model;
        res
    }

    /// When the proxy checks models and the request occupies a slot: reads
    /// the model the request names (`body` is the request body the client
    /// sent, when there is one) and decides whether the request may go on.
    pub fn check_requested_model(
        &self,
        ctx: &mut RequestContext,
        is_post: bool,
        content_type: Option<&str>,
        body: Option<&str>,
    ) -> (res: ModelCheck)
        ensures
            !(self.check_model && old(ctx).uses_slots) ==> res == ModelCheck::Proceed
                && *final(ctx) == *old(ctx),
            self.check_model && old(ctx).uses_slots ==> ({
                let content_type_view = match content_type {
                    Some(ct) => Some(ct@),
                    None => None,
                };
                let body_view = match body {
                    Some(b) => Some(b@),
                    None => None,
                };
                let model = model_named_by_request(is_post, content_type_view, body_view);
                &&& opt_view(final(ctx).requested_model) == model
                &&& final(ctx).selected_peer == old(ctx).selected_peer
                &&& final(ctx).slot_taken == old(ctx).slot_taken
                &&& final(ctx).uses_slots == old(ctx).uses_slots
                &&& match model {
                    None => res == ModelCheck::ModelMissing,
                    Some(m) => if pool_serves(self.upstream_peer_pool, m) {
                        res == ModelCheck::Proceed
                    } else {
                        res == ModelCheck::ModelNotSupported
                    },
                }
            }),
    {
        if !(self.check_model && ctx.uses_slots) {
            return ModelCheck::Proceed;
        }
        let mut model: Option<String> = None;
        if is_post {
            match content_type {
                Some(ct) => {
                    if contains_str(ct, "application/json") {
                        match body {
                            Some(b) => {
                                model = requested_model_from_body(b);
                            },
                            None => {},
                        }
                    }
                },
                None => {},
            }
        }
        self.model_check_outcome(ctx, model)
    }
}

} // verus!
