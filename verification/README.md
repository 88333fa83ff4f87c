# paddler

The decision-making core of a slot-aware load balancer for llama.cpp agents,
written in Verus and verified.

- `src/upstream_peer.rs`, `src/upstream_peer_pool.rs`: the agents and their
  slots; the pool keeps them in order of preference and does the slot
  accounting of requests.
- `src/request_context.rs`, `src/proxy_service.rs`, `src/requested_model.rs`:
  what the reverse proxy decides for each request.
- `src/inference_flow.rs`, `src/inference_*.rs`, `src/jsonrpc.rs`: inference
  requests and the messages exchanged with clients.
- `src/management_service.rs`: the management service's configuration and
  its allowed origins.
- `src/agent_socket.rs`, `src/model_metadata_sender_collection.rs`,
  `src/chat_template.rs`: messages from agents and where their answers go.
- `src/agent_registry.rs`: the agents registered over the agent socket and
  the status snapshots they report.
- `src/agent_response_senders.rs`: the requests waiting for agents'
  tokens, embeddings and chat template overrides, and where each response
  goes.
- `src/agent_connection.rs`: the life of an agent's websocket connection,
  which removes the agent exactly once, when it ends.
- `src/metrics.rs`, `src/reconciliation_service.rs`: the metrics text and the
  reconciliation bookkeeping.
- `app/`: ordinary Rust around the library: the JSON forms of the messages,
  the pingora proxy hooks, the agents' status reports and connections, and
  the asynchronous loops.
