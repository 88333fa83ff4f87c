//! Slot-aware load balancing for llama.cpp agents: the peer pool and its slot
//! accounting, the per-request proxy context, the decisions of the proxy and
//! of the inference endpoints, and the JSON-RPC messages exchanged with
//! clients and agents.

pub mod text;

pub mod upstream_peer;
pub mod upstream_peer_pool;

pub mod proxy_service;
pub mod request_context;
pub mod requested_model;

pub mod inference_client;
pub mod inference_flow;
pub mod inference_service;
pub mod inference_socket;
pub mod management_service;
pub mod jsonrpc;

pub mod agent_connection;
pub mod agent_registry;
pub mod agent_response_senders;
pub mod agent_socket;
pub mod chat_template;
pub mod metrics;
pub mod model_metadata_sender_collection;
pub mod reconciliation_service;
