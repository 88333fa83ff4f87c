//! The requests waiting for agents' answers, one registry per kind of
//! answer, each request with the channel its answers go to, keyed by request
//! id. An agent's response is forwarded to the registry of its kind.
use vstd::prelude::*;

use crate::agent_socket::AgentResponse;
use crate::jsonrpc::ResponseEnvelope;
use crate::model_metadata_sender_collection::forward_outcome;
use crate::model_metadata_sender_collection::registered;
use crate::model_metadata_sender_collection::ModelMetadataSenderCollection;
use crate::model_metadata_sender_collection::SenderError;

verus! {

/// The identity of the channel a sender of responses sends into; clones of
/// a sender share it.
pub uninterp spec fn response_sender_channel(
    sender: tokio::sync::mpsc::UnboundedSender<AgentResponse>,
) -> int;

/// The identity of the channel a receiver of responses receives from.
pub uninterp spec fn response_receiver_channel(
    receiver: tokio::sync::mpsc::UnboundedReceiver<AgentResponse>,
) -> int;

/// `value` was, at some time, put into the channel `channel`.
pub uninterp spec fn response_handed(channel: int, value: AgentResponse) -> bool;

/// `value` was, at some time, offered to the channel `channel` and refused,
/// because the channel's receiver was gone.
pub uninterp spec fn response_refused(channel: int, value: AgentResponse) -> bool;

/// The map's entries: each request id with the channel of the sender stored
/// under it.
pub uninterp spec fn response_senders(
    senders: dashmap::DashMap<String, tokio::sync::mpsc::UnboundedSender<AgentResponse>>,
) -> Map<Seq<char>, int>;

/// `dashmap::DashMap::new`: an empty map.
#[verifier::external_body]
fn response_senders_new() -> (res: dashmap::DashMap<String, tokio::sync::mpsc::UnboundedSender<AgentResponse>>)
    ensures
        response_senders(res) =~= Map::empty(),
{
    dashmap::DashMap::new()
}

/// `dashmap::DashMap::contains_key`: whether the key has an entry.
#[verifier::external_body]
fn response_senders_contains_key(
    senders: &dashmap::DashMap<String, tokio::sync::mpsc::UnboundedSender<AgentResponse>>,
    request_id: &String,
) -> (res: bool)
    ensures
        res == response_senders(*senders).dom().contains(request_id@),
{
    senders.contains_key(request_id)
}

/// `dashmap::DashMap::insert`: the key holds `sender` afterwards, the other
/// entries are as before.
#[verifier::external_body]
fn response_senders_insert(
    senders: &mut dashmap::DashMap<String, tokio::sync::mpsc::UnboundedSender<AgentResponse>>,
    request_id: String,
    sender: tokio::sync::mpsc::UnboundedSender<AgentResponse>,
)
    ensures
        response_senders(*final(senders)) == response_senders(*old(senders)).insert(
            request_id@,
            response_sender_channel(sender),
        ),
{
    senders.insert(request_id, sender);
}

/// `dashmap::DashMap::remove`: says whether the key had an entry; it has
/// none afterwards and the other entries are as before. The removed sender is
/// dropped.
#[verifier::external_body]
fn response_senders_remove(
    senders: &mut dashmap::DashMap<String, tokio::sync::mpsc::UnboundedSender<AgentResponse>>,
    request_id: &String,
) -> (res: bool)
    ensures
        res == response_senders(*old(senders)).dom().contains(request_id@),
        response_senders(*final(senders)) == response_senders(*old(senders)).remove(
            request_id@,
        ),
{
    senders.remove(request_id).is_some()
}

/// `dashmap::DashMap::get`, then `Clone::clone` of the sender found: a
/// sender into the channel stored under the key, exactly when the key has an
/// entry.
#[verifier::external_body]
fn response_senders_get(
    senders: &dashmap::DashMap<String, tokio::sync::mpsc::UnboundedSender<AgentResponse>>,
    request_id: &String,
) -> (res: Option<tokio::sync::mpsc::UnboundedSender<AgentResponse>>)
    ensures
        res is Some == response_senders(*senders).dom().contains(request_id@),
        res matches Some(sender) ==> response_sender_channel(sender) == response_senders(
            *senders,
        )[request_id@],
{
    senders.get(request_id).map(|sender| sender.value().clone())
}

/// `tokio::sync::mpsc::UnboundedSender::send`: when it succeeds, `value` was
/// put into the sender's channel; when it fails, the channel refused `value`
/// because its receiver was gone. Which of the two happens depends on whether
/// the receiver is still alive, which is not stated.
#[verifier::external_body]
fn response_send(
    sender: &tokio::sync::mpsc::UnboundedSender<AgentResponse>,
    value: AgentResponse,
) -> (res: bool)
    ensures
        res ==> response_handed(response_sender_channel(*sender), value),
        !res ==> response_refused(response_sender_channel(*sender), value),
{
    sender.send(value).is_ok()
}

/// `tokio::sync::mpsc::unbounded_channel`: a new channel, as a sender and a
/// receiver of the same channel.
#[verifier::external_body]
fn new_response_channel() -> (res: (tokio::sync::mpsc::UnboundedSender<AgentResponse>, tokio::sync::mpsc::UnboundedReceiver<AgentResponse>))
    ensures
        response_sender_channel(res.0) == response_receiver_channel(res.1),
{
    tokio::sync::mpsc::unbounded_channel()
}

/// What forwarding `value` to the request `request_id` may answer, given the
/// waiting requests: `NoSender` when the request does not wait; otherwise
/// `Ok` with `value` put into the request's channel, or `ChannelClosed` with
/// `value` refused by that channel.
pub open spec fn response_forward_outcome(
    waiting: Map<Seq<char>, int>,
    request_id: Seq<char>,
    value: AgentResponse,
    res: Result<(), SenderError>,
) -> bool {
    if !waiting.dom().contains(request_id) {
        res == Err::<(), SenderError>(SenderError::NoSender)
    } else {
        ||| (res is Ok && response_handed(waiting[request_id], value))
        ||| (res == Err::<(), SenderError>(SenderError::ChannelClosed) && response_refused(
            waiting[request_id],
            value,
        ))
    }
}

/// After a request registered with a first channel and a second
/// registration under its id was refused, a response forwarded to it reaches
/// the first channel: it is put into it, or refused by it when its receiver
/// is gone.
pub proof fn law_response_after_duplicate_reaches_first_channel(
    waiting: Map<Seq<char>, int>,
    request_id: Seq<char>,
    first: int,
    second: int,
    value: AgentResponse,
    res: Result<(), SenderError>,
)
    requires
        !waiting.dom().contains(request_id),
        response_forward_outcome(
            registered(registered(waiting, request_id, first), request_id, second),
            request_id,
            value,
            res,
        ),
    ensures
        res is Ok ==> response_handed(first, value),
        res is Err ==> res == Err::<(), SenderError>(SenderError::ChannelClosed)
            && response_refused(first, value),
{
}

/// The requests waiting for one kind of agents' responses.
pub struct ResponseSenderCollection {
    senders: dashmap::DashMap<String, tokio::sync::mpsc::UnboundedSender<AgentResponse>>,
}

impl View for ResponseSenderCollection {
    type V = Map<Seq<char>, int>;

    /// Each waiting request's id with the channel its responses go into.
    closed spec fn view(&self) -> Map<Seq<char>, int> {
        response_senders(self.senders)
    }
}

impl ResponseSenderCollection {
    pub fn new() -> (res: ResponseSenderCollection)
        ensures
            res@ == Map::<Seq<char>, int>::empty(),
    {
        ResponseSenderCollection { senders: response_senders_new() }
    }

    /// The request `request_id` stops waiting; the other requests keep their
    /// channels.
    pub fn deregister_sender(&mut self, request_id: String) -> (res: Result<(), SenderError>)
        ensures
            final(self)@ == old(self)@.remove(request_id@),
            old(self)@.dom().contains(request_id@) ==> res is Ok,
            !old(self)@.dom().contains(request_id@) ==> res == Err::<(), SenderError>(
                SenderError::NoSender,
            ),
    {
        if response_senders_remove(&mut self.senders, &request_id) {
            Ok(())
        } else {
            Err(SenderError::NoSender)
        }
    }

    /// Hands a response to the request `request_id`: into the channel
    /// registered for it.
    pub fn forward_response(&self, request_id: String, value: AgentResponse) -> (res: Result<
        (),
        SenderError,
    >)
        ensures
            response_forward_outcome(self@, request_id@, value, res),
    {
        match response_senders_get(&self.senders, &request_id) {
            Some(sender) => {
                if response_send(&sender, value) {
                    Ok(())
                } else {
                    Err(SenderError::ChannelClosed)
                }
            },
            None => Err(SenderError::NoSender),
        }
    }

    /// The request `request_id` starts waiting, its responses going into the
    /// channel of `sender`; refused when that request already waits, which
    /// keeps its first channel.
    pub fn register_sender(
        &mut self,
        request_id: String,
        sender: tokio::sync::mpsc::UnboundedSender<AgentResponse>,
    ) -> (res: Result<(), SenderError>)
        ensures
            final(self)@ == registered(old(self)@, request_id@, response_sender_channel(sender)),
            old(self)@.dom().contains(request_id@) ==> res == Err::<(), SenderError>(
                SenderError::AlreadyExists,
            ),
            !old(self)@.dom().contains(request_id@) ==> res is Ok,
    {
        if response_senders_contains_key(&self.senders, &request_id) {
            return Err(SenderError::AlreadyExists);
        }
        response_senders_insert(&mut self.senders, request_id, sender);
        Ok(())
    }
}

/// A request waiting for responses, with the receiving end of its channel.
pub struct ReceiveResponsesController {
    pub request_id: String,
    pub response_rx: tokio::sync::mpsc::UnboundedReceiver<AgentResponse>,
}

impl ReceiveResponsesController {
    /// Opens a channel for the request `request_id` and registers its
    /// sending end, so that responses forwarded to the request go into the
    /// channel `response_rx` receives from; refused, leaving the collection
    /// as it was, when the request already waits.
    pub fn from_request_id(
        request_id: String,
        collection: &mut ResponseSenderCollection,
    ) -> (res: Result<ReceiveResponsesController, SenderError>)
        ensures
            old(collection)@.dom().contains(request_id@) ==> res == Err::<
                ReceiveResponsesController,
                SenderError,
            >(SenderError::AlreadyExists) && final(collection)@ == old(collection)@,
            !old(collection)@.dom().contains(request_id@) ==> (res matches Ok(controller) && {
                &&& controller.request_id == request_id
                &&& final(collection)@ == registered(
                    old(collection)@,
                    request_id@,
                    response_receiver_channel(controller.response_rx),
                )
            }),
    {
        let (response_tx, response_rx) = new_response_channel();
        match collection.register_sender(request_id.clone(), response_tx) {
            Ok(()) => Ok(ReceiveResponsesController { request_id, response_rx }),
            Err(e) => Err(e),
        }
    }
}

/// The registries of requests waiting for agents' responses, one per kind.
pub struct AgentResponseSenders {
    pub chat_template_override: ResponseSenderCollection,
    pub embedding: ResponseSenderCollection,
    pub generate_tokens: ResponseSenderCollection,
    pub model_metadata: ModelMetadataSenderCollection,
}

impl AgentResponseSenders {
    pub fn new() -> (res: AgentResponseSenders)
        ensures
            res.chat_template_override@ == Map::<Seq<char>, int>::empty(),
            res.embedding@ == Map::<Seq<char>, int>::empty(),
            res.generate_tokens@ == Map::<Seq<char>, int>::empty(),
            res.model_metadata@ == Map::<Seq<char>, int>::empty(),
    {
        AgentResponseSenders {
            chat_template_override: ResponseSenderCollection::new(),
            embedding: ResponseSenderCollection::new(),
            generate_tokens: ResponseSenderCollection::new(),
            model_metadata: ModelMetadataSenderCollection::new(),
        }
    }

    /// Hands an agent's response to the request waiting for it, in the
    /// registry of the response's kind; model metadata goes as the metadata
    /// itself, the other kinds as the response.
    pub fn forward_response(&self, envelope: ResponseEnvelope<AgentResponse>) -> (res: Result<
        (),
        SenderError,
    >)
        ensures
            match envelope.response {
                AgentResponse::ChatTemplateOverride(_) => response_forward_outcome(
                    self.chat_template_override@,
                    envelope.request_id@,
                    envelope.response,
                    res,
                ),
                AgentResponse::Embedding(_) => response_forward_outcome(
                    self.embedding@,
                    envelope.request_id@,
                    envelope.response,
                    res,
                ),
                AgentResponse::GeneratedToken(_) => response_forward_outcome(
                    self.generate_tokens@,
                    envelope.request_id@,
                    envelope.response,
                    res,
                ),
                AgentResponse::ModelMetadata(m) => forward_outcome(
                    self.model_metadata@,
                    envelope.request_id@,
                    m,
                    res,
                ),
            },
    {
        let ResponseEnvelope { request_id, response } = envelope;
        match response {
            AgentResponse::ModelMetadata(m) => self.model_metadata.forward_model_metadata(
                request_id,
                m,
            ),
            AgentResponse::ChatTemplateOverride(c) => self.chat_template_override.forward_response(
                request_id,
                AgentResponse::ChatTemplateOverride(c),
            ),
            AgentResponse::Embedding(e) => self.embedding.forward_response(
                request_id,
                AgentResponse::Embedding(e),
            ),
            AgentResponse::GeneratedToken(t) => self.generate_tokens.forward_response(
                request_id,
                AgentResponse::GeneratedToken(t),
            ),
        }
    }
}

} // verus!
