//! The requests waiting for an agent's model metadata, each with the channel
//! its answer goes to, keyed by request id.
use vstd::prelude::*;

use crate::agent_socket::ModelMetadata;

verus! {

#[verifier::external_type_specification]
#[verifier::external_body]
#[verifier::reject_recursive_types(K)]
#[verifier::reject_recursive_types(V)]
#[verifier::reject_recursive_types(S)]
pub struct ExDashMap<K, V, S>(dashmap::DashMap<K, V, S>);

#[verifier::external_type_specification]
#[verifier::external_body]
#[verifier::reject_recursive_types(T)]
pub struct ExUnboundedSender<T>(tokio::sync::mpsc::UnboundedSender<T>);

#[verifier::external_type_specification]
#[verifier::external_body]
#[verifier::reject_recursive_types(T)]
pub struct ExUnboundedReceiver<T>(tokio::sync::mpsc::UnboundedReceiver<T>);

/// The identity of the channel a sender sends into; clones of a sender share
/// it.
pub uninterp spec fn sender_channel(
    sender: tokio::sync::mpsc::UnboundedSender<Option<ModelMetadata>>,
) -> int;

/// The identity of the channel a receiver receives from.
pub uninterp spec fn receiver_channel(
    receiver: tokio::sync::mpsc::UnboundedReceiver<Option<ModelMetadata>>,
) -> int;

/// `value` was, at some time, put into the channel `channel`.
pub uninterp spec fn handed(channel: int, value: Option<ModelMetadata>) -> bool;

/// `value` was, at some time, offered to the channel `channel` and refused,
/// because the channel's receiver was gone.
pub uninterp spec fn refused(channel: int, value: Option<ModelMetadata>) -> bool;

/// The map's entries: each request id with the channel of the sender stored
/// under it.
pub uninterp spec fn model_metadata_senders(
    senders: dashmap::DashMap<String, tokio::sync::mpsc::UnboundedSender<Option<ModelMetadata>>>,
) -> Map<Seq<char>, int>;

/// `dashmap::DashMap::new`: an empty map.
#[verifier::external_body]
fn senders_new() -> (res: dashmap::DashMap<String, tokio::sync::mpsc::UnboundedSender<Option<ModelMetadata>>>)
    ensures
        model_metadata_senders(res) =~= Map::empty(),
{
    dashmap::DashMap::new()
}

/// `dashmap::DashMap::contains_key`: whether the key has an entry.
#[verifier::external_body]
fn senders_contains_key(
    senders: &dashmap::DashMap<String, tokio::sync::mpsc::UnboundedSender<Option<ModelMetadata>>>,
    request_id: &String,
) -> (res: bool)
    ensures
        res == model_metadata_senders(*senders).dom().contains(request_id@),
{
    senders.contains_key(request_id)
}

/// `dashmap::DashMap::insert`: the key holds `sender` afterwards, the other
/// entries are as before.
#[verifier::external_body]
fn senders_insert(
    senders: &mut dashmap::DashMap<String, tokio::sync::mpsc::UnboundedSender<Option<ModelMetadata>>>,
    request_id: String,
    sender: tokio::sync::mpsc::UnboundedSender<Option<ModelMetadata>>,
)
    ensures
        model_metadata_senders(*final(senders)) == model_metadata_senders(*old(senders)).insert(
            request_id@,
            sender_channel(sender),
        ),
{
    senders.insert(request_id, sender);
}

/// `dashmap::DashMap::remove`: says whether the key had an entry; it has
/// none afterwards and the other entries are as before. The removed sender is
/// dropped.
#[verifier::external_body]
fn senders_remove(
    senders: &mut dashmap::DashMap<String, tokio::sync::mpsc::UnboundedSender<Option<ModelMetadata>>>,
    request_id: &String,
) -> (res: bool)
    ensures
        res == model_metadata_senders(*old(senders)).dom().contains(request_id@),
        model_metadata_senders(*final(senders)) == model_metadata_senders(*old(senders)).remove(
            request_id@,
        ),
{
    senders.remove(request_id).is_some()
}

/// `dashmap::DashMap::get`, then `Clone::clone` of the sender found: a
/// sender into the channel stored under the key, exactly when the key has an
/// entry.
#[verifier::external_body]
fn senders_get(
    senders: &dashmap::DashMap<String, tokio::sync::mpsc::UnboundedSender<Option<ModelMetadata>>>,
    request_id: &String,
) -> (res: Option<tokio::sync::mpsc::UnboundedSender<Option<ModelMetadata>>>)
    ensures
        res is Some == model_metadata_senders(*senders).dom().contains(request_id@),
        res matches Some(sender) ==> sender_channel(sender) == model_metadata_senders(
            *senders,
        )[request_id@],
{
    senders.get(request_id).map(|sender| sender.value().clone())
}

/// `tokio::sync::mpsc::UnboundedSender::send`: when it succeeds, `value` was
/// put into the sender's channel; when it fails, the channel refused `value`
/// because its receiver was gone. Which of the two happens depends on whether
/// the receiver is still alive, which is not stated.
#[verifier::external_body]
fn sender_send(
    sender: &tokio::sync::mpsc::UnboundedSender<Option<ModelMetadata>>,
    value: Option<ModelMetadata>,
) -> (res: bool)
    ensures
        res ==> handed(sender_channel(*sender), value),
        !res ==> refused(sender_channel(*sender), value),
{
    sender.send(value).is_ok()
}

/// `tokio::sync::mpsc::unbounded_channel`: a new channel, as a sender and a
/// receiver of the same channel.
#[verifier::external_body]
fn new_channel() -> (res: (tokio::sync::mpsc::UnboundedSender<Option<ModelMetadata>>, tokio::sync::mpsc::UnboundedReceiver<Option<ModelMetadata>>))
    ensures
        sender_channel(res.0) == receiver_channel(res.1),
{
    tokio::sync::mpsc::unbounded_channel()
}

/// Why a sender operation failed.
#[derive(PartialEq, Eq, Structural, Debug, Clone, Copy)]
pub enum SenderError {
    /// "No sender found for request_id ..."
    NoSender,
    /// "Sender for request_id ... already exists"
    AlreadyExists,
    /// The request stopped waiting: its receiver is gone.
    ChannelClosed,
}

/// The waiting requests after `request_id` asks to wait with the channel
/// `channel`: unchanged when it already waits, else with that entry added.
pub open spec fn registered(
    waiting: Map<Seq<char>, int>,
    request_id: Seq<char>,
    channel: int,
) -> Map<Seq<char>, int> {
    if waiting.dom().contains(request_id) {
        waiting
    } else {
        waiting.insert(request_id, channel)
    }
}

/// What forwarding `value` to the request `request_id` may answer, given the
/// waiting requests: `NoSender` when the request does not wait; otherwise
/// `Ok` with `value` put into the request's channel, or `ChannelClosed` with
/// `value` refused by that channel.
pub open spec fn forward_outcome(
    waiting: Map<Seq<char>, int>,
    request_id: Seq<char>,
    value: Option<ModelMetadata>,
    res: Result<(), SenderError>,
) -> bool {
    if !waiting.dom().contains(request_id) {
        res == Err::<(), SenderError>(SenderError::NoSender)
    } else {
        ||| (res is Ok && handed(waiting[request_id], value))
        ||| (res == Err::<(), SenderError>(SenderError::ChannelClosed) && refused(
            waiting[request_id],
            value,
        ))
    }
}

/// After a request registered with a first channel and a second registration
/// under its id was refused, forwarding metadata to it reaches the first
/// channel: the metadata is put into it, or refused by it when its receiver
/// is gone.
pub proof fn law_forward_after_duplicate_reaches_first_channel(
    waiting: Map<Seq<char>, int>,
    request_id: Seq<char>,
    first: int,
    second: int,
    value: Option<ModelMetadata>,
    res: Result<(), SenderError>,
)
    requires
        !waiting.dom().contains(request_id),
        forward_outcome(
            registered(registered(waiting, request_id, first), request_id, second),
            request_id,
            value,
            res,
        ),
    ensures
        res is Ok ==> handed(first, value),
        res is Err ==> res == Err::<(), SenderError>(SenderError::ChannelClosed) && refused(
            first,
            value,
        ),
{
}

/// A request that starts and then stops waiting leaves every other waiting
/// request with the channel it had, and nothing more is waiting under its id.
pub proof fn law_register_then_deregister_restores(
    waiting: Map<Seq<char>, int>,
    request_id: Seq<char>,
    channel: int,
)
    requires
        !waiting.dom().contains(request_id),
    ensures
        registered(waiting, request_id, channel).remove(request_id) == waiting,
        !registered(waiting, request_id, channel).remove(request_id).dom().contains(request_id),
{
    assert(registered(waiting, request_id, channel).remove(request_id) =~= waiting);
}

/// A second registration under a waiting id changes nothing: the request
/// keeps the channel of its first registration, which is where forwarded
/// metadata then goes.
pub proof fn law_duplicate_registration_keeps_first_channel(
    waiting: Map<Seq<char>, int>,
    request_id: Seq<char>,
    first: int,
    second: int,
)
    requires
        !waiting.dom().contains(request_id),
    ensures
        registered(registered(waiting, request_id, first), request_id, second) == registered(
            waiting,
            request_id,
            first,
        ),
        registered(registered(waiting, request_id, first), request_id, second)[request_id]
            == first,
{
}

/// Registering leaves every other waiting request with the channel it had.
pub proof fn law_registration_keeps_other_channels(
    waiting: Map<Seq<char>, int>,
    request_id: Seq<char>,
    channel: int,
    other: Seq<char>,
)
    requires
        other != request_id,
        waiting.dom().contains(other),
    ensures
        registered(waiting, request_id, channel).dom().contains(other),
        registered(waiting, request_id, channel)[other] == waiting[other],
{
}

pub struct ModelMetadataSenderCollection {
    model_metadata_senders: dashmap::DashMap<
        String,
        tokio::sync::mpsc::UnboundedSender<Option<ModelMetadata>>,
    >,
}

impl View for ModelMetadataSenderCollection {
    type V = Map<Seq<char>, int>;

    /// Each waiting request's id with the channel its metadata goes into.
    closed spec fn view(&self) -> Map<Seq<char>, int> {
        model_metadata_senders(self.model_metadata_senders)
    }
}

impl ModelMetadataSenderCollection {
    pub fn new() -> (res: ModelMetadataSenderCollection)
        ensures
            res@ == Map::<Seq<char>, int>::empty(),
    {
        ModelMetadataSenderCollection { model_metadata_senders: senders_new() }
    }

    /// The request `request_id` stops waiting; the other requests keep their
    /// channels.
    pub fn deregister_sender(&mut self, request_id: String) -> (res: Result<(), SenderError>)
        ensures
            final(self)@ == old(self)@.remove(request_id@),
            old(self)@.dom().contains(request_id@) ==> res is Ok,
            !old(self)@.dom().contains(request_id@) ==> res == Err::<(), SenderError>(
                SenderError::NoSender,
            ),
    {
        if senders_remove(&mut self.model_metadata_senders, &request_id) {
            Ok(())
        } else {
            Err(SenderError::NoSender)
        }
    }

    /// Hands model metadata to the request `request_id`: into the channel
    /// registered for it.
    pub fn forward_model_metadata(
        &self,
        request_id: String,
        model_metadata: Option<ModelMetadata>,
    ) -> (res: Result<(), SenderError>)
        ensures
            forward_outcome(self@, request_id@, model_metadata, res),
    {
        match senders_get(&self.model_metadata_senders, &request_id) {
            Some(sender) => {
                if sender_send(&sender, model_metadata) {
                    Ok(())
                } else {
                    Err(SenderError::ChannelClosed)
                }
            },
            None => Err(SenderError::NoSender),
        }
    }

    /// The request `request_id` starts waiting, its answer going into the
    /// channel of `sender`; refused when that request already waits, which
    /// keeps its first channel.
    pub fn register_sender(
        &mut self,
        request_id: String,
        sender: tokio::sync::mpsc::UnboundedSender<Option<ModelMetadata>>,
    ) -> (res: Result<(), SenderError>)
        ensures
            final(self)@ == registered(old(self)@, request_id@, sender_channel(sender)),
            old(self)@.dom().contains(request_id@) ==> res == Err::<(), SenderError>(
                SenderError::AlreadyExists,
            ),
            !old(self)@.dom().contains(request_id@) ==> res is Ok,
    {
        if senders_contains_key(&self.model_metadata_senders, &request_id) {
            return Err(SenderError::AlreadyExists);
        }
        senders_insert(&mut self.model_metadata_senders, request_id, sender);
        Ok(())
    }
}

/// A request waiting for model metadata, with the receiving end of its
/// channel.
pub struct ReceiveModelMetadataController {
    pub request_id: String,
    pub model_metadata_rx: tokio::sync::mpsc::UnboundedReceiver<Option<ModelMetadata>>,
}

impl ReceiveModelMetadataController {
    /// Opens a channel for the request `request_id` and registers its
    /// sending end, so that metadata forwarded to the request arrives on
    /// `model_metadata_rx`; refused, leaving the collection as it was, when
    /// the request already waits.
    pub fn from_request_id(
        request_id: String,
        collection: &mut ModelMetadataSenderCollection,
    ) -> (res: Result<ReceiveModelMetadataController, SenderError>)
        ensures
            old(collection)@.dom().contains(request_id@) ==> res == Err::<
                ReceiveModelMetadataController,
                SenderError,
            >(SenderError::AlreadyExists) && final(collection)@ == old(collection)@,
            !old(collection)@.dom().contains(request_id@) ==> (res matches Ok(controller) && {
                &&& controller.request_id == request_id
                &&& final(collection)@ == registered(
                    old(collection)@,
                    request_id@,
                    receiver_channel(controller.model_metadata_rx),
                )
            }),
    {
        let (model_metadata_tx, model_metadata_rx) = new_channel();
        match collection.register_sender(request_id.clone(), model_metadata_tx) {
            Ok(()) => Ok(ReceiveModelMetadataController { request_id, model_metadata_rx }),
            Err(e) => Err(e),
        }
    }
}

} // verus!
