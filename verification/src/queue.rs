//! The four calls that a transfer makes to the queue service, as the requests that are handed
//! to it, and the replies that come back.
//!
//! A request borrows from the messages that it is about. Nothing here performs a call.

use crate::message::{attribute_map, distinct_names, Attribute, Message};
use vstd::prelude::*;

verus! {

/// The most entries that one batch call takes.
pub const BATCH_LIMIT: usize = 10;

/// The most messages that one receive asks for.
pub const RECEIVE_LIMIT: i64 = 10;

/// For how many seconds a received message stays hidden from other consumers.
pub const RECEIVE_VISIBILITY_TIMEOUT: i64 = 600;

/// For how many seconds a receive waits for messages to arrive.
pub const RECEIVE_WAIT_TIME: i64 = 1;

/// After how many seconds a message that was turned down is visible again.
pub const RESET_VISIBILITY_TIMEOUT: i64 = 1;

/// By how many seconds the delivery of a message that is sent on is delayed.
pub const SEND_DELAY: i64 = 0;

/// A request to receive messages from a queue.
#[derive(Debug)]
pub struct ReceiveRequest<'a> {
    pub queue_url: &'a str,
    /// The attributes of the service that are to come with each message.
    pub attribute_names: Vec<String>,
    /// The attributes of the sender that are to come with each message.
    pub message_attribute_names: Vec<String>,
    pub max_number_of_messages: i64,
    pub visibility_timeout: i64,
    pub wait_time_seconds: i64,
}

/// One message of a request to send a batch.
#[derive(Debug)]
pub struct SendEntry<'a> {
    pub id: &'a String,
    pub message_body: &'a String,
    pub message_attributes: &'a Vec<Attribute>,
    pub delay_seconds: i64,
}

/// A request to send a batch of messages to a queue.
#[derive(Debug)]
pub struct SendBatchRequest<'a> {
    pub queue_url: &'a str,
    pub entries: Vec<SendEntry<'a>>,
}

/// One message of a request to delete a batch.
#[derive(Debug)]
pub struct DeleteEntry<'a> {
    pub id: &'a String,
    pub receipt_handle: &'a String,
}

/// A request to delete a batch of messages from a queue.
#[derive(Debug)]
pub struct DeleteBatchRequest<'a> {
    pub queue_url: &'a str,
    pub entries: Vec<DeleteEntry<'a>>,
}

/// One message of a request to change the visibility of a batch.
#[derive(Debug)]
pub struct VisibilityEntry<'a> {
    pub id: &'a String,
    pub receipt_handle: &'a String,
    pub visibility_timeout: i64,
}

/// A request to change the visibility timeout of a batch of messages of a queue.
#[derive(Debug)]
pub struct VisibilityBatchRequest<'a> {
    pub queue_url: &'a str,
    pub entries: Vec<VisibilityEntry<'a>>,
}

/// What the queue service answered to a call.
#[derive(Debug)]
pub enum Reply {
    /// A receive was answered, with a list of messages or without one.
    Received(Option<Vec<Message>>),
    /// A batch call was answered. The service named `failed` of its entries as not carried
    /// out.
    Completed { failed: usize },
    /// The call failed as a whole.
    Failed,
}

/// Whether `names` asks for every attribute: it is the one name `All`.
pub open spec fn asks_for_all(names: Seq<String>) -> bool {
    names.len() == 1 && names[0]@ == "All"@
}

/// Whether `entry` sends `message` on as it is: under its identifier, with its body and its
/// attributes, and without delay.
pub open spec fn sends(entry: SendEntry, message: Message) -> bool {
    &&& entry.id@ == message@.id
    &&& entry.message_body@ == message@.body
    &&& distinct_names(entry.message_attributes@)
    &&& attribute_map(entry.message_attributes@) == message@.attributes
    &&& entry.delay_seconds == SEND_DELAY
}

/// Whether `entry` deletes the receipt `message`.
pub open spec fn deletes(entry: DeleteEntry, message: Message) -> bool {
    &&& entry.id@ == message@.id
    &&& entry.receipt_handle@ == message@.receipt_handle
}

/// Whether `entry` makes the receipt `message` visible again after the short timeout.
pub open spec fn resets(entry: VisibilityEntry, message: Message) -> bool {
    &&& entry.id@ == message@.id
    &&& entry.receipt_handle@ == message@.receipt_handle
    &&& entry.visibility_timeout == RESET_VISIBILITY_TIMEOUT
}

/// Whether `request` receives from the queue `queue_url`: at most ten messages with all their
/// attributes, hidden from other consumers for ten minutes, after a wait of at most a second.
pub open spec fn receives(request: ReceiveRequest, queue_url: Seq<char>) -> bool {
    &&& request.queue_url@ == queue_url
    &&& asks_for_all(request.attribute_names@)
    &&& asks_for_all(request.message_attribute_names@)
    &&& request.max_number_of_messages == RECEIVE_LIMIT
    &&& request.visibility_timeout == RECEIVE_VISIBILITY_TIMEOUT
    &&& request.wait_time_seconds == RECEIVE_WAIT_TIME
}

/// Whether `request` sends `messages` to the queue `queue_url`, entry by entry in their order.
pub open spec fn sends_batch(
    request: SendBatchRequest,
    queue_url: Seq<char>,
    messages: Seq<Message>,
) -> bool {
    &&& request.queue_url@ == queue_url
    &&& request.entries@.len() == messages.len()
    &&& forall|i: int|
        0 <= i < messages.len() ==> sends(#[trigger] request.entries@[i], messages[i])
}

/// Whether `request` deletes `messages` from the queue `queue_url`, entry by entry in their
/// order.
pub open spec fn deletes_batch(
    request: DeleteBatchRequest,
    queue_url: Seq<char>,
    messages: Seq<Message>,
) -> bool {
    &&& request.queue_url@ == queue_url
    &&& request.entries@.len() == messages.len()
    &&& forall|i: int|
        0 <= i < messages.len() ==> deletes(#[trigger] request.entries@[i], messages[i])
}

/// How many calls it takes to change the visibility of `n` messages: `n / 10`, rounded up.
pub open spec fn chunk_count(n: nat) -> nat {
    (n + BATCH_LIMIT - 1) as nat / (BATCH_LIMIT as nat)
}

/// How many of `n` messages the chunk holds that starts at message `from`: ten, or as many
/// as are left.
pub open spec fn chunk_len(n: nat, from: nat) -> nat {
    if from + BATCH_LIMIT <= n {
        BATCH_LIMIT as nat
    } else {
        (n - from) as nat
    }
}

/// The `k`-th chunk of `messages`, counted from 0: the ten messages from the `10 * k`-th on,
/// or as many as are left.
pub open spec fn chunk(messages: Seq<Message>, k: nat) -> Seq<Message> {
    let from = (BATCH_LIMIT * k) as nat;
    messages.subrange(from as int, (from + chunk_len(messages.len(), from)) as int)
}

/// Whether `request` makes `messages` visible again on the queue `queue_url`, entry by entry in
/// their order.
pub open spec fn resets_batch(
    request: VisibilityBatchRequest,
    queue_url: Seq<char>,
    messages: Seq<Message>,
) -> bool {
    &&& request.queue_url@ == queue_url
    &&& request.entries@.len() == messages.len()
    &&& forall|i: int|
        0 <= i < messages.len() ==> resets(#[trigger] request.entries@[i], messages[i])
}

/// The request that receives the next batch from `queue_url`: at most ten messages with all
/// their attributes, hidden from other consumers for ten minutes, after a wait of at most
/// a second.
pub fn pull_messages<'a>(queue_url: &'a str) -> (request: ReceiveRequest<'a>)
    ensures
        receives(request, queue_url@),
{
    let mut attribute_names: Vec<String> = Vec::new();
    attribute_names.push("All".to_owned());
    let mut message_attribute_names: Vec<String> = Vec::new();
    message_attribute_names.push("All".to_owned());
    ReceiveRequest {
        queue_url,
        attribute_names,
        message_attribute_names,
        max_number_of_messages: RECEIVE_LIMIT,
        visibility_timeout: RECEIVE_VISIBILITY_TIMEOUT,
        wait_time_seconds: RECEIVE_WAIT_TIME,
    }
}

/// The request that sends `messages` to the queue `dest` as one batch: an entry for each
/// message, in their order.
pub fn push_messages<'a>(dest: &'a str, messages: &'a Vec<Message>) -> (request: SendBatchRequest<
    'a,
>)
    ensures
        sends_batch(request, dest@, messages@),
{
    let mut entries: Vec<SendEntry<'a>> = Vec::new();
    let mut i: usize = 0;
    while i < messages.len()
        invariant
            i <= messages@.len(),
            entries@.len() == i,
            forall|k: int| 0 <= k < i ==> sends(#[trigger] entries@[k], messages@[k]),
        decreases messages@.len() - i,
    {
        let message = &messages[i];
        entries.push(
            SendEntry {
                id: message.id(),
                message_body: message.body(),
                message_attributes: message.attributes(),
                delay_seconds: SEND_DELAY,
            },
        );
        i = i + 1;
    }
    SendBatchRequest { queue_url: dest, entries }
}

/// The request that deletes `messages` from the queue `queue_url` as one batch: an entry for
/// each message, in their order.
pub fn delete_messages_from_queue<'a>(queue_url: &'a str, messages: &'a Vec<Message>) -> (request:
    DeleteBatchRequest<'a>)
    ensures
        deletes_batch(request, queue_url@, messages@),
{
    let mut entries: Vec<DeleteEntry<'a>> = Vec::new();
    let mut i: usize = 0;
    while i < messages.len()
        invariant
            i <= messages@.len(),
            entries@.len() == i,
            forall|k: int| 0 <= k < i ==> deletes(#[trigger] entries@[k], messages@[k]),
        decreases messages@.len() - i,
    {
        let message = &messages[i];
        entries.push(DeleteEntry { id: message.id(), receipt_handle: message.receipt_handle() });
        i = i + 1;
    }
    DeleteBatchRequest { queue_url, entries }
}

/// The request that resets the visibility of the `messages` from the `from`-th on: of ten
/// messages, or of as many as are left.
pub(crate) fn reset_chunk<'a>(queue_url: &'a str, messages: &'a Vec<Message>, from: usize) -> (request:
    VisibilityBatchRequest<'a>)
    requires
        from <= messages@.len(),
    ensures
        resets_batch(
            request,
            queue_url@,
            messages@.subrange(
                from as int,
                (from + chunk_len(messages@.len(), from as nat)) as int,
            ),
        ),
{
    let left = messages.len() - from;
    let len = if left < BATCH_LIMIT {
        left
    } else {
        BATCH_LIMIT
    };
    let mut entries: Vec<VisibilityEntry<'a>> = Vec::new();
    let mut j: usize = 0;
    while j < len
        invariant
            from + len <= messages@.len() <= usize::MAX,
            j <= len,
            entries@.len() == j,
            forall|k: int| 0 <= k < j ==> resets(#[trigger] entries@[k], messages@[from + k]),
        decreases len - j,
    {
        let message = &messages[from + j];
        entries.push(
            VisibilityEntry {
                id: message.id(),
                receipt_handle: message.receipt_handle(),
                visibility_timeout: RESET_VISIBILITY_TIMEOUT,
            },
        );
        j = j + 1;
    }
    VisibilityBatchRequest { queue_url, entries }
}

/// The requests that make `messages` visible again on the queue `queue_url`: one for each
/// chunk of ten messages, in their order, the last one for what is left. For `n` messages
/// these are `n / 10` requests, rounded up, and none is empty.
pub fn reset_timeout<'a>(queue_url: &'a str, messages: &'a Vec<Message>) -> (requests: Vec<
    VisibilityBatchRequest<'a>,
>)
    ensures
        requests@.len() == chunk_count(messages@.len()),
        forall|k: int|
            0 <= k < requests@.len() ==> resets_batch(
                #[trigger] requests@[k],
                queue_url@,
                chunk(messages@, k as nat),
            ),
        forall|k: int|
            0 <= k < requests@.len() ==> 1 <= (#[trigger] requests@[k]).entries@.len()
                <= BATCH_LIMIT,
{
    let mut requests: Vec<VisibilityBatchRequest<'a>> = Vec::new();
    let mut from: usize = 0;
    while from < messages.len()
        invariant
            from <= messages@.len(),
            from < messages@.len() ==> from == BATCH_LIMIT * requests@.len(),
            from == messages@.len() ==> requests@.len() == chunk_count(messages@.len()),
            forall|k: int|
                0 <= k < requests@.len() ==> resets_batch(
                    #[trigger] requests@[k],
                    queue_url@,
                    chunk(messages@, k as nat),
                ),
            forall|k: int|
                0 <= k < requests@.len() ==> 1 <= (#[trigger] requests@[k]).entries@.len()
                    <= BATCH_LIMIT,
        decreases messages@.len() - from,
    {
        let request = reset_chunk(queue_url, messages, from);
        from = from + request.entries.len();
        requests.push(request);
    }
    requests
}

} // verus!
