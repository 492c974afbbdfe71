//! The filter: which messages of a batch are moved, and which are turned down.

use crate::message::Message;
use vstd::prelude::*;

verus! {

/// Whether `message` meets `filter`: it has the attribute that the filter names, the
/// attribute has a value as text, and that text is the one the filter expects.
pub open spec fn meets(filter: (String, String), message: Message) -> bool {
    &&& message@.attributes.contains_key(filter.0@)
    &&& message@.attributes[filter.0@].string_value == Some(filter.1@)
}

/// Whether `message` is moved under `filter`: every message is where there is no filter.
pub open spec fn passes(filter: Option<(String, String)>, message: Message) -> bool {
    match filter {
        Some(filter) => meets(filter, message),
        None => true,
    }
}

/// The messages of `batch` that are moved under `filter`, in their order.
pub open spec fn matched(filter: Option<(String, String)>, batch: Seq<Message>) -> Seq<Message> {
    batch.filter(|message: Message| passes(filter, message))
}

/// The messages of `batch` that `filter` turns down, in their order.
pub open spec fn rejected(filter: Option<(String, String)>, batch: Seq<Message>) -> Seq<
    Message,
> {
    batch.filter(|message: Message| !passes(filter, message))
}

/// The positions in `batch` of the messages that are moved under `filter` (`moved`), or of
/// those that are turned down (`!moved`), in ascending order.
pub open spec fn positions(
    filter: Option<(String, String)>,
    batch: Seq<Message>,
    moved: bool,
) -> Seq<int>
    decreases batch.len(),
{
    if batch.len() == 0 {
        Seq::empty()
    } else {
        let before = positions(filter, batch.drop_last(), moved);
        if passes(filter, batch.last()) == moved {
            before.push(batch.len() - 1)
        } else {
            before
        }
    }
}

/// The moved part of `batch` under `filter`, or the part that is turned down.
pub open spec fn part(filter: Option<(String, String)>, batch: Seq<Message>, moved: bool) -> Seq<
    Message,
> {
    if moved {
        matched(filter, batch)
    } else {
        rejected(filter, batch)
    }
}

/// Each part keeps the order of the batch: it holds the messages at the positions of its
/// kind, one for one, and those positions ascend.
pub proof fn lemma_part_keeps_order(
    filter: Option<(String, String)>,
    batch: Seq<Message>,
    moved: bool,
)
    ensures
        positions(filter, batch, moved).len() == part(filter, batch, moved).len(),
        forall|k: int|
            0 <= k < part(filter, batch, moved).len() ==> {
                let at = #[trigger] positions(filter, batch, moved)[k];
                &&& 0 <= at < batch.len()
                &&& batch[at] == part(filter, batch, moved)[k]
                &&& passes(filter, batch[at]) == moved
            },
        forall|k: int, l: int|
            0 <= k < l < part(filter, batch, moved).len() ==> #[trigger] positions(
                filter,
                batch,
                moved,
            )[k] < #[trigger] positions(filter, batch, moved)[l],
    decreases batch.len(),
{
    reveal(Seq::filter);
    if batch.len() > 0 {
        lemma_part_keeps_order(filter, batch.drop_last(), moved);
    }
}

/// The two parts make up the batch: together they hold each message as often as the batch
/// does. They have no message in common: a message of the moved part passes the filter,
/// which none that is turned down does.
pub proof fn lemma_partition_complete(filter: Option<(String, String)>, batch: Seq<Message>)
    ensures
        matched(filter, batch).to_multiset().add(rejected(filter, batch).to_multiset())
            == batch.to_multiset(),
        matched(filter, batch).len() + rejected(filter, batch).len() == batch.len(),
        forall|message: Message|
            !(#[trigger] matched(filter, batch).contains(message) && #[trigger] rejected(
                filter,
                batch,
            ).contains(message)),
        forall|i: int|
            0 <= i < matched(filter, batch).len() ==> passes(
                filter,
                #[trigger] matched(filter, batch)[i],
            ),
        forall|i: int|
            0 <= i < rejected(filter, batch).len() ==> !passes(
                filter,
                #[trigger] rejected(filter, batch)[i],
            ),
    decreases batch.len(),
{
    broadcast use vstd::seq_lib::group_to_multiset_ensures;

    reveal(Seq::filter);
    if batch.len() == 0 {
        assert(matched(filter, batch).to_multiset().add(rejected(filter, batch).to_multiset())
            =~= batch.to_multiset());
    } else {
        let rest = batch.drop_last();
        lemma_partition_complete(filter, rest);
        assert(rest.push(batch.last()) == batch);
        assert(matched(filter, batch).to_multiset().add(rejected(filter, batch).to_multiset())
            =~= rest.to_multiset().insert(batch.last()));
    }
}

/// A message without the attribute that the filter names does not meet the filter, and is
/// not among the messages that are moved, whatever the batch.
pub proof fn lemma_fail_closed(filter: (String, String), batch: Seq<Message>, message: Message)
    requires
        !message@.attributes.contains_key(filter.0@),
    ensures
        !meets(filter, message),
        !matched(Some(filter), batch).contains(message),
{
    let moved = matched(Some(filter), batch);
    if moved.contains(message) {
        let i = choose|i: int| 0 <= i < moved.len() && moved[i] == message;
        batch.lemma_filter_pred(|message: Message| passes(Some(filter), message), i);
    }
}

/// Whether `message` meets `filter`.
pub fn do_attributes_match_filter(filter: &(String, String), message: &Message) -> (found: bool)
    ensures
        found == meets(*filter, *message),
{
    match message.attribute(&filter.0) {
        Some(value) => match &value.string_value {
            Some(text) => *text == filter.1,
            None => false,
        },
        None => false,
    }
}

/// Parts `messages` into those that meet `filter` and those that do not, each part in the
/// order in which `messages` held it.
pub fn filter_messages(filter: &(String, String), messages: Vec<Message>) -> (parts: (
    Vec<Message>,
    Vec<Message>,
))
    ensures
        parts.0@ == matched(Some(*filter), messages@),
        parts.1@ == rejected(Some(*filter), messages@),
{
    let ghost batch = messages@;
    let ghost wanted = |message: Message| passes(Some(*filter), message);
    let ghost unwanted = |message: Message| !passes(Some(*filter), message);
    let mut kept: Vec<Message> = Vec::new();
    let mut left: Vec<Message> = Vec::new();
    proof {
        reveal(Seq::filter);
    }
    for message in it: messages.into_iter()
        invariant
            it.seq() == batch,
            wanted == |message: Message| passes(Some(*filter), message),
            unwanted == |message: Message| !passes(Some(*filter), message),
            kept@ == batch.take(it.index() as int).filter(wanted),
            left@ == batch.take(it.index() as int).filter(unwanted),
    {
        proof {
            reveal(Seq::filter);
            assert(batch.take(it.index() + 1).drop_last() == batch.take(it.index() as int));
        }
        if do_attributes_match_filter(filter, &message) {
            kept.push(message);
        } else {
            left.push(message);
        }
    }
    proof {
        assert(batch.take(batch.len() as int) == batch);
    }
    (kept, left)
}

/// Parts `messages` by `filter`. Without a filter every message is kept, and none is
/// turned down.
pub fn maybe_filter_messages(filter: &Option<(String, String)>, messages: Vec<Message>) -> (parts:
    (Vec<Message>, Vec<Message>))
    ensures
        parts.0@ == matched(*filter, messages@),
        parts.1@ == rejected(*filter, messages@),
        filter is None ==> parts.0@ == messages@ && parts.1@.len() == 0,
{
    match filter {
        Some(filter) => filter_messages(filter, messages),
        None => {
            proof {
                lemma_no_filter(messages@);
            }
            (messages, Vec::new())
        },
    }
}

/// Without a filter the whole batch is moved and nothing is turned down.
pub proof fn lemma_no_filter(batch: Seq<Message>)
    ensures
        matched(None, batch) == batch,
        rejected(None, batch).len() == 0,
    decreases batch.len(),
{
    reveal(Seq::filter);
    if batch.len() > 0 {
        lemma_no_filter(batch.drop_last());
    }
}

} // verus!
