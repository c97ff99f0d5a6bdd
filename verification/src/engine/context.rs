//! The context of a run: shared data and the channel to its listeners.

use crate::engine::stream_message::StreamMessage;
use crate::json::{clone_value, json_text};
use crate::table::Table;
use tokio::sync::broadcast::Sender;
use vstd::prelude::*;

verus! {

/// `tokio::sync::broadcast::Sender`: the sending half of a channel on which
/// every listener gets every message. Nothing is known of what is inside one.
#[verifier::external_type_specification]
#[verifier::external_body]
#[verifier::reject_recursive_types(T)]
pub struct ExSender<T>(Sender<T>);

/// The key under which a node leaves its result in the context.
pub const CONTEXT_RESULT: &'static str = "result";

/// How many messages the channel of a context holds for a slow listener.
pub const CHANNEL_CAPACITY: usize = 100;

/// Calls `tokio::sync::broadcast::channel` and keeps the sending half; the
/// first receiver is dropped, so the channel starts without listeners.
/// The capacities that make the call panic are left out.
#[verifier::external_body]
fn open_channel(capacity: usize) -> (r: Sender<StreamMessage>)
    requires
        0 < capacity <= usize::MAX / 2,
{
    tokio::sync::broadcast::channel(capacity).0
}

/// Calls `Clone::clone` of `Sender`, which gives another handle on the same
/// channel. The contract claims that the clone is the handle that was
/// cloned: it holds the same shared state of the channel, which is what
/// `Sender::same_channel` compares.
#[verifier::external_body]
fn clone_sender(stream: &Sender<StreamMessage>) -> (r: Sender<StreamMessage>)
    ensures
        r == *stream,
{
    stream.clone()
}

/// Calls `Sender::send`. The result is the number of receivers that were
/// subscribed, or `None` where there was none and the message was dropped.
#[verifier::external_body]
fn send(stream: &Sender<StreamMessage>, message: StreamMessage) -> (r: Option<usize>)
    ensures
        r matches Some(receivers) ==> receivers > 0,
{
    stream.send(message).ok()
}

/// Calls `uuid::Uuid::new_v4` and renders the id. It is random: nothing is
/// claimed of it.
#[verifier::external_body]
fn fresh_id() -> (r: String) {
    uuid::Uuid::new_v4().to_string()
}

/// The number of listeners that a message reached, from what the channel
/// said when the message was sent: that nobody listens is no error, and
/// counts as zero.
pub fn reached(sent: Option<usize>) -> (r: usize)
    ensures
        r == match sent {
            Some(receivers) => receivers,
            None => 0,
        },
{
    match sent {
        Some(receivers) => receivers,
        None => 0,
    }
}

/// Publishes `message` to the listeners of `stream` and says how many were
/// subscribed; see `reached`. How many listen is for the channel to say.
pub fn publish(stream: &Sender<StreamMessage>, message: StreamMessage) -> (r: usize) {
    reached(send(stream, message))
}

/// What the nodes of one run share: data under text keys, and the channel
/// on which the run publishes.
#[derive(Debug)]
pub struct Context {
    id: String,
    data: Table<serde_json::Value>,
    stream: Sender<StreamMessage>,
}

impl Context {
    /// The id that the context was given when it was made.
    pub closed spec fn id_text(&self) -> Seq<char> {
        self.id@
    }

    /// The data of the context: the values under their keys.
    pub closed spec fn map(&self) -> Map<Seq<char>, serde_json::Value> {
        self.data.map()
    }

    /// Whether `key` holds data.
    pub open spec fn contains(&self, key: Seq<char>) -> bool {
        self.map().dom().contains(key)
    }

    /// The handle by which the context holds its channel.
    pub closed spec fn channel(&self) -> Sender<StreamMessage> {
        self.stream
    }

    /// A context with no data, a fresh id and a channel of its own.
    pub fn new() -> (r: Self)
        ensures
            r.map() == Map::<Seq<char>, serde_json::Value>::empty(),
    {
        Context { id: fresh_id(), data: Table::new(), stream: open_channel(CHANNEL_CAPACITY) }
    }

    /// The id of the context.
    pub fn id(&self) -> (r: &str)
        ensures
            r@ == self.id_text(),
    {
        self.id.as_str()
    }

    /// Puts `value` under `key`, in place of what was there.
    pub fn set(&mut self, key: &str, value: serde_json::Value)
        ensures
            final(self).map() == old(self).map().insert(key@, value),
            final(self).id_text() == old(self).id_text(),
            final(self).channel() == old(self).channel(),
    {
        self.data.insert(key.to_string(), value);
    }

    /// The value under `key`, if there is one.
    pub fn get(&self, key: &str) -> (r: Option<&serde_json::Value>)
        ensures
            match r {
                Some(value) => self.contains(key@) && *value == self.map()[key@],
                None => !self.contains(key@),
            },
    {
        self.data.get(key)
    }

    /// Takes away what is under `key`, if anything.
    pub fn remove(&mut self, key: &str)
        ensures
            final(self).map() == old(self).map().remove(key@),
            final(self).id_text() == old(self).id_text(),
            final(self).channel() == old(self).channel(),
    {
        self.data.remove(key);
    }

    /// A handle on the channel of the context, for a run to publish on.
    /// The context has one channel, whatever the id asked for.
    pub fn stream(&mut self, _stream_id: &str) -> (r: Sender<StreamMessage>)
        ensures
            r == old(self).channel(),
            *final(self) == *old(self),
    {
        clone_sender(&self.stream)
    }

    /// Publishes `message` on the channel of the context; see `publish`.
    pub fn publish(&self, message: StreamMessage) -> (r: usize) {
        publish(&self.stream, message)
    }
}

impl Clone for Context {
    /// A context with the same id, a copy of the data and a handle on the same channel.
    fn clone(&self) -> (r: Self)
        ensures
            r.id_text() == self.id_text(),
            r.channel() == self.channel(),
            r.map().dom() == self.map().dom(),
            forall|key: Seq<char>|
                self.contains(key) ==> json_text(#[trigger] r.map()[key]) == json_text(
                    self.map()[key],
                ),
    {
        let mut data: Table<serde_json::Value> = Table::new();
        let count = self.data.len();
        let mut i: usize = 0;
        while i < count
            invariant
                i <= count,
                count == self.data.keys().len(),
                count == self.data.values().len(),
                self.data.keys().no_duplicates(),
                data.keys() == self.data.keys().take(i as int),
                data.values().len() == i,
                forall|j: int|
                    0 <= j < i ==> json_text(#[trigger] data.values()[j]) == json_text(
                        self.data.values()[j],
                    ),
            decreases count - i,
        {
            let key = self.data.key_at(i).clone();
            let value = clone_value(self.data.value_at(i));
            proof {
                let keys = self.data.keys();
                if data.keys().contains(key@) {
                    let place = data.keys().index_of(key@);
                    assert(keys.take(i as int)[place] == keys[place]);
                }
            }
            data.insert(key, value);
            assert(self.data.keys().take(i as int).push(self.data.keys()[i as int])
                =~= self.data.keys().take(i + 1));
            i = i + 1;
        }
        assert(self.data.keys().take(count as int) == self.data.keys());
        assert(data.map().dom() =~= self.data.map().dom());
        Context { id: self.id.clone(), data, stream: clone_sender(&self.stream) }
    }
}

} // verus!
