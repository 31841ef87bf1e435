//! Messages for the broker.

use vstd::prelude::*;

verus! {

/// The lowest quality of service: a message is delivered at most once.
pub const QOS_AT_MOST_ONCE: i32 = 0;

/// A message as mathematical values.
pub struct MessageView {
    pub topic: Seq<char>,
    pub payload: Seq<char>,
    pub qos: i32,
    pub retained: bool,
}

/// A message for the broker: where it goes, what it says, and how it is
/// delivered and kept.
#[derive(Debug)]
pub struct Message {
    pub topic: String,
    pub payload: String,
    pub qos: i32,
    /// Whether the broker keeps the message for subscribers that come later.
    pub retained: bool,
}

impl View for Message {
    type V = MessageView;

    open spec fn view(&self) -> MessageView {
        MessageView {
            topic: self.topic@,
            payload: self.payload@,
            qos: self.qos,
            retained: self.retained,
        }
    }
}

/// The message with the given topic and payload, at the lowest quality of
/// service.
pub open spec fn message_of(topic: Seq<char>, payload: Seq<char>, retained: bool) -> MessageView {
    MessageView { topic: topic, payload: payload, qos: QOS_AT_MOST_ONCE, retained: retained }
}

impl Message {
    /// A message that the broker passes on and forgets.
    pub fn new(topic: &str, payload: String) -> (message: Message)
        ensures
            message@ == message_of(topic@, payload@, false),
    {
        Message { topic: topic.to_owned(), payload: payload, qos: QOS_AT_MOST_ONCE, retained: false }
    }

    /// A message that the broker keeps and hands to later subscribers.
    pub fn new_retained(topic: &str, payload: String) -> (message: Message)
        ensures
            message@ == message_of(topic@, payload@, true),
    {
        Message { topic: topic.to_owned(), payload: payload, qos: QOS_AT_MOST_ONCE, retained: true }
    }
}

/// The views of a list of messages, in the same order.
pub open spec fn message_views(messages: Seq<Message>) -> Seq<MessageView> {
    Seq::new(messages.len(), |i: int| messages[i]@)
}

} // verus!
