//! What a run publishes to its listeners.

use crate::json::{
    ascending_keys, member_texts, object_text, object_value, string_text, string_value, to_text,
};
use crate::llm::error::LLMError;
use vstd::prelude::*;

verus! {

/// One message on the output channel of a run.
#[derive(Debug)]
pub enum StreamMessage {
    /// A piece of the text that the model writes.
    Delta(String),
    /// A note on what the run is doing, such as the tool it is about to call.
    Procedure(String),
}

/// `StreamMessage` as contracts see it.
pub enum StreamMessageView {
    Delta(Seq<char>),
    Procedure(Seq<char>),
}

impl View for StreamMessage {
    type V = StreamMessageView;

    open spec fn view(&self) -> StreamMessageView {
        match self {
            StreamMessage::Delta(text) => StreamMessageView::Delta(text@),
            StreamMessage::Procedure(text) => StreamMessageView::Procedure(text@),
        }
    }
}

impl StreamMessageView {
    /// The key under which the message's text stands on the wire.
    pub open spec fn wire_key(self) -> Seq<char> {
        match self {
            StreamMessageView::Delta(_) => "d"@,
            StreamMessageView::Procedure(_) => "Procedure"@,
        }
    }

    /// The text that the message carries.
    pub open spec fn text(self) -> Seq<char> {
        match self {
            StreamMessageView::Delta(text) => text,
            StreamMessageView::Procedure(text) => text,
        }
    }

    /// The message on the wire: a JSON object with one member.
    pub open spec fn wire_text(self) -> Seq<char> {
        object_text(seq![(self.wire_key(), string_text(self.text()))])
    }
}

impl Clone for StreamMessage {
    fn clone(&self) -> (r: Self)
        ensures
            r == *self,
    {
        match self {
            StreamMessage::Delta(text) => StreamMessage::Delta(text.clone()),
            StreamMessage::Procedure(text) => StreamMessage::Procedure(text.clone()),
        }
    }
}

impl StreamMessage {
    /// The message as JSON text. The JSON codec writes every message, so
    /// the result is never an error.
    pub fn to_json(&self) -> (r: Result<String, LLMError>)
        ensures
            r matches Ok(text) && text@ == self@.wire_text(),
    {
        let (key, text) = match self {
            StreamMessage::Delta(text) => ("d", text),
            StreamMessage::Procedure(text) => ("Procedure", text),
        };
        let mut members: Vec<(String, serde_json::Value)> = Vec::new();
        members.push((key.to_string(), string_value(text.as_str())));
        assert(member_texts(members@) =~= seq![(self@.wire_key(), string_text(self@.text()))]);
        assert(ascending_keys(member_texts(members@)));
        let value = object_value(members);
        match to_text(&value) {
            Ok(text) => Ok(text),
            Err(error) => Err(LLMError::from(error)),
        }
    }
}

} // verus!
