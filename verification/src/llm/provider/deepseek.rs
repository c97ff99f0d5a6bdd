//! The chunks of the DeepSeek chat API.

use crate::llm::model::{
    opt_text, ChatMessageChunk, ChatMessageChunkView, ChatMessageRole, ChunkToolCall, FinishReason,
};
use crate::llm::provider::{delta_of, extract_delta, opt_fragments_view};
use vstd::prelude::*;

verus! {

/// The name under which the provider's failures are reported.
pub const PROVIDER_NAME: &'static str = "DeepSeek";

/// One chunk as the API sends it.
#[derive(Debug)]
pub struct DeepSeekChunkResp {
    pub id: String,
    pub object: String,
    pub created: i64,
    pub model: String,
    pub choices: Vec<DeepSeekChoice>,
    pub usage: Option<DeepSeekUsage>,
}

#[derive(Debug)]
pub struct DeepSeekChoice {
    pub index: i64,
    pub delta: DeepSeekDelta,
    pub finish_reason: Option<FinishReason>,
}

#[derive(Debug)]
pub struct DeepSeekDelta {
    pub content: Option<String>,
    pub role: Option<ChatMessageRole>,
    pub tool_calls: Option<Vec<ChunkToolCall>>,
}

#[derive(Debug, Clone, Copy)]
pub struct DeepSeekUsage {
    pub prompt_tokens: i64,
    pub completion_tokens: i64,
    pub total_tokens: i64,
}

/// The total of the usage, where the chunk reports one.
pub open spec fn total_tokens_of(usage: Option<DeepSeekUsage>) -> Option<i64> {
    match usage {
        Some(usage) => Some(usage.total_tokens),
        None => None,
    }
}

impl DeepSeekChunkResp {
    /// The chunk in the form common to all providers, made from the first
    /// choice.
    pub open spec fn normalized(self) -> ChatMessageChunkView
        recommends
            self.choices@.len() > 0,
    {
        let choice = self.choices@[0];
        ChatMessageChunkView {
            id: self.id@,
            delta: delta_of(
                opt_text(choice.delta.content),
                opt_fragments_view(choice.delta.tool_calls),
            ),
            created: self.created,
            model: self.model@,
            finish_reason: choice.finish_reason,
            total_tokens: total_tokens_of(self.usage),
        }
    }

    /// The chunk in the form common to all providers. A chunk without
    /// choices has none: it is passed over like data that does not decode.
    pub fn into_chunk(self) -> (r: Option<ChatMessageChunk>)
        ensures
            match r {
                Some(chunk) => self.choices@.len() > 0 && chunk@ == self.normalized(),
                None => self.choices@.len() == 0,
            },
    {
        let mut choices = self.choices;
        if choices.len() == 0 {
            return None;
        }
        let choice = choices.remove(0);
        let total_tokens = match self.usage {
            Some(usage) => Some(usage.total_tokens),
            None => None,
        };
        Some(
            ChatMessageChunk {
                id: self.id,
                delta: extract_delta(choice.delta.content, choice.delta.tool_calls),
                created: self.created,
                model: self.model,
                finish_reason: choice.finish_reason,
                total_tokens,
            },
        )
    }
}

} // verus!
