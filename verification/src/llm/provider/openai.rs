//! The chunks of the OpenAI chat API.

use crate::llm::model::{
    opt_text, ChatMessageChunk, ChatMessageChunkView, ChatMessageRole, ChunkToolCall,
    ChunkToolCallView, ChunkToolFunction, ChunkToolFunctionView, FinishReason,
};
use crate::llm::provider::{delta_of, extract_delta};
use vstd::prelude::*;

verus! {

/// The name under which the provider's failures are reported.
pub const PROVIDER_NAME: &'static str = "OpenAI";

/// One chunk as the API sends it.
#[derive(Debug)]
pub struct OpenAIChunkResp {
    pub id: String,
    pub object: String,
    pub created: i64,
    pub model: String,
    pub choices: Vec<OpenAIChunkChoice>,
    pub finish_reason: Option<FinishReason>,
}

#[derive(Debug)]
pub struct OpenAIChunkChoice {
    pub index: usize,
    pub delta: OpenAIChunkDelta,
    pub finish_reason: Option<FinishReason>,
}

#[derive(Debug)]
pub struct OpenAIChunkDelta {
    pub content: Option<String>,
    pub role: Option<ChatMessageRole>,
    pub tool_calls: Option<Vec<OpenAIToolCall>>,
}

/// A fragment of a tool call as the API sends it: without a kind, and with
/// arguments that may be missing.
#[derive(Debug)]
pub struct OpenAIToolCall {
    pub id: Option<String>,
    pub index: i64,
    pub function: OpenAIToolFunction,
}

#[derive(Debug)]
pub struct OpenAIToolFunction {
    pub name: Option<String>,
    pub arguments: Option<String>,
}

impl OpenAIToolCall {
    /// The fragment in the common form: no kind, and empty arguments where
    /// the API sent none.
    pub open spec fn fragment(self) -> ChunkToolCallView {
        ChunkToolCallView {
            id: opt_text(self.id),
            index: self.index,
            call_kind: None,
            function: ChunkToolFunctionView {
                name: opt_text(self.function.name),
                arguments: match self.function.arguments {
                    Some(arguments) => arguments@,
                    None => Seq::empty(),
                },
            },
        }
    }

    /// The fragment in the form common to all providers.
    pub fn into_fragment(self) -> (r: ChunkToolCall)
        ensures
            r@ == self.fragment(),
    {
        ChunkToolCall {
            id: self.id,
            index: self.index,
            call_kind: None,
            function: ChunkToolFunction {
                name: self.function.name,
                arguments: match self.function.arguments {
                    Some(arguments) => arguments,
                    None => String::new(),
                },
            },
        }
    }
}

/// The common form of an optional list of fragments.
pub open spec fn opt_fragments(fragments: Option<Vec<OpenAIToolCall>>) -> Option<
    Seq<ChunkToolCallView>,
> {
    match fragments {
        Some(fragments) => Some(
            fragments@.map_values(|fragment: OpenAIToolCall| fragment.fragment()),
        ),
        None => None,
    }
}

impl OpenAIChunkResp {
    /// The chunk in the form common to all providers, made from the first
    /// choice. The API reports no token counts while it streams.
    pub open spec fn normalized(self) -> ChatMessageChunkView
        recommends
            self.choices@.len() > 0,
    {
        let choice = self.choices@[0];
        ChatMessageChunkView {
            id: self.id@,
            delta: delta_of(opt_text(choice.delta.content), opt_fragments(choice.delta.tool_calls)),
            created: self.created,
            model: self.model@,
            finish_reason: self.finish_reason,
            total_tokens: None,
        }
    }

    /// The chunk in the form common to all providers. A chunk without
    /// choices has none: it is passed over like data that does not decode.
    pub fn into_chunk(self) -> (r: Option<ChatMessageChunk>)
        ensures
            match r {
                Some(chunk) => self.choices@.len() > 0 && chunk@ == self.normalized(),
                None => self.choices@.len() == 0,
            },
    {
        let mut choices = self.choices;
        if choices.len() == 0 {
            return None;
        }
        let choice = choices.remove(0);
        let first: Option<Vec<ChunkToolCall>> = match choice.delta.tool_calls {
            Some(fragments) => {
                let mut fragments = fragments;
                let mut kept: Vec<ChunkToolCall> = Vec::new();
                if fragments.len() > 0 {
                    kept.push(fragments.remove(0).into_fragment());
                }
                Some(kept)
            },
            None => None,
        };
        Some(
            ChatMessageChunk {
                id: self.id,
                delta: extract_delta(choice.delta.content, first),
                created: self.created,
                model: self.model,
                finish_reason: self.finish_reason,
                total_tokens: None,
            },
        )
    }
}

} // verus!
