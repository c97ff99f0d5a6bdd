//! What a chat run asks of a provider of chat completions, and the rules
//! that all providers share for reading a stream of server-sent events.

pub mod deepseek;
pub mod openai;

use crate::llm::error::{LLMError, LLMErrorView};
use crate::llm::model::{
    opt_text, ChatMessage, ChatMessageChunk, ChatMessageDelta, ChatMessageDeltaView,
    ChunkToolCall, ChunkToolCallView,
};
use vstd::prelude::*;
use vstd::string::StringExecFns;

verus! {

/// The phase of a chat run.
#[derive(Debug, Clone, Copy, PartialEq, Eq, Structural)]
pub enum LLMCallProcess {
    /// The run takes chunks from the provider.
    Streaming,
    /// The stream has ended with a tool call pending; the tool is to run.
    Invoking,
    /// The run is over.
    Done,
}

/// The chunks of one completion, pulled one by one. `None` ends the stream;
/// an error abandons it.
pub trait ChunkStream {
    fn next(&mut self) -> Option<Result<ChatMessageChunk, LLMError>>;
}

/// A remote chat API. One call of `chat_stream` starts one completion over
/// the given conversation, with the given tool definitions on offer.
pub trait LLMProvider {
    type Stream: ChunkStream;

    fn chat_stream(&self, messages: &[ChatMessage], tools: &[serde_json::Value]) -> Result<
        Self::Stream,
        LLMError,
    >;
}

/// One event of a provider's event stream.
#[derive(Debug)]
pub enum ProviderEvent {
    /// The connection is open.
    Open,
    /// A message with its data.
    Message(String),
}

/// What the reader of an event stream does with one event.
#[derive(Debug, Clone, Copy, PartialEq, Eq, Structural)]
pub enum EventAction {
    /// Pass over the event.
    Skip,
    /// End the stream: the provider has sent all it had.
    Finish,
    /// Decode the data as a chunk of the provider; hand the chunk on if it
    /// decodes, and pass over the event if it does not.
    Decode,
}

/// White space as Unicode defines it, which is what `str::trim` takes away.
pub open spec fn is_space(c: char) -> bool {
    ||| '\u{9}' <= c <= '\u{d}'
    ||| c == ' '
    ||| c == '\u{85}'
    ||| c == '\u{a0}'
    ||| c == '\u{1680}'
    ||| '\u{2000}' <= c <= '\u{200a}'
    ||| c == '\u{2028}'
    ||| c == '\u{2029}'
    ||| c == '\u{202f}'
    ||| c == '\u{205f}'
    ||| c == '\u{3000}'
}

/// The data that ends a stream.
pub open spec fn done_sentinel() -> Seq<char> {
    seq!['[', 'D', 'O', 'N', 'E', ']']
}

/// Whether `data` holds the sentinel from `start` on, and nothing but white
/// space around it.
pub open spec fn is_done_at(data: Seq<char>, start: int) -> bool {
    &&& 0 <= start
    &&& start + 6 <= data.len()
    &&& forall|i: int| 0 <= i < start ==> is_space(data[i])
    &&& forall|k: int| 0 <= k < 6 ==> data[start + k] == done_sentinel()[k]
    &&& forall|i: int| start + 6 <= i < data.len() ==> is_space(data[i])
}

/// Whether `data`, apart from white space around it, is the sentinel `[DONE]`.
pub open spec fn is_done_text(data: Seq<char>) -> bool {
    exists|start: int| is_done_at(data, start)
}

/// The delta of a chunk: the text where the provider sent text; else the
/// first of the tool-call fragments where it sent some; else empty text.
pub open spec fn delta_of(
    content: Option<Seq<char>>,
    fragments: Option<Seq<ChunkToolCallView>>,
) -> ChatMessageDeltaView {
    match content {
        Some(text) => ChatMessageDeltaView::Content(text),
        None => match fragments {
            Some(fragments) => if fragments.len() > 0 {
                ChatMessageDeltaView::ToolCalls(fragments[0])
            } else {
                ChatMessageDeltaView::Content(Seq::empty())
            },
            None => ChatMessageDeltaView::Content(Seq::empty()),
        },
    }
}

/// The views of an optional list of fragments.
pub open spec fn opt_fragments_view(fragments: Option<Vec<ChunkToolCall>>) -> Option<
    Seq<ChunkToolCallView>,
> {
    match fragments {
        Some(fragments) => Some(fragments@.map_values(|fragment: ChunkToolCall| fragment@)),
        None => None,
    }
}

fn space(c: char) -> (r: bool)
    ensures
        r == is_space(c),
{
    ('\u{9}' <= c && c <= '\u{d}') || c == ' ' || c == '\u{85}' || c == '\u{a0}' || c
        == '\u{1680}' || ('\u{2000}' <= c && c <= '\u{200a}') || c == '\u{2028}' || c
        == '\u{2029}' || c == '\u{202f}' || c == '\u{205f}' || c == '\u{3000}'
}

fn sentinel_char(k: usize) -> (r: char)
    requires
        k < 6,
    ensures
        r == done_sentinel()[k as int],
        !is_space(r),
{
    if k == 0 {
        '['
    } else if k == 1 {
        'D'
    } else if k == 2 {
        'O'
    } else if k == 3 {
        'N'
    } else if k == 4 {
        'E'
    } else {
        ']'
    }
}

/// Whether `data`, trimmed, is the sentinel that ends a stream.
pub fn is_done_sentinel(data: &str) -> (r: bool)
    ensures
        r == is_done_text(data@),
{
    let mut started = false;
    let mut dead = false;
    let mut matched: usize = 0;
    let ghost mut first: int = 0;
    let ghost mut bad: int = 0;
    for c in it: data.chars()
        invariant
            it.seq() == data@,
            matched <= 6,
            !started ==> !dead && matched == 0 && forall|j: int|
                0 <= j < it.index() ==> is_space(data@[j]),
            started ==> 0 <= first < it.index() && !is_space(data@[first]) && forall|j: int|
                0 <= j < first ==> is_space(data@[j]),
            started && !dead ==> {
                &&& 1 <= matched
                &&& first + matched <= it.index()
                &&& forall|k: int| 0 <= k < matched ==> data@[first + k] == done_sentinel()[k]
                &&& matched < 6 ==> it.index() == first + matched
                &&& matched == 6 ==> forall|j: int|
                    first + 6 <= j < it.index() ==> is_space(data@[j])
            },
            started && dead ==> {
                &&& first <= bad < it.index()
                &&& bad < first + 6 ==> data@[bad] != done_sentinel()[bad - first]
                &&& bad >= first + 6 ==> !is_space(data@[bad])
            },
    {
        if dead {
        } else if !started {
            if !space(c) {
                started = true;
                proof {
                    first = it.index() as int;
                }
                if c == sentinel_char(0) {
                    matched = 1;
                } else {
                    dead = true;
                    proof {
                        bad = it.index() as int;
                    }
                }
            }
        } else if matched < 6 {
            if c == sentinel_char(matched) {
                matched = matched + 1;
            } else {
                dead = true;
                proof {
                    bad = it.index() as int;
                }
            }
        } else {
            if !space(c) {
                dead = true;
                proof {
                    bad = it.index() as int;
                }
            }
        }
    }
    let done = started && !dead && matched == 6;
    proof {
        let text = data@;
        if done {
            assert(is_done_at(text, first));
        } else {
            assert forall|start: int| !is_done_at(text, start) by {
                if is_done_at(text, start) {
                    assert(text[start + 0] == done_sentinel()[0]);
                    assert(!is_space(text[start]));
                    if started {
                        assert(start == first);
                        if dead {
                            if bad < first + 6 {
                                assert(text[start + (bad - first)] == done_sentinel()[bad - first]);
                            }
                        }
                    }
                }
            }
        }
    }
    done
}

/// What to do with one event of a provider's stream: the opening is passed
/// over, the sentinel ends the stream, and all other data is to be decoded.
pub fn event_action(event: &ProviderEvent) -> (r: EventAction)
    ensures
        r == match *event {
            ProviderEvent::Open => EventAction::Skip,
            ProviderEvent::Message(data) => if is_done_text(data@) {
                EventAction::Finish
            } else {
                EventAction::Decode
            },
        },
{
    match event {
        ProviderEvent::Open => EventAction::Skip,
        ProviderEvent::Message(data) => if is_done_sentinel(data.as_str()) {
            EventAction::Finish
        } else {
            EventAction::Decode
        },
    }
}

/// The error for an event stream that broke, with the provider's name
/// before what the stream reported.
pub fn transport_error(provider: &str, detail: &str) -> (r: LLMError)
    ensures
        r@ == LLMErrorView::TransportError(provider@ + " API error: "@ + detail@),
{
    let mut text = provider.to_string();
    text.append(" API error: ");
    text.append(detail);
    LLMError::TransportError(text)
}

/// What the reader of an event stream does when its source fails: it
/// reports the failure once, as the error that `transport_error` makes, and
/// ends the stream. The source is not asked again.
pub fn failure_action(provider: &str, detail: &str) -> (r: (LLMError, EventAction))
    ensures
        r.0@ == LLMErrorView::TransportError(provider@ + " API error: "@ + detail@),
        r.1 == EventAction::Finish,
{
    (transport_error(provider, detail), EventAction::Finish)
}

/// The delta of a chunk, from the text and the tool-call fragments that the
/// provider sent; see `delta_of`.
pub fn extract_delta(content: Option<String>, tool_calls: Option<Vec<ChunkToolCall>>) -> (r:
    ChatMessageDelta)
    ensures
        r@ == delta_of(opt_text(content), opt_fragments_view(tool_calls)),
{
    match content {
        Some(text) => ChatMessageDelta::Content(text),
        None => match tool_calls {
            Some(fragments) => {
                let mut fragments = fragments;
                if fragments.len() > 0 {
                    ChatMessageDelta::ToolCalls(fragments.remove(0))
                } else {
                    ChatMessageDelta::Content(String::new())
                }
            },
            None => ChatMessageDelta::Content(String::new()),
        },
    }
}

} // verus!
