//! The chat run: the provider's stream and the tools it asks for, in turn.

pub mod error;
pub mod model;
pub mod provider;
pub mod tool;
pub mod wire;

use crate::engine::context::publish;
use crate::engine::stream_message::{StreamMessage, StreamMessageView};
use crate::json::{json_parse, json_text, parse, to_text};
use crate::llm::error::{LLMError, LLMErrorView};
use crate::llm::model::{
    merge, merge_all, ChatMessage, ChatMessageChunk, ChatMessageDelta, ChatMessageDeltaView,
    ChatMessageRole, ChatMessageView, ChunkToolCallView, ToolCall, ToolCallView,
};
use crate::llm::provider::{ChunkStream, LLMCallProcess, LLMProvider};
use crate::llm::tool::{Tool, ToolEntry, ToolRegistry};
use tokio::sync::broadcast::Sender;
use vstd::prelude::*;
use vstd::string::StringExecFns;

verus! {

/// The views of a conversation.
pub open spec fn messages_view(messages: Seq<ChatMessage>) -> Seq<ChatMessageView> {
    messages.map_values(|message: ChatMessage| message@)
}

/// The view of an optional message.
pub open spec fn opt_message_view(message: Option<StreamMessage>) -> Option<StreamMessageView> {
    match message {
        Some(message) => Some(message@),
        None => None,
    }
}

/// What a delta makes the run publish: a piece of text unless it is empty;
/// the name of the tool where a fragment brings both the id and the name of
/// a call.
pub open spec fn publication(delta: ChatMessageDeltaView) -> Option<StreamMessageView> {
    match delta {
        ChatMessageDeltaView::Content(text) => if text.len() == 0 {
            None
        } else {
            Some(StreamMessageView::Delta(text))
        },
        ChatMessageDeltaView::ToolCalls(fragment) => if fragment.id is Some
            && fragment.function.name is Some {
            Some(StreamMessageView::Procedure("Tools: "@ + fragment.function.name->0))
        } else {
            None
        },
    }
}

/// What a stream of deltas makes the run publish, in the order of the deltas.
pub open spec fn publications(deltas: Seq<ChatMessageDeltaView>) -> Seq<StreamMessageView>
    decreases deltas.len(),
{
    if deltas.len() == 0 {
        Seq::empty()
    } else {
        let before = publications(deltas.drop_last());
        match publication(deltas.last()) {
            Some(message) => before.push(message),
            None => before,
        }
    }
}

/// The assistant's turn that asks for one tool call and says nothing else.
pub open spec fn call_turn(call: ToolCallView) -> ChatMessageView {
    ChatMessageView {
        content: Seq::empty(),
        role: ChatMessageRole::Assistant,
        tool_call_id: None,
        tool_calls: seq![call],
    }
}

/// The tool's turn: the JSON text of a result under the id of its call.
pub open spec fn result_turn(call_id: Seq<char>, result: Seq<char>) -> ChatMessageView {
    ChatMessageView {
        content: result,
        role: ChatMessageRole::Tool,
        tool_call_id: Some(call_id),
        tool_calls: Seq::empty(),
    }
}

/// The two messages that a tool call leaves in the conversation: the
/// assistant's turn that carries the call, then the tool's turn with the result.
pub open spec fn tool_round(call: ToolCallView, result: Seq<char>) -> Seq<ChatMessageView> {
    seq![call_turn(call), result_turn(call.id, result)]
}

/// Whether the messages at `2 * k` and behind it are the round of a tool call.
pub open spec fn is_round_at(messages: Seq<ChatMessageView>, k: int) -> bool {
    let call = messages[2 * k].tool_calls[0];
    &&& messages[2 * k] == call_turn(call)
    &&& messages[2 * k + 1] == result_turn(call.id, messages[2 * k + 1].content)
}

/// Whether `messages` is made of the rounds of tool calls, one after the other.
pub open spec fn tool_rounds(messages: Seq<ChatMessageView>) -> bool {
    &&& messages.len() % 2 == 0
    &&& forall|k: int| 0 <= k && 2 * k < messages.len() ==> #[trigger] is_round_at(messages, k)
}

/// Appends the round of one tool call to the conversation; see `tool_round`.
pub fn record_tool_round(messages: &mut Vec<ChatMessage>, call: ToolCall, result: &str)
    ensures
        messages_view(final(messages)@) == messages_view(old(messages)@) + tool_round(
            call@,
            result@,
        ),
{
    proof {
        reveal_strlit("");
    }
    assert(""@ =~= Seq::empty());
    let id = call.id.clone();
    let request = ChatMessage::assistant("").with_tool_call(call);
    assert(request@.tool_calls =~= seq![call@]);
    assert(request@ == call_turn(call@));
    let answer = ChatMessage::tool(result, id);
    messages.push(request);
    messages.push(answer);
    assert(messages_view(messages@) =~= messages_view(old(messages)@) + tool_round(
        call@,
        result@,
    ));
}

/// The state of one chat run.
#[derive(Debug)]
pub struct ChatRun {
    process: LLMCallProcess,
    content: String,
    tool_call: ToolCall,
    pending: bool,
}

/// `ChatRun` as contracts see it.
pub struct ChatRunView {
    /// The phase of the run.
    pub process: LLMCallProcess,
    /// The text gathered so far, over all streams of the run.
    pub content: Seq<char>,
    /// The tool call gathered from the fragments of the current stream.
    pub tool_call: ToolCallView,
    /// Whether the current stream has brought a fragment of a tool call.
    pub pending: bool,
}

impl View for ChatRun {
    type V = ChatRunView;

    closed spec fn view(&self) -> ChatRunView {
        ChatRunView {
            process: self.process,
            content: self.content@,
            tool_call: self.tool_call@,
            pending: self.pending,
        }
    }
}

impl ChatRunView {
    /// The run before its first stream.
    pub open spec fn start() -> ChatRunView {
        ChatRunView {
            process: LLMCallProcess::Streaming,
            content: Seq::empty(),
            tool_call: ToolCallView::empty(),
            pending: false,
        }
    }

    /// The run after one more delta. Text is appended to the content; a
    /// fragment is merged into the tool call and marks it pending. Outside
    /// the streaming phase a delta changes nothing.
    pub open spec fn on_delta(self, delta: ChatMessageDeltaView) -> ChatRunView {
        if self.process != LLMCallProcess::Streaming {
            self
        } else {
            match delta {
                ChatMessageDeltaView::Content(text) => ChatRunView {
                    content: self.content + text,
                    ..self
                },
                ChatMessageDeltaView::ToolCalls(fragment) => ChatRunView {
                    tool_call: merge(self.tool_call, fragment),
                    pending: true,
                    ..self
                },
            }
        }
    }

    /// The run after the deltas of a stream, taken in order.
    pub open spec fn on_deltas(self, deltas: Seq<ChatMessageDeltaView>) -> ChatRunView
        decreases deltas.len(),
    {
        if deltas.len() == 0 {
            self
        } else {
            self.on_deltas(deltas.drop_last()).on_delta(deltas.last())
        }
    }

    /// The run after its stream has ended: a tool is to run if a call is
    /// pending, else the run is over.
    pub open spec fn on_stream_end(self) -> ChatRunView {
        if self.process != LLMCallProcess::Streaming {
            self
        } else if self.pending {
            ChatRunView { process: LLMCallProcess::Invoking, ..self }
        } else {
            ChatRunView { process: LLMCallProcess::Done, ..self }
        }
    }

    /// The run after its tool has run: ready for the next stream, with no
    /// tool call gathered. The content stays.
    pub open spec fn after_tool(self) -> ChatRunView {
        ChatRunView {
            process: LLMCallProcess::Streaming,
            content: self.content,
            tool_call: ToolCallView::empty(),
            pending: false,
        }
    }

    /// The run given up: over, with what it had gathered.
    pub open spec fn given_up(self) -> ChatRunView {
        ChatRunView { process: LLMCallProcess::Done, ..self }
    }
}

impl ChatRun {
    /// A run before its first stream.
    pub fn new() -> (r: Self)
        ensures
            r@ == ChatRunView::start(),
    {
        ChatRun {
            process: LLMCallProcess::Streaming,
            content: String::new(),
            tool_call: ToolCall::default(),
            pending: false,
        }
    }

    /// The phase of the run.
    pub fn process(&self) -> (r: LLMCallProcess)
        ensures
            r == self@.process,
    {
        self.process
    }

    /// The text gathered so far.
    pub fn content(&self) -> (r: &str)
        ensures
            r@ == self@.content,
    {
        self.content.as_str()
    }

    /// The tool call gathered from the current stream.
    pub fn tool_call(&self) -> (r: &ToolCall)
        ensures
            r@ == self@.tool_call,
    {
        &self.tool_call
    }

    /// Takes one chunk of the stream into the run and hands back what is to
    /// be published for it, if anything. Outside the streaming phase the
    /// chunk is dropped.
    pub fn on_chunk(&mut self, chunk: ChatMessageChunk) -> (r: Option<StreamMessage>)
        ensures
            final(self)@ == old(self)@.on_delta(chunk@.delta),
            opt_message_view(r) == if old(self)@.process == LLMCallProcess::Streaming {
                publication(chunk@.delta)
            } else {
                None
            },
    {
        if self.process != LLMCallProcess::Streaming {
            return None;
        }
        match chunk.delta {
            ChatMessageDelta::Content(text) => {
                self.content.append(text.as_str());
                if text.as_str().is_empty() {
                    None
                } else {
                    Some(StreamMessage::Delta(text))
                }
            },
            ChatMessageDelta::ToolCalls(fragment) => {
                let announcement = match (&fragment.id, &fragment.function.name) {
                    (Some(_), Some(name)) => {
                        let mut text = "Tools: ".to_string();
                        text.append(name.as_str());
                        Some(StreamMessage::Procedure(text))
                    },
                    _ => None,
                };
                let mut call = ToolCall::default();
                std::mem::swap(&mut self.tool_call, &mut call);
                self.tool_call = call.extend_chunk(fragment);
                self.pending = true;
                announcement
            },
        }
    }

    /// Ends the current stream and hands back the phase that follows.
    pub fn on_stream_end(&mut self) -> (r: LLMCallProcess)
        ensures
            final(self)@ == old(self)@.on_stream_end(),
            r == final(self)@.process,
    {
        if self.process == LLMCallProcess::Streaming {
            if self.pending {
                self.process = LLMCallProcess::Invoking;
            } else {
                self.process = LLMCallProcess::Done;
            }
        }
        self.process
    }

    /// Takes the provider's answer to a request for a completion: a stream
    /// is handed on for the run to read, and a refusal ends the run and is
    /// handed on as the error.
    pub fn on_answer<S>(&mut self, answer: Result<S, LLMError>) -> (r: Result<S, LLMError>)
        ensures
            r == answer,
            final(self)@ == if answer is Ok {
                old(self)@
            } else {
                old(self)@.given_up()
            },
    {
        if answer.is_err() {
            self.process = LLMCallProcess::Done;
        }
        answer
    }

    /// Takes what the stream hands out next. A chunk goes into the run as
    /// `on_chunk` has it, and what is to be published for it comes back; the
    /// end of the stream ends it as `on_stream_end` has it; an error of the
    /// stream ends the run and is handed on.
    pub fn on_item(&mut self, item: Option<Result<ChatMessageChunk, LLMError>>) -> (r: Result<
        Option<StreamMessage>,
        LLMError,
    >)
        ensures
            match item {
                Some(Ok(chunk)) => {
                    &&& r matches Ok(message) && opt_message_view(message) == if old(self)@.process
                        == LLMCallProcess::Streaming {
                        publication(chunk@.delta)
                    } else {
                        None
                    }
                    &&& final(self)@ == old(self)@.on_delta(chunk@.delta)
                },
                Some(Err(failure)) => {
                    &&& r matches Err(error) && error == failure
                    &&& final(self)@ == old(self)@.given_up()
                },
                None => {
                    &&& r matches Ok(message) && message is None
                    &&& final(self)@ == old(self)@.on_stream_end()
                },
            },
    {
        match item {
            Some(Ok(chunk)) => Ok(self.on_chunk(chunk)),
            Some(Err(error)) => {
                self.process = LLMCallProcess::Done;
                Err(error)
            },
            None => {
                self.on_stream_end();
                Ok(None)
            },
        }
    }

    /// Ends the run and hands back the text that it gathered.
    pub fn finish(self) -> (r: String)
        ensures
            r@ == self@.content,
    {
        self.content
    }

    /// Takes the chunks of a whole stream into the run, ends the stream and
    /// hands back what is to be published, in the order of the chunks.
    pub fn on_stream(&mut self, chunks: Vec<ChatMessageChunk>) -> (r: Vec<StreamMessage>)
        ensures
            final(self)@ == old(self)@.on_deltas(deltas_of(chunks@)).on_stream_end(),
            stream_messages_view(r@) == if old(self)@.process == LLMCallProcess::Streaming {
                publications(deltas_of(chunks@))
            } else {
                Seq::empty()
            },
    {
        let ghost all = deltas_of(chunks@);
        let mut published: Vec<StreamMessage> = Vec::new();
        assert(all.take(0) =~= Seq::empty());
        assert(stream_messages_view(published@) =~= Seq::empty());
        for chunk in it: chunks
            invariant
                it.seq() == chunks@,
                all == deltas_of(chunks@),
                self@ == old(self)@.on_deltas(all.take(it.index() as int)),
                self@.process == old(self)@.process,
                stream_messages_view(published@) == if old(self)@.process
                    == LLMCallProcess::Streaming {
                    publications(all.take(it.index() as int))
                } else {
                    Seq::empty()
                },
        {
            let ghost before = stream_messages_view(published@);
            let ghost taken = it.index() as int;
            assert(all.take(taken + 1).drop_last() =~= all.take(taken));
            assert(all.take(taken + 1).last() == all[taken]);
            match self.on_chunk(chunk) {
                Some(message) => {
                    published.push(message);
                    assert(stream_messages_view(published@) =~= before.push(message@));
                },
                None => {},
            }
        }
        assert(all.take(all.len() as int) =~= all);
        self.on_stream_end();
        published
    }

    /// Gives the run up: it is over, with what it had gathered.
    pub fn give_up(&mut self)
        ensures
            final(self)@ == old(self)@.given_up(),
    {
        self.process = LLMCallProcess::Done;
    }

    /// Finds the tool for the call that the run has gathered and reads the
    /// arguments of the call.
    ///
    /// The request fails with `ToolNotFound` where no tool is registered
    /// under the name of the call; else it fails with `DecodeError` where
    /// the arguments are not JSON; else it hands back the entry of the tool
    /// and the input to call it with.
    pub fn tool_request<'a, T>(&self, registry: &'a ToolRegistry<T>) -> (r: Result<
        (&'a ToolEntry<T>, serde_json::Value),
        LLMError,
    >)
        ensures
            match r {
                Ok((entry, input)) => {
                    &&& registry.contains(self@.tool_call.function.name)
                    &&& *entry == registry.entry_of(self@.tool_call.function.name)
                    &&& json_parse(self@.tool_call.function.arguments) == Some(json_text(input))
                },
                Err(error) => if registry.contains(self@.tool_call.function.name) {
                    json_parse(self@.tool_call.function.arguments) is None && error is DecodeError
                } else {
                    error@ == LLMErrorView::ToolNotFound(self@.tool_call.function.name)
                },
            },
    {
        let entry = match registry.get(self.tool_call.function.name.as_str()) {
            Some(entry) => entry,
            None => {
                return Err(LLMError::ToolNotFound(self.tool_call.function.name.clone()));
            },
        };
        match parse(self.tool_call.function.arguments.as_str()) {
            Ok(input) => Ok((entry, input)),
            Err(error) => Err(LLMError::from(error)),
        }
    }

    /// Takes the outcome of the tool into the run. A result is recorded in
    /// the conversation as the round of the call, and the run is ready for
    /// the next stream; an error of the tool is handed on, ends the run and
    /// leaves the conversation as it was. Outside the invoking phase the
    /// outcome is dropped.
    pub fn on_tool_result(
        &mut self,
        messages: &mut Vec<ChatMessage>,
        outcome: Result<serde_json::Value, LLMError>,
    ) -> (r: Result<(), LLMError>)
        ensures
            old(self)@.process != LLMCallProcess::Invoking ==> {
                &&& r is Ok
                &&& final(self)@ == old(self)@
                &&& *final(messages) == *old(messages)
            },
            old(self)@.process == LLMCallProcess::Invoking ==> match outcome {
                Ok(output) => {
                    &&& r is Ok
                    &&& final(self)@ == old(self)@.after_tool()
                    &&& messages_view(final(messages)@) == messages_view(old(messages)@)
                        + tool_round(old(self)@.tool_call, json_text(output))
                },
                Err(failure) => {
                    &&& r matches Err(error) && error == failure
                    &&& final(self)@ == old(self)@.given_up()
                    &&& *final(messages) == *old(messages)
                },
            },
    {
        if self.process != LLMCallProcess::Invoking {
            return Ok(());
        }
        let output = match outcome {
            Ok(output) => output,
            Err(error) => {
                self.process = LLMCallProcess::Done;
                return Err(error);
            },
        };
        let result = match to_text(&output) {
            Ok(result) => result,
            Err(error) => {
                self.process = LLMCallProcess::Done;
                return Err(LLMError::from(error));
            },
        };
        let mut call = ToolCall::default();
        std::mem::swap(&mut self.tool_call, &mut call);
        record_tool_round(messages, call, result.as_str());
        self.pending = false;
        self.process = LLMCallProcess::Streaming;
        Ok(())
    }

    /// Runs the tool that the run has gathered a call for and records the
    /// round in the conversation: `tool_request`, the call of the tool, and
    /// `on_tool_result`. Outside the invoking phase nothing happens.
    ///
    /// The call fails with `ToolNotFound` where no tool is registered under
    /// the name of the call, and with `DecodeError` where the arguments of
    /// the call are not JSON. Else the tool is called with the arguments as
    /// its input: its result is recorded, and its error is handed on. A
    /// failure ends the run and leaves the conversation as it was.
    pub fn invoke<T: Tool>(
        &mut self,
        messages: &mut Vec<ChatMessage>,
        registry: &ToolRegistry<T>,
    ) -> (r: Result<(), LLMError>)
        ensures
            old(self)@.process != LLMCallProcess::Invoking ==> {
                &&& r is Ok
                &&& final(self)@ == old(self)@
                &&& *final(messages) == *old(messages)
            },
            old(self)@.process == LLMCallProcess::Invoking ==> {
                let call = old(self)@.tool_call;
                let known = registry.contains(call.function.name);
                &&& !known ==> (r matches Err(error) && error@ == LLMErrorView::ToolNotFound(
                    call.function.name,
                ))
                &&& known && json_parse(call.function.arguments) is None ==> (r matches Err(error)
                    && error is DecodeError)
                &&& known && json_parse(call.function.arguments) is Some ==> exists|
                    input: serde_json::Value,
                    outcome: Result<serde_json::Value, LLMError>,
                |
                    {
                        &&& json_parse(call.function.arguments) == Some(json_text(input))
                        &&& #[trigger] call_ensures(
                            T::call,
                            (&registry.entry_of(call.function.name).tool, input),
                            outcome,
                        )
                        &&& match outcome {
                            Ok(output) => r is Ok && messages_view(final(messages)@)
                                == messages_view(old(messages)@) + tool_round(
                                call,
                                json_text(output),
                            ),
                            Err(failure) => r matches Err(error) && error == failure,
                        }
                    }
                &&& match r {
                    Ok(_) => {
                        &&& known
                        &&& json_parse(call.function.arguments) is Some
                        &&& final(self)@ == old(self)@.after_tool()
                        &&& messages_view(final(messages)@) == messages_view(old(messages)@)
                            + tool_round(call, messages_view(final(messages)@).last().content)
                    },
                    Err(_) => {
                        &&& final(self)@ == old(self)@.given_up()
                        &&& *final(messages) == *old(messages)
                    },
                }
            },
    {
        if self.process != LLMCallProcess::Invoking {
            return Ok(());
        }
        let (entry, input) = match self.tool_request(registry) {
            Ok(request) => request,
            Err(error) => {
                self.give_up();
                return Err(error);
            },
        };
        let outcome = entry.tool.call(input);
        let ghost call = self@.tool_call;
        let r = self.on_tool_result(messages, outcome);
        proof {
            if r is Ok {
                let appended = tool_round(call, json_text(outcome->Ok_0));
                assert(messages_view(messages@).last() == appended[1]);
            }
        }
        r
    }
}

/// The deltas of a list of chunks.
pub open spec fn deltas_of(chunks: Seq<ChatMessageChunk>) -> Seq<ChatMessageDeltaView> {
    chunks.map_values(|chunk: ChatMessageChunk| chunk@.delta)
}

/// The views of a list of messages for the output channel.
pub open spec fn stream_messages_view(messages: Seq<StreamMessage>) -> Seq<StreamMessageView> {
    messages.map_values(|message: StreamMessage| message@)
}

/// The texts that a stream of deltas carries, in order.
pub open spec fn texts_in(deltas: Seq<ChatMessageDeltaView>) -> Seq<Seq<char>>
    decreases deltas.len(),
{
    if deltas.len() == 0 {
        Seq::empty()
    } else {
        match deltas.last() {
            ChatMessageDeltaView::Content(text) => texts_in(deltas.drop_last()).push(text),
            ChatMessageDeltaView::ToolCalls(_) => texts_in(deltas.drop_last()),
        }
    }
}

/// The fragments of tool calls that a stream of deltas carries, in order.
pub open spec fn fragments_in(deltas: Seq<ChatMessageDeltaView>) -> Seq<ChunkToolCallView>
    decreases deltas.len(),
{
    if deltas.len() == 0 {
        Seq::empty()
    } else {
        match deltas.last() {
            ChatMessageDeltaView::Content(_) => fragments_in(deltas.drop_last()),
            ChatMessageDeltaView::ToolCalls(fragment) => fragments_in(deltas.drop_last()).push(
                fragment,
            ),
        }
    }
}

/// What a streaming run has gathered after a stream of deltas: behind its
/// content the texts of the stream, in its tool call the fragments of the
/// stream merged in order, and a call pending if it was or a fragment came.
pub proof fn lemma_stream_gathers(run: ChatRunView, deltas: Seq<ChatMessageDeltaView>)
    requires
        run.process == LLMCallProcess::Streaming,
    ensures
        run.on_deltas(deltas) == (ChatRunView {
            process: LLMCallProcess::Streaming,
            content: run.content + texts_in(deltas).flatten(),
            tool_call: merge_all(run.tool_call, fragments_in(deltas)),
            pending: run.pending || fragments_in(deltas).len() > 0,
        }),
    decreases deltas.len(),
{
    if deltas.len() == 0 {
        assert(run.content + texts_in(deltas).flatten() =~= run.content);
    } else {
        let front = deltas.drop_last();
        lemma_stream_gathers(run, front);
        match deltas.last() {
            ChatMessageDeltaView::Content(text) => {
                texts_in(front).lemma_flatten_push(text);
                assert(run.on_deltas(front).content + text =~= run.content + texts_in(
                    deltas,
                ).flatten());
            },
            ChatMessageDeltaView::ToolCalls(fragment) => {
                assert(fragments_in(deltas).drop_last() =~= fragments_in(front));
            },
        }
    }
}

/// A stream without a fragment of a tool call takes a run that waits for no
/// tool from streaming straight to done, and the run then holds what it held
/// before followed by the texts of the stream, in order.
pub proof fn lemma_text_stream_ends_run(run: ChatRunView, deltas: Seq<ChatMessageDeltaView>)
    requires
        run.process == LLMCallProcess::Streaming,
        !run.pending,
        forall|i: int| 0 <= i < deltas.len() ==> deltas[i] is Content,
    ensures
        run.on_deltas(deltas).on_stream_end() == (ChatRunView {
            process: LLMCallProcess::Done,
            content: run.content + texts_in(deltas).flatten(),
            ..run
        }),
        texts_in(deltas) == deltas.map_values(|delta: ChatMessageDeltaView| delta->Content_0),
{
    lemma_stream_gathers(run, deltas);
    lemma_text_stream(deltas);
}

/// A stream of texts carries no fragment, and its texts are those of its deltas.
proof fn lemma_text_stream(deltas: Seq<ChatMessageDeltaView>)
    requires
        forall|i: int| 0 <= i < deltas.len() ==> deltas[i] is Content,
    ensures
        fragments_in(deltas) == Seq::<ChunkToolCallView>::empty(),
        texts_in(deltas) == deltas.map_values(|delta: ChatMessageDeltaView| delta->Content_0),
    decreases deltas.len(),
{
    if deltas.len() > 0 {
        lemma_text_stream(deltas.drop_last());
    }
    assert(texts_in(deltas) =~= deltas.map_values(
        |delta: ChatMessageDeltaView| delta->Content_0,
    ));
}

/// A stream that brings a fragment of a tool call takes a streaming run to
/// invoking, with the fragments merged into its tool call.
pub proof fn lemma_fragment_stream_invokes(run: ChatRunView, deltas: Seq<ChatMessageDeltaView>)
    requires
        run.process == LLMCallProcess::Streaming,
        exists|i: int| 0 <= i < deltas.len() && deltas[i] is ToolCalls,
    ensures
        run.on_deltas(deltas).on_stream_end().process == LLMCallProcess::Invoking,
        run.on_deltas(deltas).on_stream_end().tool_call == merge_all(
            run.tool_call,
            fragments_in(deltas),
        ),
{
    lemma_stream_gathers(run, deltas);
    let i = choose|i: int| 0 <= i < deltas.len() && deltas[i] is ToolCalls;
    lemma_fragment_counts(deltas, i);
}

/// A stream with a fragment at place `i` carries at least one fragment.
proof fn lemma_fragment_counts(deltas: Seq<ChatMessageDeltaView>, i: int)
    requires
        0 <= i < deltas.len(),
        deltas[i] is ToolCalls,
    ensures
        fragments_in(deltas).len() > 0,
    decreases deltas.len(),
{
    if i < deltas.len() - 1 {
        lemma_fragment_counts(deltas.drop_last(), i);
    }
}

/// The messages of a tool round keep the rules of a message.
pub proof fn lemma_tool_rounds_well_formed(messages: Seq<ChatMessageView>)
    requires
        tool_rounds(messages),
    ensures
        forall|i: int| 0 <= i < messages.len() ==> (#[trigger] messages[i]).well_formed(),
{
    assert forall|i: int| 0 <= i < messages.len() implies (#[trigger] messages[i]).well_formed() by {
        let k = i / 2;
        assert(is_round_at(messages, k));
    }
}

/// The most events that one run takes from its provider, the chunks and the
/// ends of its streams counted together. No provider gets there; a run that
/// does is given up.
pub const MAX_EVENTS: u64 = u64::MAX;

/// Whether `answer` is what `client` may answer when it is asked for a
/// completion over `conversation`, with the definitions of the tools of
/// `registry` on offer.
pub open spec fn asks<P: LLMProvider, T>(
    client: &P,
    conversation: Seq<ChatMessage>,
    registry: &ToolRegistry<T>,
    answer: Result<P::Stream, LLMError>,
) -> bool {
    exists|messages: &[ChatMessage], tools: &[serde_json::Value]|
        {
            &&& messages@ == conversation
            &&& registry.exports(tools@)
            &&& #[trigger] call_ensures(P::chat_stream, (client, messages, tools), answer)
        }
}

/// Runs a chat over `messages`: streams a completion from `client`, publishes
/// its text on `stream`, runs the tool that the completion asks for and
/// streams again, until a completion asks for no tool. The result is the
/// text of all completions.
///
/// The run begins by asking the provider for a completion over the
/// conversation as it is given, with the catalogue of `registry` on offer;
/// where the provider refuses, its error is the result and the conversation
/// stays as it was. Whatever the provider and the tools answer, the
/// conversation only grows, and by whole rounds of tool calls. An error of
/// the provider or of a tool ends the run and is handed on as it is.
pub fn chat<P: LLMProvider, T: Tool>(
    messages: &mut Vec<ChatMessage>,
    stream: Sender<StreamMessage>,
    client: &P,
    registry: &ToolRegistry<T>,
) -> (r: Result<String, LLMError>)
    ensures
        old(messages)@.len() <= final(messages)@.len(),
        messages_view(final(messages)@).take(old(messages)@.len() as int) == messages_view(
            old(messages)@,
        ),
        tool_rounds(messages_view(final(messages)@).skip(old(messages)@.len() as int)),
        exists|answer: Result<P::Stream, LLMError>|
            {
                &&& #[trigger] asks(client, old(messages)@, registry, answer)
                &&& answer matches Err(error) ==> {
                    &&& r matches Err(failure) && failure == error
                    &&& *final(messages) == *old(messages)
                }
            },
{
    let tools = registry.export_all_tools();
    let mut run = ChatRun::new();
    let mut budget: u64 = MAX_EVENTS;
    let ghost mut started = false;
    let ghost mut first: Result<P::Stream, LLMError> = arbitrary();
    let ghost before = messages_view(messages@);
    assert(messages_view(messages@).take(before.len() as int) =~= before);
    assert(messages_view(messages@).skip(before.len() as int) =~= Seq::empty());
    loop
        invariant
            run@.process == LLMCallProcess::Streaming,
            before == messages_view(old(messages)@),
            before.len() <= messages@.len(),
            messages_view(messages@).take(before.len() as int) == before,
            tool_rounds(messages_view(messages@).skip(before.len() as int)),
            !started ==> *messages == *old(messages),
            started ==> first is Ok && asks(client, old(messages)@, registry, first),
            registry.exports(tools@),
        decreases budget,
    {
        let ghost at_start = budget;
        let answer = client.chat_stream(messages.as_slice(), tools.as_slice());
        proof {
            if !started {
                assert(asks(client, old(messages)@, registry, answer));
                first = answer;
            }
        }
        let mut source = match run.on_answer(answer) {
            Ok(source) => source,
            Err(error) => {
                return Err(error);
            },
        };
        proof {
            started = true;
        }
        while run.process() == LLMCallProcess::Streaming
            invariant
                budget <= at_start,
                run@.process != LLMCallProcess::Streaming ==> budget < at_start,
                before == messages_view(old(messages)@),
                before.len() <= messages@.len(),
                messages_view(messages@).take(before.len() as int) == before,
                tool_rounds(messages_view(messages@).skip(before.len() as int)),
                started && first is Ok && asks(client, old(messages)@, registry, first),
            decreases budget,
        {
            if budget == 0 {
                return Err(
                    LLMError::TransportError("the provider sent too many events".to_string()),
                );
            }
            budget = budget - 1;
            match run.on_item(source.next()) {
                Ok(Some(message)) => {
                    publish(&stream, message);
                },
                Ok(None) => {},
                Err(error) => {
                    return Err(error);
                },
            }
        }
        match run.process() {
            LLMCallProcess::Invoking => {
                let ghost held = messages_view(messages@);
                let ghost call = run@.tool_call;
                match run.invoke(messages, registry) {
                    Ok(_) => {
                        proof {
                            let now = messages_view(messages@);
                            let round = tool_round(call, now.last().content);
                            assert(now == held + round);
                            assert(now.take(before.len() as int) =~= before);
                            assert(now.skip(before.len() as int) =~= held.skip(
                                before.len() as int,
                            ) + round);
                            lemma_one_more_round(
                                held.skip(before.len() as int),
                                now.skip(before.len() as int),
                                call,
                                now.last().content,
                            );
                        }
                    },
                    Err(error) => {
                        return Err(error);
                    },
                }
            },
            _ => {
                return Ok(run.finish());
            },
        }
    }
}

/// Rounds of tool calls followed by one more round are rounds of tool calls.
proof fn lemma_one_more_round(
    rounds: Seq<ChatMessageView>,
    all: Seq<ChatMessageView>,
    call: ToolCallView,
    result: Seq<char>,
)
    requires
        tool_rounds(rounds),
        all == rounds + tool_round(call, result),
    ensures
        tool_rounds(all),
{
    assert forall|k: int| 0 <= k && 2 * k < all.len() implies #[trigger] is_round_at(all, k) by {
        if 2 * k < rounds.len() {
            assert(is_round_at(rounds, k));
            assert(all[2 * k] == rounds[2 * k]);
            assert(all[2 * k + 1] == rounds[2 * k + 1]);
        } else {
            assert(all[2 * k] == call_turn(call));
            assert(all[2 * k + 1] == result_turn(call.id, result));
            assert(call_turn(call).tool_calls[0] == call);
        }
    }
}

} // verus!
