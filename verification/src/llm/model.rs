//! The conversation data model and the merge rule for streamed tool calls.

use vstd::prelude::*;
use vstd::string::StringExecFns;

verus! {

/// The author of one turn of a conversation.
#[derive(Debug, Clone, Copy, PartialEq, Eq, Structural)]
pub enum ChatMessageRole {
    User,
    Assistant,
    System,
    /// The result of a tool call.
    Tool,
}

/// The text of an optional string, for use in contracts.
pub open spec fn opt_text(s: Option<String>) -> Option<Seq<char>> {
    match s {
        Some(s) => Some(s@),
        None => None,
    }
}

/// The function named by a tool call, with its JSON-encoded arguments.
#[derive(Debug)]
pub struct ToolFunction {
    pub name: String,
    pub arguments: String,
}

/// `ToolFunction` as contracts see it.
pub struct ToolFunctionView {
    pub name: Seq<char>,
    pub arguments: Seq<char>,
}

impl View for ToolFunction {
    type V = ToolFunctionView;

    open spec fn view(&self) -> ToolFunctionView {
        ToolFunctionView { name: self.name@, arguments: self.arguments@ }
    }
}

impl Clone for ToolFunction {
    fn clone(&self) -> (r: Self)
        ensures
            r == *self,
    {
        ToolFunction { name: self.name.clone(), arguments: self.arguments.clone() }
    }
}

impl Default for ToolFunction {
    fn default() -> (r: Self)
        ensures
            r@ == ToolFunctionView::empty(),
    {
        ToolFunction { name: String::new(), arguments: String::new() }
    }
}

impl ToolFunctionView {
    /// The function with no name and no arguments.
    pub open spec fn empty() -> ToolFunctionView {
        ToolFunctionView { name: Seq::empty(), arguments: Seq::empty() }
    }
}

/// A fully assembled request to run a registered tool.
#[derive(Debug)]
pub struct ToolCall {
    /// The correlation id that the provider assigned.
    pub id: String,
    /// The position among the parallel calls of one turn.
    pub index: i64,
    /// The kind of call; providers send "function".
    pub call_kind: String,
    pub function: ToolFunction,
}

/// `ToolCall` as contracts see it.
pub struct ToolCallView {
    pub id: Seq<char>,
    pub index: i64,
    pub call_kind: Seq<char>,
    pub function: ToolFunctionView,
}

impl View for ToolCall {
    type V = ToolCallView;

    open spec fn view(&self) -> ToolCallView {
        ToolCallView {
            id: self.id@,
            index: self.index,
            call_kind: self.call_kind@,
            function: self.function@,
        }
    }
}

impl ToolCallView {
    /// The call in which nothing has been set yet.
    pub open spec fn empty() -> ToolCallView {
        ToolCallView {
            id: Seq::empty(),
            index: 0,
            call_kind: Seq::empty(),
            function: ToolFunctionView::empty(),
        }
    }
}

impl Clone for ToolCall {
    fn clone(&self) -> (r: Self)
        ensures
            r == *self,
    {
        ToolCall {
            id: self.id.clone(),
            index: self.index,
            call_kind: self.call_kind.clone(),
            function: self.function.clone(),
        }
    }
}

impl Default for ToolCall {
    fn default() -> (r: Self)
        ensures
            r@ == ToolCallView::empty(),
    {
        ToolCall {
            id: String::new(),
            index: 0,
            call_kind: String::new(),
            function: ToolFunction::default(),
        }
    }
}

/// The function part of a streamed tool-call fragment.
#[derive(Debug)]
pub struct ChunkToolFunction {
    pub name: Option<String>,
    /// A piece of the JSON-encoded arguments; the pieces of one call arrive in order.
    pub arguments: String,
}

/// `ChunkToolFunction` as contracts see it.
pub struct ChunkToolFunctionView {
    pub name: Option<Seq<char>>,
    pub arguments: Seq<char>,
}

impl View for ChunkToolFunction {
    type V = ChunkToolFunctionView;

    open spec fn view(&self) -> ChunkToolFunctionView {
        ChunkToolFunctionView { name: opt_text(self.name), arguments: self.arguments@ }
    }
}

/// One streamed fragment of a tool call: every field but `index` may be missing.
#[derive(Debug)]
pub struct ChunkToolCall {
    pub id: Option<String>,
    pub index: i64,
    pub call_kind: Option<String>,
    pub function: ChunkToolFunction,
}

/// `ChunkToolCall` as contracts see it.
pub struct ChunkToolCallView {
    pub id: Option<Seq<char>>,
    pub index: i64,
    pub call_kind: Option<Seq<char>>,
    pub function: ChunkToolFunctionView,
}

impl View for ChunkToolCall {
    type V = ChunkToolCallView;

    open spec fn view(&self) -> ChunkToolCallView {
        ChunkToolCallView {
            id: opt_text(self.id),
            index: self.index,
            call_kind: opt_text(self.call_kind),
            function: self.function@,
        }
    }
}

impl Clone for ChunkToolFunction {
    fn clone(&self) -> (r: Self)
        ensures
            r == *self,
    {
        ChunkToolFunction { name: self.name.clone(), arguments: self.arguments.clone() }
    }
}

impl Clone for ChunkToolCall {
    fn clone(&self) -> (r: Self)
        ensures
            r == *self,
    {
        ChunkToolCall {
            id: self.id.clone(),
            index: self.index,
            call_kind: self.call_kind.clone(),
            function: self.function.clone(),
        }
    }
}

/// The views of a list of tool calls.
pub open spec fn tool_calls_view(calls: Seq<ToolCall>) -> Seq<ToolCallView> {
    calls.map_values(|call: ToolCall| call@)
}

/// One turn of a conversation.
#[derive(Debug)]
pub struct ChatMessage {
    pub content: String,
    pub role: ChatMessageRole,
    /// On a tool result, the id of the call that it answers.
    pub tool_call_id: Option<String>,
    /// On an assistant turn, the tool calls that the assistant asked for.
    pub tool_calls: Vec<ToolCall>,
}

/// `ChatMessage` as contracts see it.
pub struct ChatMessageView {
    pub content: Seq<char>,
    pub role: ChatMessageRole,
    pub tool_call_id: Option<Seq<char>>,
    pub tool_calls: Seq<ToolCallView>,
}

impl View for ChatMessage {
    type V = ChatMessageView;

    open spec fn view(&self) -> ChatMessageView {
        ChatMessageView {
            content: self.content@,
            role: self.role,
            tool_call_id: opt_text(self.tool_call_id),
            tool_calls: tool_calls_view(self.tool_calls@),
        }
    }
}

impl ChatMessageView {
    /// A message of the given role that carries text and nothing else.
    pub open spec fn plain(role: ChatMessageRole, content: Seq<char>) -> ChatMessageView {
        ChatMessageView { content, role, tool_call_id: None, tool_calls: Seq::empty() }
    }

    /// A tool-role message always names the call that it answers, and only an
    /// assistant message carries tool calls.
    pub open spec fn well_formed(self) -> bool {
        &&& self.role == ChatMessageRole::Tool ==> self.tool_call_id is Some
        &&& self.role != ChatMessageRole::Assistant ==> self.tool_calls.len() == 0
    }
}

impl Default for ChatMessage {
    fn default() -> (r: Self)
        ensures
            r@ == ChatMessageView::plain(ChatMessageRole::User, Seq::empty()),
    {
        proof {
            reveal_strlit("");
        }
        assert(""@ =~= Seq::empty());
        ChatMessage::plain(ChatMessageRole::User, "")
    }
}

impl Clone for ChatMessage {
    fn clone(&self) -> (r: Self)
        ensures
            r@ == self@,
    {
        let mut tool_calls: Vec<ToolCall> = Vec::new();
        let mut i: usize = 0;
        while i < self.tool_calls.len()
            invariant
                i <= self.tool_calls.len(),
                tool_calls@ == self.tool_calls@.take(i as int),
            decreases self.tool_calls.len() - i,
        {
            tool_calls.push(self.tool_calls[i].clone());
            i = i + 1;
        }
        assert(self.tool_calls@.take(i as int) == self.tool_calls@);
        ChatMessage {
            content: self.content.clone(),
            role: self.role,
            tool_call_id: self.tool_call_id.clone(),
            tool_calls,
        }
    }
}

impl ChatMessage {
    /// Whether the message keeps the rules of `ChatMessageView::well_formed`.
    pub open spec fn well_formed(&self) -> bool {
        self@.well_formed()
    }

    /// A message of the given role that carries the text and nothing else.
    fn plain(role: ChatMessageRole, content: &str) -> (r: Self)
        ensures
            r@ == ChatMessageView::plain(role, content@),
    {
        let message = ChatMessage {
            content: content.to_string(),
            role,
            tool_call_id: None,
            tool_calls: Vec::new(),
        };
        assert(message@.tool_calls =~= Seq::empty());
        message
    }

    /// A message that the user wrote.
    pub fn user(content: &str) -> (r: Self)
        ensures
            r@ == ChatMessageView::plain(ChatMessageRole::User, content@),
            r.well_formed(),
    {
        ChatMessage::plain(ChatMessageRole::User, content)
    }

    /// A message that the assistant wrote.
    pub fn assistant(content: &str) -> (r: Self)
        ensures
            r@ == ChatMessageView::plain(ChatMessageRole::Assistant, content@),
            r.well_formed(),
    {
        ChatMessage::plain(ChatMessageRole::Assistant, content)
    }

    /// A message that instructs the model.
    pub fn system(content: &str) -> (r: Self)
        ensures
            r@ == ChatMessageView::plain(ChatMessageRole::System, content@),
            r.well_formed(),
    {
        ChatMessage::plain(ChatMessageRole::System, content)
    }

    /// The result of the tool call with the id `tool_call_id`.
    pub fn tool(content: &str, tool_call_id: String) -> (r: Self)
        ensures
            r@ == (ChatMessageView {
                tool_call_id: Some(tool_call_id@),
                ..ChatMessageView::plain(ChatMessageRole::Tool, content@)
            }),
            r.well_formed(),
    {
        let mut message = ChatMessage::plain(ChatMessageRole::Tool, content);
        message.tool_call_id = Some(tool_call_id);
        message
    }

    /// The message with one more tool call behind those it carries. Only on an
    /// assistant message does the result keep the rules of a message.
    pub fn with_tool_call(self, tool_call: ToolCall) -> (r: Self)
        ensures
            r@ == (ChatMessageView { tool_calls: self@.tool_calls.push(tool_call@), ..self@ }),
            r.well_formed() <==> self.well_formed() && self.role == ChatMessageRole::Assistant,
    {
        let mut message = self;
        message.tool_calls.push(tool_call);
        assert(tool_calls_view(message.tool_calls@) =~= tool_calls_view(self.tool_calls@).push(
            tool_call@,
        ));
        message
    }
}

/// Why the provider ended a completion.
#[derive(Debug, Clone, Copy, PartialEq, Eq, Structural)]
pub enum FinishReason {
    Stop,
    Length,
    ContentFilter,
    ToolCalls,
    InsufficientSystemResource,
}

/// A whole completion as it is returned and stored, whatever provider made it.
#[derive(Debug)]
pub struct ChatMessageResponse {
    pub id: String,
    pub message: String,
    pub created: i64,
    pub model: String,
    pub finish_reason: FinishReason,
    pub total_tokens: i64,
}

impl Clone for ChatMessageResponse {
    fn clone(&self) -> (r: Self)
        ensures
            r == *self,
    {
        ChatMessageResponse {
            id: self.id.clone(),
            message: self.message.clone(),
            created: self.created,
            model: self.model.clone(),
            finish_reason: self.finish_reason,
            total_tokens: self.total_tokens,
        }
    }
}

/// What one streamed event adds: a piece of text or a piece of a tool call.
#[derive(Debug)]
pub enum ChatMessageDelta {
    Content(String),
    ToolCalls(ChunkToolCall),
}

/// `ChatMessageDelta` as contracts see it.
pub enum ChatMessageDeltaView {
    Content(Seq<char>),
    ToolCalls(ChunkToolCallView),
}

impl View for ChatMessageDelta {
    type V = ChatMessageDeltaView;

    open spec fn view(&self) -> ChatMessageDeltaView {
        match self {
            ChatMessageDelta::Content(text) => ChatMessageDeltaView::Content(text@),
            ChatMessageDelta::ToolCalls(fragment) => ChatMessageDeltaView::ToolCalls(fragment@),
        }
    }
}

impl Clone for ChatMessageDelta {
    fn clone(&self) -> (r: Self)
        ensures
            r == *self,
    {
        match self {
            ChatMessageDelta::Content(text) => ChatMessageDelta::Content(text.clone()),
            ChatMessageDelta::ToolCalls(fragment) => ChatMessageDelta::ToolCalls(fragment.clone()),
        }
    }
}

/// One streamed event of a completion, in the form common to all providers.
#[derive(Debug)]
pub struct ChatMessageChunk {
    pub id: String,
    pub delta: ChatMessageDelta,
    pub created: i64,
    pub model: String,
    pub finish_reason: Option<FinishReason>,
    pub total_tokens: Option<i64>,
}

/// `ChatMessageChunk` as contracts see it.
pub struct ChatMessageChunkView {
    pub id: Seq<char>,
    pub delta: ChatMessageDeltaView,
    pub created: i64,
    pub model: Seq<char>,
    pub finish_reason: Option<FinishReason>,
    pub total_tokens: Option<i64>,
}

impl View for ChatMessageChunk {
    type V = ChatMessageChunkView;

    open spec fn view(&self) -> ChatMessageChunkView {
        ChatMessageChunkView {
            id: self.id@,
            delta: self.delta@,
            created: self.created,
            model: self.model@,
            finish_reason: self.finish_reason,
            total_tokens: self.total_tokens,
        }
    }
}

impl Clone for ChatMessageChunk {
    fn clone(&self) -> (r: Self)
        ensures
            r == *self,
    {
        ChatMessageChunk {
            id: self.id.clone(),
            delta: self.delta.clone(),
            created: self.created,
            model: self.model.clone(),
            finish_reason: self.finish_reason,
            total_tokens: self.total_tokens,
        }
    }
}

/// `new` where it is present, else `current`.
pub open spec fn latest(current: Seq<char>, new: Option<Seq<char>>) -> Seq<char> {
    match new {
        Some(text) => text,
        None => current,
    }
}

/// The merge rule: a fragment replaces the id, the kind and the function name
/// where it carries one, and its piece of the arguments is appended.
pub open spec fn merge(call: ToolCallView, fragment: ChunkToolCallView) -> ToolCallView {
    ToolCallView {
        id: latest(call.id, fragment.id),
        index: call.index,
        call_kind: latest(call.call_kind, fragment.call_kind),
        function: ToolFunctionView {
            name: latest(call.function.name, fragment.function.name),
            arguments: call.function.arguments + fragment.function.arguments,
        },
    }
}

/// The merge rule applied to the fragments one after the other, in the order
/// in which they arrived.
pub open spec fn merge_all(call: ToolCallView, fragments: Seq<ChunkToolCallView>) -> ToolCallView
    decreases fragments.len(),
{
    if fragments.len() == 0 {
        call
    } else {
        merge(merge_all(call, fragments.drop_last()), fragments.last())
    }
}

/// The tool call that a lone fragment stands for: a missing id or name is
/// empty, a missing kind is "function".
pub open spec fn from_fragment(fragment: ChunkToolCallView) -> ToolCallView {
    ToolCallView {
        id: latest(Seq::empty(), fragment.id),
        index: fragment.index,
        call_kind: latest("function"@, fragment.call_kind),
        function: ToolFunctionView {
            name: latest(Seq::empty(), fragment.function.name),
            arguments: fragment.function.arguments,
        },
    }
}

impl From<ChunkToolCall> for ToolCall {
    /// Completes a lone fragment to a tool call.
    fn from(chunk_tool_call: ChunkToolCall) -> (r: Self)
        ensures
            r@ == from_fragment(chunk_tool_call@),
    {
        ToolCall {
            id: match chunk_tool_call.id {
                Some(id) => id,
                None => String::new(),
            },
            index: chunk_tool_call.index,
            call_kind: match chunk_tool_call.call_kind {
                Some(call_kind) => call_kind,
                None => "function".to_string(),
            },
            function: ToolFunction {
                name: match chunk_tool_call.function.name {
                    Some(name) => name,
                    None => String::new(),
                },
                arguments: chunk_tool_call.function.arguments,
            },
        }
    }
}

impl vstd::std_specs::convert::FromSpecImpl<ChunkToolCall> for ToolCall {
    /// The conversion is stated over views, by `from_fragment`.
    open spec fn obeys_from_spec() -> bool {
        false
    }

    open spec fn from_spec(v: ChunkToolCall) -> ToolCall {
        arbitrary()
    }
}

impl ToolCall {
    /// Merges one streamed fragment into the call.
    pub fn extend_chunk(self, chunk_tool_call: ChunkToolCall) -> (r: Self)
        ensures
            r@ == merge(self@, chunk_tool_call@),
    {
        let mut call = self;
        if let Some(id) = chunk_tool_call.id {
            call.id = id;
        }
        if let Some(call_kind) = chunk_tool_call.call_kind {
            call.call_kind = call_kind;
        }
        if let Some(name) = chunk_tool_call.function.name {
            call.function.name = name;
        }
        call.function.arguments.append(chunk_tool_call.function.arguments.as_str());
        call
    }
}

/// The argument pieces of the fragments, in the order of the fragments.
pub open spec fn argument_pieces(fragments: Seq<ChunkToolCallView>) -> Seq<Seq<char>> {
    fragments.map_values(|fragment: ChunkToolCallView| fragment.function.arguments)
}

/// Whether `value` is what `values` holds last among its present entries, or
/// `fallback` where none is present.
pub open spec fn is_latest_of(
    value: Seq<char>,
    fallback: Seq<char>,
    values: Seq<Option<Seq<char>>>,
) -> bool {
    &&& (forall|i: int| 0 <= i < values.len() ==> values[i] is None) ==> value == fallback
    &&& forall|i: int|
        0 <= i < values.len() && values[i] is Some && (forall|j: int|
            i < j < values.len() ==> values[j] is None) ==> value == values[i]->0
}

/// Merging fragments one by one gives the arguments of all fragments
/// concatenated in arrival order, behind what the call already held.
pub proof fn lemma_merge_all_arguments(call: ToolCallView, fragments: Seq<ChunkToolCallView>)
    ensures
        merge_all(call, fragments).function.arguments == call.function.arguments
            + argument_pieces(fragments).flatten(),
    decreases fragments.len(),
{
    if fragments.len() > 0 {
        let front = fragments.drop_last();
        lemma_merge_all_arguments(call, front);
        argument_pieces(front).lemma_flatten_push(fragments.last().function.arguments);
        assert(argument_pieces(fragments) =~= argument_pieces(front).push(
            fragments.last().function.arguments,
        ));
        assert(merge_all(call, fragments).function.arguments =~= call.function.arguments
            + argument_pieces(fragments).flatten());
    } else {
        assert(merge_all(call, fragments).function.arguments =~= call.function.arguments
            + argument_pieces(fragments).flatten());
    }
}

/// A call gathered from nothing holds as its arguments the pieces of all
/// fragments, concatenated in arrival order.
pub proof fn lemma_merge_all_from_empty(fragments: Seq<ChunkToolCallView>)
    ensures
        merge_all(ToolCallView::empty(), fragments).function.arguments == argument_pieces(
            fragments,
        ).flatten(),
{
    lemma_merge_all_arguments(ToolCallView::empty(), fragments);
    assert(Seq::<char>::empty() + argument_pieces(fragments).flatten() =~= argument_pieces(
        fragments,
    ).flatten());
}

/// Merging fragments one by one leaves in the id, the kind and the function
/// name the last value that some fragment carried for it, and what the call
/// held before where no fragment carried one. The index stays.
pub proof fn lemma_merge_all_latest(call: ToolCallView, fragments: Seq<ChunkToolCallView>)
    ensures
        is_latest_of(
            merge_all(call, fragments).id,
            call.id,
            fragments.map_values(|fragment: ChunkToolCallView| fragment.id),
        ),
        is_latest_of(
            merge_all(call, fragments).call_kind,
            call.call_kind,
            fragments.map_values(|fragment: ChunkToolCallView| fragment.call_kind),
        ),
        is_latest_of(
            merge_all(call, fragments).function.name,
            call.function.name,
            fragments.map_values(|fragment: ChunkToolCallView| fragment.function.name),
        ),
        merge_all(call, fragments).index == call.index,
    decreases fragments.len(),
{
    if fragments.len() > 0 {
        let front = fragments.drop_last();
        lemma_merge_all_latest(call, front);
        let ids = fragments.map_values(|fragment: ChunkToolCallView| fragment.id);
        let kinds = fragments.map_values(|fragment: ChunkToolCallView| fragment.call_kind);
        let names = fragments.map_values(|fragment: ChunkToolCallView| fragment.function.name);
        assert(front.map_values(|fragment: ChunkToolCallView| fragment.id) =~= ids.drop_last());
        assert(front.map_values(|fragment: ChunkToolCallView| fragment.call_kind)
            =~= kinds.drop_last());
        assert(front.map_values(|fragment: ChunkToolCallView| fragment.function.name)
            =~= names.drop_last());
        lemma_latest_step(merge_all(call, front).id, call.id, ids);
        lemma_latest_step(merge_all(call, front).call_kind, call.call_kind, kinds);
        lemma_latest_step(merge_all(call, front).function.name, call.function.name, names);
    }
}

/// One more entry behind `values.drop_last()` either replaces the latest value or leaves it.
proof fn lemma_latest_step(before: Seq<char>, fallback: Seq<char>, values: Seq<Option<Seq<char>>>)
    requires
        values.len() > 0,
        is_latest_of(before, fallback, values.drop_last()),
    ensures
        is_latest_of(latest(before, values.last()), fallback, values),
{
    let front = values.drop_last();
    let after = latest(before, values.last());
    if values.last() is Some {
        assert forall|i: int|
            0 <= i < values.len() && values[i] is Some && (forall|j: int|
                i < j < values.len() ==> values[j] is None) implies after == values[i]->0 by {
            if i < values.len() - 1 {
                assert(values[values.len() - 1] is None);
            }
        }
    } else {
        assert forall|i: int|
            0 <= i < values.len() && values[i] is Some && (forall|j: int|
                i < j < values.len() ==> values[j] is None) implies after == values[i]->0 by {
            assert(i < front.len());
            assert(front[i] is Some);
            assert forall|j: int| i < j < front.len() implies front[j] is None by {
                assert(front[j] == values[j]);
            }
        }
        if forall|i: int| 0 <= i < values.len() ==> values[i] is None {
            assert forall|i: int| 0 <= i < front.len() implies front[i] is None by {
                assert(front[i] == values[i]);
            }
        }
    }
}

} // verus!
